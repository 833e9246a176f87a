//! The application's phases, and one marker type for each of them.

use crate::cleanup::Cleanup;
use vstd::prelude::*;

verus! {

/// The phase the application is in. Exactly one is current at any time.
#[derive(Clone, Copy, PartialEq, Eq, Hash, Debug, Structural)]
pub enum AppState {
    Splash,
    MainMenu,
    InGame,
    PauseMenu,
    Won,
}

impl Default for AppState {
    fn default() -> (state: AppState)
        ensures
            state == AppState::Splash,
    {
        AppState::Splash
    }
}

/// Marker for [`AppState::Splash`].
#[derive(Debug, Eq, PartialEq)]
pub struct Splash;

/// Marker for [`AppState::MainMenu`].
#[derive(Debug, Eq, PartialEq)]
pub struct MainMenu;

/// Marker for [`AppState::InGame`].
#[derive(Debug, Eq, PartialEq)]
pub struct InGame;

/// Marker for [`AppState::PauseMenu`].
#[derive(Debug, Eq, PartialEq)]
pub struct PauseMenu;

/// Marker for [`AppState::Won`].
#[derive(Debug, Eq, PartialEq)]
pub struct Won;

/// Implemented by the ownership tags of the application states, and by
/// nothing else: a bound on this trait admits exactly the tags whose entities
/// go when a state is left.
pub trait AppStateTrait {
    /// The state whose exit removes the entities that carry this tag.
    spec fn owner() -> AppState;

    /// The state whose exit removes the entities that carry this tag.
    fn state() -> (state: AppState)
        ensures
            state == Self::owner(),
    ;
}

impl AppStateTrait for Cleanup<Splash> {
    open spec fn owner() -> AppState {
        AppState::Splash
    }

    fn state() -> (state: AppState) {
        AppState::Splash
    }
}

impl AppStateTrait for Cleanup<MainMenu> {
    open spec fn owner() -> AppState {
        AppState::MainMenu
    }

    fn state() -> (state: AppState) {
        AppState::MainMenu
    }
}

impl AppStateTrait for Cleanup<InGame> {
    open spec fn owner() -> AppState {
        AppState::InGame
    }

    fn state() -> (state: AppState) {
        AppState::InGame
    }
}

impl AppStateTrait for Cleanup<PauseMenu> {
    open spec fn owner() -> AppState {
        AppState::PauseMenu
    }

    fn state() -> (state: AppState) {
        AppState::PauseMenu
    }
}

impl AppStateTrait for Cleanup<Won> {
    open spec fn owner() -> AppState {
        AppState::Won
    }

    fn state() -> (state: AppState) {
        AppState::Won
    }
}

} // verus!
