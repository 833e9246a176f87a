//! Game rules of a messaging-themed client that runs on an entity-component
//! engine: which entities a state owns and loses on exit, how the colour
//! palette follows the two mode flags, how chat messages take their colours
//! from the palette, and how entities marked as doomed are swept.
//!
//! The engine keeps the entities. This crate decides what is removed and what
//! every colour is, and queues removals through the engine's command buffer.

pub mod app_state;
pub mod change_detection;
pub mod cleanup;
pub mod color_utils;
pub mod component_utils;
pub mod deferred;
pub mod fever;
pub mod sandbox;
pub mod sent_message;
pub mod window_utils;
