//! The placing of the window on the monitor.

use vstd::prelude::*;

verus! {

/// Whether the window has been given its size and still has to be centred
/// once the resize is reported.
#[derive(Clone, Copy, PartialEq, Eq, Debug, Structural)]
pub struct WindowAwaitsCentering(pub bool);

impl Default for WindowAwaitsCentering {
    fn default() -> (flag: WindowAwaitsCentering)
        ensures
            flag == WindowAwaitsCentering(false),
    {
        WindowAwaitsCentering(false)
    }
}

/// Half of `length`, rounded towards zero.
pub open spec fn half(length: int) -> int {
    if length >= 0 {
        length / 2
    } else {
        -((-length) / 2)
    }
}

/// Along one axis, the place of a window of `window` physical pixels that
/// leaves the same room on both sides of a monitor which starts at `offset`
/// and is `monitor` pixels long. A window longer than the monitor hangs over
/// on both sides. `None` where the place is no `i32`.
pub fn centered(offset: i32, monitor: i32, window: i32) -> (place: Option<i32>)
    ensures
        match place {
            Some(at) => at == offset + half(monitor - window),
            None => !(i32::MIN <= offset + half(monitor - window) <= i32::MAX),
        },
{
    let room: i64 = monitor as i64 - window as i64;
    let margin: i64 = if room >= 0 {
        room / 2
    } else {
        -((-room) / 2)
    };
    let at: i64 = offset as i64 + margin;
    if at < i32::MIN as i64 || at > i32::MAX as i64 {
        None
    } else {
        Some(at as i32)
    }
}

} // verus!
