use vstd::prelude::*;

use crate::math::{IVec2, UVec2};

verus! {

/// A pointer button, as the window layer reports it.
#[derive(Clone, Copy, Debug, PartialEq, Eq, Structural)]
pub enum MouseButtons {
    Left,
    Right,
    Middle,
    Back,
    Forward,
    Other(u8),
}

/// Whether a button went down or up.
#[derive(Clone, Copy, Debug, PartialEq, Eq, Structural)]
pub enum ElementState {
    Pressed,
    Released,
}

/// What the shell does after the view handled an event.
#[derive(Clone, Copy, Debug, PartialEq, Eq, Structural)]
pub enum EventResult {
    Continue,
    Redraw,
    Exit,
}

/// Events that the view posts to itself through the event loop.
#[derive(Clone, Copy, Debug, PartialEq, Eq, Structural)]
pub enum UserEvent {
    Redraw,
    TileReady { tile_index: usize },
}

/// The pointer's move from `prev` to `next`, or `None` when a coordinate
/// does not fit in an `i32`.
pub fn pointer_delta(prev: UVec2, next: UVec2) -> (r: Option<IVec2>)
    ensures
        (prev.x <= i32::MAX && prev.y <= i32::MAX && next.x <= i32::MAX && next.y <= i32::MAX) ==> r
            == Some(IVec2 { x: (next.x - prev.x) as i32, y: (next.y - prev.y) as i32 }),
        !(prev.x <= i32::MAX && prev.y <= i32::MAX && next.x <= i32::MAX && next.y <= i32::MAX) ==> r is None,
{
    let limit = i32::MAX as u32;
    if prev.x > limit || prev.y > limit || next.x > limit || next.y > limit {
        return None;
    }
    Some(IVec2 { x: next.x as i32 - prev.x as i32, y: next.y as i32 - prev.y as i32 })
}

} // verus!
