//! The engine of a reparenting window manager: the client/frame registry, the
//! handlers that turn server events into server requests, and the drag session.

use vstd::prelude::*;

pub mod engine;
pub mod errors;
pub mod registry;

verus! {

/// A point or an extent in root coordinates.
#[derive(Clone, Copy, Debug, PartialEq, Eq, Structural)]
pub struct Position {
    pub x: i32,
    pub y: i32,
}

impl Position {
    pub fn new(x: i32, y: i32) -> (r: Position)
        ensures
            r.x == x,
            r.y == y,
    {
        Position { x, y }
    }
}

impl Default for Position {
    fn default() -> (r: Position)
        ensures
            r.x == 0,
            r.y == 0,
    {
        Position { x: 0, y: 0 }
    }
}

} // verus!
