use crate::vectors::Vec2;
use vstd::prelude::*;

verus! {

/// A navigation intent: one unit step in a compass direction.
///
/// Decoding raw key events into intents is the host's job; the engine only
/// ever sees one of these four directions.
#[derive(Clone, Copy, Debug, PartialEq, Eq, Structural)]
pub enum Direction {
    Up,
    Down,
    Left,
    Right,
}

/// A command from the host input loop to the editor core.
#[derive(Clone, Copy, Debug, PartialEq, Eq, Structural)]
pub enum EditorCommand {
    Move(Direction),
    Quit,
    Resize(Vec2),
}

} // verus!
