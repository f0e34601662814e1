//! Viewport and navigation core of a terminal line editor.
//!
//! The crate keeps a scroll offset over a line-based text buffer, tracks the
//! cursor, turns directional navigation intents into new buffer-absolute
//! positions (with line-boundary wrap and column-snap rules), and plans the
//! minimal redraw when state changes.  All terminal I/O is left to the host:
//! the engine consumes plain values (terminal bounds, intents) and produces
//! plain values (draw commands, cursor targets).

pub mod buffer;
pub mod common;
pub mod editor;
pub mod vectors;
pub mod viewport;
