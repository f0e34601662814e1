use crate::buffer::{lemma_split_lines_nonempty, split_lines, Buffer};
use crate::common::EditorCommand;
use crate::vectors::Vec2;
use crate::viewport::{spec_move_cursor, spec_resize, ViewportEngine};
use vstd::prelude::*;

verus! {

/// The editor core: the viewport engine plus the should-quit flag.  The
/// host's event loop decodes input into `EditorCommand`s, hands each to
/// `execute_command`, and renders after every handled command until
/// `should_quit` is set.
pub struct Editor {
    pub should_quit: bool,
    pub view: ViewportEngine,
}

impl Editor {
    /// Builds the editor over `initial_state`: the text split into lines,
    /// or the single placeholder line when no content is supplied.
    pub fn new(initial_state: String) -> (e: Editor)
        ensures
            e.should_quit == false,
            e.view.wf(),
            e.view.scroll_offset == (Vec2 { x: 0, y: 0 }),
            e.view.cursor_position == (Vec2 { x: crate::vectors::GUTTER_WIDTH, y: 0 }),
            e.view.needs_redraw == true,
            initial_state@.len() > 0 ==> e.view.buffer.lines.deep_view() == split_lines(
                initial_state@,
            ),
            initial_state@.len() == 0 ==> e.view.buffer.lines@.len() == 1
                && e.view.buffer.spec_line(0) == "Hello world"@,
    {
        let initial_buffer = if initial_state.as_str().is_empty() {
            Buffer::default()
        } else {
            proof {
                lemma_split_lines_nonempty(initial_state@);
            }
            Buffer::from_string(initial_state)
        };
        Editor { should_quit: false, view: ViewportEngine::new(initial_buffer) }
    }

    /// Executes one command against the core state: a move intent drives
    /// the viewport engine, a resize re-fits the viewport, and quit raises
    /// the flag for the host loop.
    pub fn execute_command(&mut self, command: EditorCommand, bounds: Vec2)
        requires
            old(self).view.wf(),
        ensures
            final(self).view.wf(),
            match command {
                EditorCommand::Move(direction) => final(self).should_quit == old(self).should_quit
                    && final(self).view == spec_move_cursor(old(self).view, direction, bounds),
                EditorCommand::Quit => final(self).should_quit == true && final(self).view == old(
                    self,
                ).view,
                EditorCommand::Resize(new_dimensions) => final(self).should_quit == old(
                    self,
                ).should_quit && final(self).view == spec_resize(old(self).view, new_dimensions),
            },
    {
        match command {
            EditorCommand::Move(direction) => {
                let _ = self.view.move_cursor(direction, bounds);
            },
            EditorCommand::Quit => {
                self.should_quit = true;
            },
            EditorCommand::Resize(new_dimensions) => {
                self.view.resize(new_dimensions);
            },
        }
    }
}

} // verus!
