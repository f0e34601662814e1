use crate::buffer::Buffer;
use crate::common::Direction;
use crate::vectors::{
    sat_add, sat_sub, spec_between, spec_projected, spec_shifted, spec_unprojected, Vec2,
    GUTTER_WIDTH,
};
use vstd::prelude::*;

verus! {

/// The viewport engine: decides what slice of the buffer is visible, where
/// the cursor sits on screen, and repaints lazily.
///
/// `scroll_offset` is the buffer-absolute position of the viewport's
/// top-left corner; `cursor_position` is screen-relative.  The engine never
/// performs terminal I/O itself: the host queries the terminal size, hands
/// it in as `bounds`, and executes the draw commands the engine returns.
pub struct ViewportEngine {
    pub buffer: Buffer,
    pub scroll_offset: Vec2,
    pub cursor_position: Vec2,
    pub needs_redraw: bool,
    pub statusline: String,
}

/// One primitive terminal operation of a render pass.  The engine only
/// plans these; the host executes them, in order, against the real
/// terminal.
#[derive(Debug, PartialEq)]
pub enum DrawCommand {
    /// Move the terminal cursor to a screen position.
    MoveTo(Vec2),
    /// Move the terminal cursor to a screen position, then print the text.
    PrintAt(Vec2, String),
    /// Clear the given screen row.
    ClearLine(u16),
    HideCursor,
    ShowCursor,
    Flush,
}

/// The mathematical model of a `DrawCommand`: the same operation with the
/// text as a sequence of characters.
#[verifier::ext_equal]
pub enum DrawStep {
    MoveTo(Vec2),
    PrintAt(Vec2, Seq<char>),
    ClearLine(u16),
    HideCursor,
    ShowCursor,
    Flush,
}

impl View for DrawCommand {
    type V = DrawStep;

    open spec fn view(&self) -> DrawStep {
        match self {
            DrawCommand::MoveTo(p) => DrawStep::MoveTo(*p),
            DrawCommand::PrintAt(p, s) => DrawStep::PrintAt(*p, s@),
            DrawCommand::ClearLine(r) => DrawStep::ClearLine(*r),
            DrawCommand::HideCursor => DrawStep::HideCursor,
            DrawCommand::ShowCursor => DrawStep::ShowCursor,
            DrawCommand::Flush => DrawStep::Flush,
        }
    }
}

/// A plan of draw commands, as its sequence of models.
pub open spec fn plan_view(plan: Seq<DrawCommand>) -> Seq<DrawStep> {
    plan.map_values(|c: DrawCommand| c@)
}

/// The visible slice of the buffer line at `scroll.y + r`: its characters
/// from column `scroll.x` on (empty when the line ends before the scroll
/// column).
pub open spec fn spec_row_slice(b: Buffer, scroll: Vec2, r: int) -> Seq<char> {
    let line = b.spec_line(scroll.y + r);
    let start = if scroll.x <= line.len() {
        scroll.x as int
    } else {
        line.len() as int
    };
    line.subrange(start, line.len() as int)
}

/// What one visible row gets: a clear, and the line's visible slice at the
/// row's gutter start if the buffer still has a line there.
pub open spec fn spec_row_commands(b: Buffer, scroll: Vec2, r: int) -> Seq<DrawStep> {
    if scroll.y + r < b.spec_line_count() {
        seq![
            DrawStep::ClearLine(r as u16),
            DrawStep::PrintAt(Vec2 { x: GUTTER_WIDTH, y: r as u16 }, spec_row_slice(b, scroll, r)),
        ]
    } else {
        seq![DrawStep::ClearLine(r as u16)]
    }
}

/// The commands for the first `upto` visible rows, in order.
pub open spec fn spec_rows_commands(b: Buffer, scroll: Vec2, upto: int) -> Seq<DrawStep>
    decreases upto,
{
    if upto <= 0 {
        Seq::empty()
    } else {
        spec_rows_commands(b, scroll, upto - 1) + spec_row_commands(b, scroll, upto - 1)
    }
}

/// A full text-area repaint: every row in `[0, rows - 1)` (the last row is
/// reserved for the status line), then the cursor restored.
pub open spec fn spec_draw_rows(b: Buffer, scroll: Vec2, cursor: Vec2, bounds: Vec2)
    -> Seq<DrawStep> {
    spec_rows_commands(b, scroll, sat_sub(bounds.y, 1) as int) + seq![DrawStep::MoveTo(cursor)]
}

/// The status line drawn on the last row, then the cursor restored.
pub open spec fn spec_draw_statusline(statusline: Seq<char>, cursor: Vec2, bounds: Vec2)
    -> Seq<DrawStep> {
    seq![
        DrawStep::PrintAt(Vec2 { x: 0, y: sat_sub(bounds.y, 1) }, statusline),
        DrawStep::MoveTo(cursor),
    ]
}

/// Everything one dirty render pass issues: hide the cursor, repaint the
/// text rows, draw the status line, show the cursor, flush.
pub open spec fn spec_render_plan(v: ViewportEngine, bounds: Vec2) -> Seq<DrawStep> {
    seq![DrawStep::HideCursor] + spec_draw_rows(
        v.buffer,
        v.scroll_offset,
        v.cursor_position,
        bounds,
    ) + spec_draw_statusline(v.statusline@, v.cursor_position, bounds) + seq![
        DrawStep::ShowCursor,
        DrawStep::Flush,
    ]
}

/// The whole effect of one `render` call: the dirty flag is cleared, and
/// the full plan is issued exactly when the engine was dirty.
pub open spec fn spec_render_step(v: ViewportEngine, bounds: Vec2) -> (ViewportEngine, Seq<
    DrawStep,
>) {
    let cleared = ViewportEngine {
        buffer: v.buffer,
        scroll_offset: v.scroll_offset,
        cursor_position: v.cursor_position,
        needs_redraw: false,
        statusline: v.statusline,
    };
    if v.needs_redraw {
        (cleared, spec_render_plan(v, bounds))
    } else {
        (cleared, Seq::empty())
    }
}

/// Idempotence of rendering: a render pass leaves the engine clean, and a
/// render of a clean engine issues no drawing commands — so a second
/// `render` with no intervening state change issues nothing, whatever
/// bounds either pass saw.
pub proof fn lemma_render_idempotent(v: ViewportEngine, bounds1: Vec2, bounds2: Vec2)
    ensures
        spec_render_step(spec_render_step(v, bounds1).0, bounds2).1 == Seq::<DrawStep>::empty(),
{
}

/// The buffer-absolute position of the last cell the viewport shows: the
/// scroll offset plus the terminal bounds, minus a one-column / two-row
/// reservation for the screen edge and the status line.  The reservation is
/// taken out of the bounds before the (saturating) projection, so the
/// viewport never ends before its own start.
pub open spec fn spec_viewport_end(scroll: Vec2, bounds: Vec2) -> Vec2 {
    Vec2 { x: sat_add(scroll.x, sat_sub(bounds.x, 1)), y: sat_add(scroll.y, sat_sub(bounds.y, 2)) }
}

/// Whether a buffer-absolute position lies inside the viewport.
pub open spec fn spec_visible(scroll: Vec2, position: Vec2, bounds: Vec2) -> bool {
    spec_between(position, scroll, spec_viewport_end(scroll, bounds))
}

/// One axis of the incremental scroll-follow: the offset on which the
/// one-step-at-a-time loop comes to rest, for a viewport of usable width `w`
/// (cells beyond the offset itself).  A target before the offset pulls the
/// offset back onto it; a target beyond the far edge pushes the offset just
/// far enough that the target becomes the last visible cell.
pub open spec fn follow_axis(s: u16, c: u16, w: u16) -> u16 {
    if c < s {
        c
    } else if c > s + w {
        (c - w) as u16
    } else {
        s
    }
}

/// The scroll offset on which the scroll-to-visible loop comes to rest.
pub open spec fn spec_follow(scroll: Vec2, target: Vec2, bounds: Vec2) -> Vec2 {
    Vec2 {
        x: follow_axis(scroll.x, target.x, sat_sub(bounds.x, 1)),
        y: follow_axis(scroll.y, target.y, sat_sub(bounds.y, 2)),
    }
}

/// The navigation rule: where a unit step from `position` lands, honoring
/// line-boundary wrap and column-snap.
///
/// - Right, with no character at the naive target: wrap to the start of the
///   next line.
/// - Left at column zero of a line other than the first: wrap to the last
///   valid column of the previous line.
/// - Up or Down into a line shorter than the current column: snap to that
///   line's last valid column.
/// - A candidate that would address a row past the last buffer line is
///   refused: the position stands.
pub open spec fn spec_next_position(b: Buffer, position: Vec2, dir: Direction) -> Vec2 {
    let wish = spec_shifted(position, dir);
    let cand = match dir {
        Direction::Up => if b.spec_end_col(wish.y as int) < wish.x {
            Vec2 { x: b.spec_end_col(wish.y as int), y: wish.y }
        } else {
            wish
        },
        Direction::Down => if b.spec_end_col(wish.y as int) < wish.x {
            Vec2 { x: b.spec_end_col(wish.y as int), y: wish.y }
        } else {
            wish
        },
        Direction::Right => if !b.spec_char_exists(wish.x as int, wish.y as int) {
            Vec2 { x: 0, y: sat_add(wish.y, 1) }
        } else {
            wish
        },
        Direction::Left => if position.x == 0 && wish.y != 0 {
            Vec2 { x: b.spec_end_col(wish.y - 1), y: (wish.y - 1) as u16 }
        } else {
            wish
        },
    };
    if cand.y as int >= b.spec_line_count() {
        position
    } else {
        cand
    }
}

/// The whole effect of one `move_cursor` call: the navigation candidate is
/// computed from the cursor's absolute position, the scroll offset follows
/// it until visible, and the cursor lands on the candidate's screen
/// position.  The redraw flag is raised exactly when the viewport moved.
pub open spec fn spec_move_cursor(v: ViewportEngine, dir: Direction, bounds: Vec2)
    -> ViewportEngine {
    let absolute = spec_projected(v.cursor_position, v.scroll_offset);
    let candidate = spec_next_position(v.buffer, absolute, dir);
    let scrolled = spec_follow(v.scroll_offset, candidate, bounds);
    ViewportEngine {
        buffer: v.buffer,
        scroll_offset: scrolled,
        cursor_position: spec_unprojected(candidate, scrolled),
        needs_redraw: v.needs_redraw || scrolled != v.scroll_offset,
        statusline: v.statusline,
    }
}

/// The whole effect of one `resize` call: the cursor's absolute position is
/// kept, the scroll offset follows it into the new bounds, and a full
/// redraw is pending.
pub open spec fn spec_resize(v: ViewportEngine, new_dimensions: Vec2) -> ViewportEngine {
    let absolute = spec_projected(v.cursor_position, v.scroll_offset);
    let scrolled = spec_follow(v.scroll_offset, absolute, new_dimensions);
    ViewportEngine {
        buffer: v.buffer,
        scroll_offset: scrolled,
        cursor_position: spec_unprojected(absolute, scrolled),
        needs_redraw: true,
        statusline: v.statusline,
    }
}

/// Visibility convergence: from any starting scroll offset, any target and
/// any bounds, the offset the scroll-to-visible loop comes to rest on makes
/// the target visible.  (That the loop terminates at all is checked by its
/// `decreases` measure in `scroll_into_view`.)
pub proof fn lemma_follow_makes_visible(scroll: Vec2, target: Vec2, bounds: Vec2)
    ensures
        spec_visible(spec_follow(scroll, target, bounds), target, bounds),
{
}

/// A step from a valid absolute position lands on a valid absolute
/// position: the row names an existing line and the column is at most that
/// line's last valid column.
pub proof fn lemma_next_position_valid(b: Buffer, position: Vec2, dir: Direction)
    requires
        (position.y as int) < b.spec_line_count(),
        position.x <= b.spec_end_col(position.y as int),
    ensures
        ({
            let r = spec_next_position(b, position, dir);
            (r.y as int) < b.spec_line_count() && r.x <= b.spec_end_col(r.y as int)
        }),
{
}

/// Wrap-right: for a line of length `L` (at most the top of the coordinate
/// space), moving Right from absolute column `L - 1` lands at the start of
/// the next line, whenever that next line exists at a representable row.
pub proof fn lemma_wrap_right(b: Buffer, x: u16, y: u16)
    requires
        x < u16::MAX,
        y < u16::MAX,
        b.spec_line_len(y as int) == x + 1,
        (y as int) + 1 < b.spec_line_count(),
    ensures
        spec_next_position(b, Vec2 { x, y }, Direction::Right) == (Vec2 {
            x: 0,
            y: (y + 1) as u16,
        }),
{
}

/// Wrap-left: moving Left from absolute column `0` of a line `y > 0` lands
/// on the last valid column of the previous line.
pub proof fn lemma_wrap_left(b: Buffer, y: u16)
    requires
        1 <= y,
        (y as int) < b.spec_line_count(),
    ensures
        spec_next_position(b, Vec2 { x: 0, y }, Direction::Left) == (Vec2 {
            x: b.spec_end_col(y as int - 1),
            y: (y - 1) as u16,
        }),
{
}

/// Vertical snap: moving Down from column `c` into a destination line of
/// length `d < c` lands on that line's last valid column — `d - 1`, or `0`
/// for an empty line — and never on `c`.
pub proof fn lemma_vertical_snap(b: Buffer, c: u16, y: u16)
    requires
        y < u16::MAX,
        (y as int) + 1 < b.spec_line_count(),
        b.spec_line_len(y as int + 1) < c,
    ensures
        ({
            let r = spec_next_position(b, Vec2 { x: c, y }, Direction::Down);
            r == (Vec2 { x: b.spec_end_col(y as int + 1), y: (y + 1) as u16 }) && r.x < c
        }),
{
}

impl ViewportEngine {
    /// The buffer-absolute position of the cursor.
    pub open spec fn spec_absolute(&self) -> Vec2 {
        spec_projected(self.cursor_position, self.scroll_offset)
    }

    /// Well-formedness: the buffer is non-empty, the cursor's absolute
    /// position is exact (no component saturates), names an existing line,
    /// and sits at or before that line's last valid column.
    pub open spec fn wf(&self) -> bool {
        &&& self.buffer.spec_line_count() >= 1
        &&& self.cursor_position.x + self.scroll_offset.x <= u16::MAX
        &&& self.cursor_position.y + self.scroll_offset.y <= u16::MAX
        &&& (self.spec_absolute().y as int) < self.buffer.spec_line_count()
        &&& self.spec_absolute().x <= self.buffer.spec_end_col(self.spec_absolute().y as int)
    }

    /// Creates an engine over `buffer` with the viewport at the origin, the
    /// cursor at the first line's start, and a full redraw pending.
    pub fn new(buffer: Buffer) -> (v: ViewportEngine)
        requires
            buffer.spec_line_count() >= 1,
        ensures
            v.wf(),
            v.buffer == buffer,
            v.scroll_offset == (Vec2 { x: 0, y: 0 }),
            v.cursor_position == (Vec2 { x: GUTTER_WIDTH, y: 0 }),
            v.needs_redraw == true,
            v.statusline@ == Seq::<char>::empty(),
    {
        ViewportEngine {
            buffer,
            scroll_offset: Vec2::default(),
            cursor_position: Vec2::line_start_with_gutter(0),
            needs_redraw: true,
            statusline: String::new(),
        }
    }

    /// The last valid cursor column of `line`, paired with the line index:
    /// zero for an empty or absent line, otherwise the line's length minus
    /// one (saturating at the top of the coordinate space).
    pub fn end_of_line(&self, line: u16) -> (r: Vec2)
        ensures
            r.x == self.buffer.spec_end_col(line as int),
            r.y == line,
    {
        if (line as usize) < self.buffer.lines.len() {
            let text: &str = self.buffer.lines[line as usize].as_str();
            let len: usize = text.unicode_len();
            if len == 0 {
                Vec2 { x: 0, y: line }
            } else if len - 1 >= u16::MAX as usize {
                Vec2 { x: u16::MAX, y: line }
            } else {
                Vec2 { x: (len - 1) as u16, y: line }
            }
        } else {
            Vec2 { x: 0, y: line }
        }
    }

    /// The first column of `line`.
    pub fn start_of_line(&self, line: u16) -> (r: Vec2)
        ensures
            r.x == 0,
            r.y == line,
    {
        Vec2 { x: 0, y: line }
    }

    /// The character at a buffer-absolute position, or `None` where the row
    /// or column is past the text.
    pub fn character_at(&self, absolute_position: Vec2) -> (r: Option<char>)
        ensures
            match r {
                Some(c) => self.buffer.spec_char_exists(
                    absolute_position.x as int,
                    absolute_position.y as int,
                ) && c == self.buffer.spec_line(absolute_position.y as int)[
                    absolute_position.x as int
                ],
                None => !self.buffer.spec_char_exists(
                    absolute_position.x as int,
                    absolute_position.y as int,
                ),
            },
    {
        if (absolute_position.y as usize) < self.buffer.lines.len() {
            let text: &str = self.buffer.lines[absolute_position.y as usize].as_str();
            if (absolute_position.x as usize) < text.unicode_len() {
                Some(text.get_char(absolute_position.x as usize))
            } else {
                None
            }
        } else {
            None
        }
    }

    /// Where a unit step from `position` in `wish_direction` lands.
    pub fn next_valid_position_in_direction(&self, position: Vec2, wish_direction: Direction) -> (r:
        Vec2)
        ensures
            r == spec_next_position(self.buffer, position, wish_direction),
    {
        let wish_position = position.shifted(wish_direction);
        let candidate = match wish_direction {
            Direction::Up | Direction::Down => {
                let eol = self.end_of_line(wish_position.y);
                if eol.x < wish_position.x {
                    eol
                } else {
                    wish_position
                }
            },
            Direction::Right => {
                if self.character_at(wish_position).is_none() {
                    self.start_of_line(wish_position.y.saturating_add(1))
                } else {
                    wish_position
                }
            },
            Direction::Left => {
                if position.x == 0 && wish_position.y != 0 {
                    self.end_of_line(wish_position.y - 1)
                } else {
                    wish_position
                }
            },
        };
        if (candidate.y as usize) < self.buffer.lines.len() {
            candidate
        } else {
            position
        }
    }

    /// The buffer-absolute position of the last visible cell.
    pub fn get_viewport(&self, bounds: Vec2) -> (r: Vec2)
        ensures
            r == spec_viewport_end(self.scroll_offset, bounds),
    {
        Vec2 {
            x: self.scroll_offset.x.saturating_add(bounds.x.saturating_sub(1)),
            y: self.scroll_offset.y.saturating_add(bounds.y.saturating_sub(2)),
        }
    }

    /// Whether a buffer-absolute position lies inside the viewport.
    pub fn is_position_visible(&self, absolute_position: Vec2, bounds: Vec2) -> (r: bool)
        ensures
            r == spec_visible(self.scroll_offset, absolute_position, bounds),
    {
        let viewport_end = self.get_viewport(bounds);
        absolute_position.is_between(self.scroll_offset, viewport_end)
    }

    /// Clamps a screen-relative position to the drawable cells: columns
    /// `[0, columns - 1]`, rows `[0, rows - 2]` (the last row is reserved
    /// for the status line).
    pub fn clamp_to_bounds(&self, position: Vec2, bounds: Vec2) -> (r: Vec2)
        ensures
            r.x == if position.x <= sat_sub(bounds.x, 1) {
                position.x
            } else {
                sat_sub(bounds.x, 1)
            },
            r.y == if position.y <= sat_sub(bounds.y, 2) {
                position.y
            } else {
                sat_sub(bounds.y, 2)
            },
    {
        let max_x = bounds.x.saturating_sub(1);
        let max_y = bounds.y.saturating_sub(2);
        Vec2 {
            x: if position.x > max_x {
                max_x
            } else {
                position.x
            },
            y: if position.y > max_y {
                max_y
            } else {
                position.y
            },
        }
    }

    /// Shifts the scroll offset one unit at a time until `target` is
    /// visible, marking a redraw for every shift.  One axis is moved per
    /// step, picked by a fixed priority — beyond-right, before-left,
    /// above-top, below-bottom — so the loop cannot oscillate.
    fn scroll_into_view(&mut self, target: Vec2, bounds: Vec2)
        ensures
            final(self).buffer == old(self).buffer,
            final(self).cursor_position == old(self).cursor_position,
            final(self).statusline == old(self).statusline,
            final(self).scroll_offset == spec_follow(old(self).scroll_offset, target, bounds),
            final(self).needs_redraw == (old(self).needs_redraw || final(self).scroll_offset
                != old(self).scroll_offset),
            spec_visible(final(self).scroll_offset, target, bounds),
    {
        while !self.is_position_visible(target, bounds)
            invariant
                self.buffer == old(self).buffer,
                self.cursor_position == old(self).cursor_position,
                self.statusline == old(self).statusline,
                spec_follow(self.scroll_offset, target, bounds) == spec_follow(
                    old(self).scroll_offset,
                    target,
                    bounds,
                ),
                (self.scroll_offset == old(self).scroll_offset && self.needs_redraw == old(
                    self,
                ).needs_redraw) || (self.needs_redraw && !spec_visible(
                    old(self).scroll_offset,
                    target,
                    bounds,
                )),
            decreases
                    scroll_gap(self.scroll_offset.x, target.x, sat_sub(bounds.x, 1)) + scroll_gap(
                        self.scroll_offset.y,
                        target.y,
                        sat_sub(bounds.y, 2),
                    ),
        {
            let viewport_end = self.get_viewport(bounds);

            let is_after_viewport = target.x > viewport_end.x;
            let is_before_viewport = target.x < self.scroll_offset.x;
            let is_above_viewport = target.y < self.scroll_offset.y;

            let direction = if is_after_viewport {
                Direction::Right
            } else if is_before_viewport {
                Direction::Left
            } else if is_above_viewport {
                Direction::Up
            } else {
                Direction::Down
            };

            self.scroll_offset = self.scroll_offset.shifted(direction);
            self.needs_redraw = true;
        }
    }

    /// Translates a navigation intent into a new cursor position: computes
    /// the candidate absolute position, scrolls the viewport incrementally
    /// until it is visible, clamps to the drawable screen cells, and
    /// returns the screen position for the host to commit.
    pub fn move_cursor(&mut self, direction: Direction, bounds: Vec2) -> (r: Vec2)
        requires
            old(self).wf(),
        ensures
            final(self).wf(),
            *final(self) == spec_move_cursor(*old(self), direction, bounds),
            r == final(self).cursor_position,
            final(self).spec_absolute() == spec_next_position(
                old(self).buffer,
                old(self).spec_absolute(),
                direction,
            ),
    {
        let absolute_pos = self.cursor_position.projected_by(self.scroll_offset);
        let wish_absolute_pos = self.next_valid_position_in_direction(absolute_pos, direction);

        self.scroll_into_view(wish_absolute_pos, bounds);

        let wish_terminal_pos = wish_absolute_pos.unprojected_from(self.scroll_offset);
        let clamped_wish_terminal_pos = self.clamp_to_bounds(wish_terminal_pos, bounds);

        proof {
            lemma_next_position_valid(self.buffer, old(self).spec_absolute(), direction);
            // Visibility makes the clamp a no-op and the projection exact.
            assert(clamped_wish_terminal_pos == wish_terminal_pos);
            assert(spec_projected(wish_terminal_pos, self.scroll_offset) == wish_absolute_pos);
        }

        self.cursor_position = clamped_wish_terminal_pos;
        clamped_wish_terminal_pos
    }

    /// Reacts to new terminal dimensions: keeps the cursor's absolute
    /// position, scrolls it back into the (possibly smaller) viewport, and
    /// marks a full redraw.
    pub fn resize(&mut self, new_dimensions: Vec2)
        requires
            old(self).wf(),
        ensures
            final(self).wf(),
            *final(self) == spec_resize(*old(self), new_dimensions),
            final(self).spec_absolute() == old(self).spec_absolute(),
    {
        let absolute_pos = self.cursor_position.projected_by(self.scroll_offset);
        self.scroll_into_view(absolute_pos, new_dimensions);
        let terminal_pos = absolute_pos.unprojected_from(self.scroll_offset);
        proof {
            assert(spec_projected(terminal_pos, self.scroll_offset) == absolute_pos);
        }
        self.cursor_position = terminal_pos;
        self.needs_redraw = true;
    }

    /// The command that puts the terminal cursor back on the engine's
    /// cursor position.
    pub fn restore_cursor(&self) -> (c: DrawCommand)
        ensures
            c@ == DrawStep::MoveTo(self.cursor_position),
    {
        DrawCommand::MoveTo(self.cursor_position)
    }

    /// Plans a repaint of the text area: for each visible row, clear it and
    /// draw the visible slice of its buffer line, then restore the cursor.
    pub fn draw_rows(&self, bounds: Vec2) -> (plan: Vec<DrawCommand>)
        ensures
            plan_view(plan@) == spec_draw_rows(
                self.buffer,
                self.scroll_offset,
                self.cursor_position,
                bounds,
            ),
    {
        let rows = bounds.y.saturating_sub(1);
        let mut plan: Vec<DrawCommand> = Vec::new();
        let mut line_idx: u16 = 0;

        while line_idx < rows
            invariant
                line_idx <= rows,
                plan_view(plan@) == spec_rows_commands(
                    self.buffer,
                    self.scroll_offset,
                    line_idx as int,
                ),
            decreases rows - line_idx,
        {
            plan.push(DrawCommand::ClearLine(line_idx));

            let vertical_offset: usize = self.scroll_offset.y as usize + line_idx as usize;
            if vertical_offset < self.buffer.lines.len() {
                let text: &str = self.buffer.lines[vertical_offset].as_str();
                let len: usize = text.unicode_len();
                let horizontal_offset: usize = if (self.scroll_offset.x as usize) < len {
                    self.scroll_offset.x as usize
                } else {
                    len
                };
                let line_to_draw: &str = text.substring_char(horizontal_offset, len);
                plan.push(
                    DrawCommand::PrintAt(
                        Vec2::line_start_with_gutter(line_idx),
                        line_to_draw.to_owned(),
                    ),
                );
            }
            proof {
                assert(plan_view(plan@) =~~= spec_rows_commands(
                    self.buffer,
                    self.scroll_offset,
                    line_idx as int + 1,
                ));
            }
            line_idx += 1;
        }

        plan.push(self.restore_cursor());
        proof {
            assert(plan_view(plan@) =~~= spec_draw_rows(
                self.buffer,
                self.scroll_offset,
                self.cursor_position,
                bounds,
            ));
        }
        plan
    }

    /// Plans the status line: its text on the reserved last row, then the
    /// cursor restored.
    pub fn draw_statusline(&self, bounds: Vec2) -> (plan: Vec<DrawCommand>)
        ensures
            plan_view(plan@) == spec_draw_statusline(
                self.statusline@,
                self.cursor_position,
                bounds,
            ),
    {
        let last_line = bounds.y.saturating_sub(1);
        let mut plan: Vec<DrawCommand> = Vec::new();
        plan.push(DrawCommand::PrintAt(Vec2 { x: 0, y: last_line }, self.statusline.clone()));
        plan.push(self.restore_cursor());
        proof {
            assert(plan_view(plan@) =~~= spec_draw_statusline(
                self.statusline@,
                self.cursor_position,
                bounds,
            ));
        }
        plan
    }

    /// Plans a render pass.  A clean engine issues nothing; a dirty one
    /// first clears the dirty flag (so a failure while the host draws
    /// cannot wedge the state), then plans the full repaint.
    pub fn render(&mut self, bounds: Vec2) -> (plan: Vec<DrawCommand>)
        ensures
            *final(self) == spec_render_step(*old(self), bounds).0,
            plan_view(plan@) == spec_render_step(*old(self), bounds).1,
    {
        if !self.needs_redraw {
            let plan: Vec<DrawCommand> = Vec::new();
            proof {
                assert(plan_view(plan@) =~~= Seq::<DrawStep>::empty());
            }
            return plan;
        }

        self.needs_redraw = false;

        let mut plan: Vec<DrawCommand> = Vec::new();
        plan.push(DrawCommand::HideCursor);
        let mut rows_plan = self.draw_rows(bounds);
        plan.append(&mut rows_plan);
        let mut status_plan = self.draw_statusline(bounds);
        plan.append(&mut status_plan);
        plan.push(DrawCommand::ShowCursor);
        plan.push(DrawCommand::Flush);

        proof {
            assert(plan_view(plan@) =~~= spec_render_plan(*old(self), bounds));
        }
        plan
    }
}

/// How far `c` is outside the axis range `[s, s + w]`: the loop's
/// termination measure on one axis.
pub open spec fn scroll_gap(s: u16, c: u16, w: u16) -> int {
    if c < s {
        s - c
    } else if c > s + w {
        c - (s + w)
    } else {
        0
    }
}

} // verus!
