use crate::common::Direction;
use vstd::prelude::*;

verus! {

/// Width in columns of the gutter reserved at the start of each drawn line.
pub const GUTTER_WIDTH: u16 = 0;

/// A two-dimensional unsigned coordinate.
///
/// The same type serves for buffer-absolute positions (column within line,
/// line index) and for screen-relative positions (terminal column and row);
/// `projected_by` and `unprojected_from` are the only conversions between the
/// two spaces.  All arithmetic on coordinates saturates, so every operation
/// is total.
#[derive(Clone, Copy, Debug, PartialEq, Eq, Structural)]
pub struct Vec2 {
    pub x: u16,
    pub y: u16,
}

/// `a + b`, saturating at `u16::MAX`.
pub open spec fn sat_add(a: u16, b: u16) -> u16 {
    if a + b > u16::MAX {
        u16::MAX
    } else {
        (a + b) as u16
    }
}

/// `a - b`, saturating at zero.
pub open spec fn sat_sub(a: u16, b: u16) -> u16 {
    if a >= b {
        (a - b) as u16
    } else {
        0u16
    }
}

/// Component-wise saturating addition of two coordinates.
pub open spec fn spec_projected(a: Vec2, b: Vec2) -> Vec2 {
    Vec2 { x: sat_add(a.x, b.x), y: sat_add(a.y, b.y) }
}

/// Component-wise saturating subtraction of two coordinates.
pub open spec fn spec_unprojected(a: Vec2, b: Vec2) -> Vec2 {
    Vec2 { x: sat_sub(a.x, b.x), y: sat_sub(a.y, b.y) }
}

/// Inclusive bounding-box containment on both axes.
pub open spec fn spec_between(p: Vec2, start: Vec2, end: Vec2) -> bool {
    start.x <= p.x <= end.x && start.y <= p.y <= end.y
}

/// One unit step in a compass direction, saturating at the edges of the
/// coordinate space.
pub open spec fn spec_shifted(p: Vec2, direction: Direction) -> Vec2 {
    match direction {
        Direction::Up => Vec2 { x: p.x, y: sat_sub(p.y, 1) },
        Direction::Down => Vec2 { x: p.x, y: sat_add(p.y, 1) },
        Direction::Left => Vec2 { x: sat_sub(p.x, 1), y: p.y },
        Direction::Right => Vec2 { x: sat_add(p.x, 1), y: p.y },
    }
}

impl Vec2 {
    pub fn from_u16_tuple(position: (u16, u16)) -> (r: Self)
        ensures
            r.x == position.0,
            r.y == position.1,
    {
        Vec2 { x: position.0, y: position.1 }
    }

    /// The screen position of the first text column of a line: the gutter
    /// width, paired with the line's row.
    pub fn line_start_with_gutter(line: u16) -> (r: Self)
        ensures
            r.x == GUTTER_WIDTH,
            r.y == line,
    {
        Vec2 { x: GUTTER_WIDTH, y: line }
    }

    /// Component-wise saturating addition: converts a screen-relative
    /// position into buffer-absolute space.
    pub fn projected_by(&self, other: Vec2) -> (r: Self)
        ensures
            r == spec_projected(*self, other),
    {
        Vec2 { x: self.x.saturating_add(other.x), y: self.y.saturating_add(other.y) }
    }

    /// Component-wise saturating subtraction (floors at zero): the inverse
    /// conversion, from buffer-absolute back to screen-relative space.
    pub fn unprojected_from(&self, other: Vec2) -> (r: Self)
        ensures
            r == spec_unprojected(*self, other),
    {
        Vec2 { x: self.x.saturating_sub(other.x), y: self.y.saturating_sub(other.y) }
    }

    /// Whether both coordinates lie in the inclusive box spanned by `start`
    /// and `end`.
    pub fn is_between(&self, start: Vec2, end: Vec2) -> (r: bool)
        ensures
            r == spec_between(*self, start, end),
    {
        let is_after_start = self.x >= start.x && self.y >= start.y;
        let is_before_end = self.x <= end.x && self.y <= end.y;

        is_after_start && is_before_end
    }

    /// One unit step in a compass direction.  Saturates at zero, so stepping
    /// `Up` or `Left` at the origin is a no-op on that axis.
    pub fn shifted(&self, direction: Direction) -> (r: Self)
        ensures
            r == spec_shifted(*self, direction),
            direction == Direction::Left && self.x == 0 ==> r == *self,
            direction == Direction::Up && self.y == 0 ==> r == *self,
    {
        match direction {
            Direction::Up => Vec2 { x: self.x, y: self.y.saturating_sub(1) },
            Direction::Right => Vec2 { x: self.x.saturating_add(1), y: self.y },
            Direction::Down => Vec2 { x: self.x, y: self.y.saturating_add(1) },
            Direction::Left => Vec2 { x: self.x.saturating_sub(1), y: self.y },
        }
    }
}

impl Default for Vec2 {
    /// The origin.
    fn default() -> (r: Self)
        ensures
            r.x == 0,
            r.y == 0,
    {
        Vec2 { x: 0, y: 0 }
    }
}

} // verus!
