use vstd::prelude::*;

verus! {

/// An ordered sequence of text lines, immutable to the viewport core.
pub struct Buffer {
    pub lines: Vec<String>,
}

/// Index of the first `'\n'` at or after `pos`, or `s.len()` if there is
/// none.
pub open spec fn first_line_break(s: Seq<char>, pos: int) -> int
    decreases s.len() - pos,
{
    if pos < 0 || pos >= s.len() {
        s.len() as int
    } else if s[pos] == '\n' {
        pos
    } else {
        first_line_break(s, pos + 1)
    }
}

pub proof fn lemma_first_line_break_bounds(s: Seq<char>, pos: int)
    requires
        0 <= pos <= s.len(),
    ensures
        pos <= first_line_break(s, pos) <= s.len(),
        first_line_break(s, pos) < s.len() ==> s[first_line_break(s, pos)] == '\n',
        forall|k: int| pos <= k < first_line_break(s, pos) ==> s[k] != '\n',
    decreases s.len() - pos,
{
    if pos < s.len() && s[pos] != '\n' {
        lemma_first_line_break_bounds(s, pos + 1);
    }
}

/// A line as it is stored: the text up to a line break, with a carriage
/// return immediately before the break removed.
pub open spec fn strip_carriage_return(line: Seq<char>) -> Seq<char> {
    if line.len() > 0 && line.last() == '\r' {
        line.drop_last()
    } else {
        line
    }
}

/// The lines of `s` starting at `pos`: text is split at `'\n'` or `"\r\n"`
/// boundaries, and a trailing terminator does not produce an extra empty
/// line.
pub open spec fn split_lines_from(s: Seq<char>, pos: int) -> Seq<Seq<char>>
    decreases s.len() - pos,
{
    if pos < 0 || pos >= s.len() {
        Seq::empty()
    } else {
        let j = first_line_break(s, pos);
        if j >= s.len() {
            seq![s.subrange(pos, s.len() as int)]
        } else {
            proof {
                lemma_first_line_break_bounds(s, pos);
            }
            seq![strip_carriage_return(s.subrange(pos, j))] + split_lines_from(s, j + 1)
        }
    }
}

/// The lines of `s`, as `Buffer::from_string` stores them.
pub open spec fn split_lines(s: Seq<char>) -> Seq<Seq<char>> {
    split_lines_from(s, 0)
}

/// Non-empty text always yields at least one line.
pub proof fn lemma_split_lines_nonempty(s: Seq<char>)
    requires
        s.len() > 0,
    ensures
        split_lines(s).len() >= 1,
{
}

impl Buffer {
    pub open spec fn spec_line_count(&self) -> int {
        self.lines@.len() as int
    }

    /// The characters of line `y`; meaningful only for `y` within range.
    pub open spec fn spec_line(&self, y: int) -> Seq<char> {
        self.lines@[y]@
    }

    /// The length of line `y` in characters, or zero for an absent line.
    pub open spec fn spec_line_len(&self, y: int) -> int {
        if 0 <= y < self.spec_line_count() {
            self.spec_line(y).len() as int
        } else {
            0
        }
    }

    /// Whether a character exists at column `x` of line `y`.
    pub open spec fn spec_char_exists(&self, x: int, y: int) -> bool {
        0 <= y < self.spec_line_count() && 0 <= x < self.spec_line_len(y)
    }

    /// The last valid column of line `y`: zero for an empty or absent line,
    /// otherwise the line length minus one, capped at the top of the
    /// coordinate space.
    pub open spec fn spec_end_col(&self, y: int) -> u16 {
        let len = self.spec_line_len(y);
        if len == 0 {
            0u16
        } else if len - 1 >= u16::MAX {
            u16::MAX
        } else {
            (len - 1) as u16
        }
    }

    /// Builds a buffer from raw text by splitting on line boundaries
    /// (`'\n'`, with `"\r\n"` treated as a single boundary).  A trailing
    /// terminator does not synthesize an extra empty line; empty input
    /// yields an empty buffer.
    pub fn from_string(content: String) -> (b: Buffer)
        ensures
            b.lines.deep_view() == split_lines(content@),
    {
        let s: &str = content.as_str();
        let n: usize = s.unicode_len();
        let mut lines: Vec<String> = Vec::new();
        let mut pos: usize = 0;

        while pos < n
            invariant
                s@ == content@,
                n == content@.len(),
                pos <= n,
                split_lines(content@) == lines.deep_view() + split_lines_from(content@, pos as int),
            decreases n - pos,
        {
            let ghost prev_lines = lines.deep_view();

            // Find the first line break at or after `pos`.
            let mut j: usize = pos;
            while j < n && s.get_char(j) != '\n'
                invariant
                    s@ == content@,
                    n == content@.len(),
                    pos <= j <= n,
                    first_line_break(s@, pos as int) == first_line_break(s@, j as int),
                decreases n - j,
            {
                j += 1;
            }
            proof {
                lemma_first_line_break_bounds(s@, j as int);
                assert(first_line_break(s@, pos as int) == j);
            }

            // Strip a carriage return standing immediately before the break.
            let mut line_end: usize = j;
            if j < n && j > pos {
                if s.get_char(j - 1) == '\r' {
                    line_end = j - 1;
                }
            }
            let piece: &str = s.substring_char(pos, line_end);
            lines.push(piece.to_owned());

            proof {
                let whole = s@.subrange(pos as int, j as int);
                if j < n {
                    if j > pos && s@[j as int - 1] == '\r' {
                        assert(whole.last() == s@[j as int - 1]);
                        assert(strip_carriage_return(whole) =~= s@.subrange(
                            pos as int,
                            line_end as int,
                        ));
                    } else {
                        assert(strip_carriage_return(whole) =~= whole);
                    }
                    assert(lines.deep_view() =~= prev_lines + seq![
                        strip_carriage_return(whole),
                    ]);
                    assert(split_lines_from(content@, pos as int) == seq![
                        strip_carriage_return(whole),
                    ] + split_lines_from(content@, j as int + 1));
                    assert(split_lines(content@) =~= lines.deep_view() + split_lines_from(
                        content@,
                        j as int + 1,
                    ));
                } else {
                    assert(lines.deep_view() =~= prev_lines + seq![whole]);
                    assert(split_lines_from(content@, pos as int) == seq![whole]);
                    assert(split_lines(content@) =~= lines.deep_view() + split_lines_from(
                        content@,
                        n as int,
                    ));
                }
            }

            if j < n {
                pos = j + 1;
            } else {
                pos = n;
            }
        }

        proof {
            assert(split_lines_from(content@, pos as int) =~= Seq::empty());
            assert(split_lines(content@) =~= lines.deep_view());
        }
        Buffer { lines }
    }

    /// The number of lines held.
    pub fn line_count(&self) -> (r: usize)
        ensures
            r == self.spec_line_count(),
    {
        self.lines.len()
    }

    /// The text of line `index`, or `None` past the end of the buffer.
    pub fn line_text(&self, index: usize) -> (r: Option<&String>)
        ensures
            match r {
                Some(line) => index < self.spec_line_count() && line@ == self.spec_line(
                    index as int,
                ),
                None => index >= self.spec_line_count(),
            },
    {
        if index < self.lines.len() {
            Some(&self.lines[index])
        } else {
            None
        }
    }
}

impl Default for Buffer {
    /// A buffer holding the single placeholder line used when no content is
    /// supplied.
    fn default() -> (b: Self)
        ensures
            b.lines@.len() == 1,
            b.spec_line(0) == "Hello world"@,
    {
        let mut lines: Vec<String> = Vec::new();
        lines.push("Hello world".to_owned());
        Buffer { lines }
    }
}

} // verus!
