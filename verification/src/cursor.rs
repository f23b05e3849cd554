//! Source positions and spans, used to point diagnostics at the text.

use vstd::prelude::*;

verus! {

/// Which end of a span a position marks. The two ends count columns
/// differently: a start is the column of its own character, an end is the
/// column just behind the last character.
#[derive(Debug, Clone, Copy, PartialEq, Eq)]
pub enum PositionRole {
    Start,
    End,
}

/// A place in the source text: character offset, column and line number, all
/// counted from zero.
#[derive(Debug, Clone, Copy)]
pub struct Position {
    pub index: usize,
    pub col: usize,
    pub line_num: usize,
    pub role: PositionRole,
}

/// The number of line feeds in `s`.
pub open spec fn newline_count(s: Seq<char>) -> nat
    decreases s.len(),
{
    if s.len() == 0 {
        0
    } else if s.last() == '\n' {
        newline_count(s.drop_last()) + 1
    } else {
        newline_count(s.drop_last())
    }
}

/// The number of characters of `s` behind its last line feed.
pub open spec fn tail_length(s: Seq<char>) -> nat
    decreases s.len(),
{
    if s.len() == 0 {
        0
    } else if s.last() == '\n' {
        0
    } else {
        tail_length(s.drop_last()) + 1
    }
}

/// How many characters of the text a position at `index` looks at: a start
/// includes its own character, an end stops before it.
pub open spec fn scanned_length(role: PositionRole, index: nat, text: Seq<char>) -> nat {
    let wanted = match role {
        PositionRole::Start => index + 1,
        PositionRole::End => index,
    };
    if wanted <= text.len() {
        wanted
    } else {
        text.len()
    }
}

/// How far `index` reaches past the last character of the text, plus one;
/// zero while it lies inside the text.
pub open spec fn overshoot(index: nat, text: Seq<char>) -> nat {
    if index + 1 > text.len() {
        (index + 1 - text.len()) as nat
    } else {
        0
    }
}

/// The column of a position at `index`.
pub open spec fn column_of(role: PositionRole, index: nat, text: Seq<char>) -> nat {
    let tail = tail_length(text.subrange(0, scanned_length(role, index, text) as int));
    match role {
        PositionRole::Start => (if tail >= 1 {
            (tail - 1) as nat
        } else {
            0
        }) + overshoot(index, text),
        PositionRole::End => tail + overshoot(index, text),
    }
}

/// The line of a position at `index`.
pub open spec fn line_of(role: PositionRole, index: nat, text: Seq<char>) -> nat {
    newline_count(text.subrange(0, scanned_length(role, index, text) as int))
}

/// The position with the given role at character offset `index` of `text`.
pub open spec fn locate(role: PositionRole, index: nat, text: Seq<char>) -> Position {
    Position {
        index: index as usize,
        col: column_of(role, index, text) as usize,
        line_num: line_of(role, index, text) as usize,
        role,
    }
}

/// The column never exceeds `index + 1`, and the line never exceeds the
/// number of characters looked at.
pub proof fn lemma_locate_bounds(role: PositionRole, index: nat, text: Seq<char>)
    ensures
        column_of(role, index, text) <= index + 1,
        line_of(role, index, text) <= text.len(),
{
    let k = scanned_length(role, index, text);
    lemma_scan_bounds(text.subrange(0, k as int));
}

/// Neither count exceeds the length of the text it is taken of.
pub proof fn lemma_scan_bounds(s: Seq<char>)
    ensures
        newline_count(s) <= s.len(),
        tail_length(s) <= s.len(),
    decreases s.len(),
{
    if s.len() > 0 {
        lemma_scan_bounds(s.drop_last());
    }
}

impl Position {
    /// A position at the very beginning of a text.
    pub fn new(role: PositionRole) -> (p: Position)
        ensures
            p == (Position { index: 0, col: 0, line_num: 0, role }),
    {
        Position { index: 0, col: 0, line_num: 0, role }
    }

    /// Moves the position to character offset `index` of `text`, recomputing
    /// line and column from the text itself.
    pub fn update(&mut self, index: usize, text: &str)
        requires
            index < usize::MAX,
        ensures
            *final(self) == locate(old(self).role, index as nat, text@),
    {
        let total = text.unicode_len();
        let wanted: usize = match self.role {
            PositionRole::Start => index + 1,
            PositionRole::End => index,
        };
        let limit: usize = if wanted <= total {
            wanted
        } else {
            total
        };
        let mut seen: usize = 0;
        let mut lines: usize = 0;
        let mut tail: usize = 0;
        assert(text@.subrange(0, 0) =~= Seq::<char>::empty());
        for c in it: text.chars()
            invariant
                it.seq() == text@,
                total == text@.len(),
                limit <= total,
                seen == it.index(),
                seen <= total,
                lines <= seen,
                tail <= seen,
                lines == newline_count(
                    text@.subrange(0, if seen <= limit { seen as int } else { limit as int }),
                ),
                tail == tail_length(
                    text@.subrange(0, if seen <= limit { seen as int } else { limit as int }),
                ),
        {
            if seen < limit {
                proof {
                    let longer = text@.subrange(0, seen + 1);
                    assert(longer.drop_last() =~= text@.subrange(0, seen as int));
                    assert(longer.last() == c);
                }
                if c == '\n' {
                    lines += 1;
                    tail = 0;
                } else {
                    tail += 1;
                }
            }
            seen += 1;
        }
        let over: usize = if index >= total {
            index - total + 1
        } else {
            0
        };
        proof {
            lemma_locate_bounds(self.role, index as nat, text@);
        }
        self.index = index;
        self.line_num = lines;
        self.col = match self.role {
            PositionRole::Start => (if tail >= 1 {
                tail - 1
            } else {
                0
            }) + over,
            PositionRole::End => tail + over,
        };
    }
}

/// The view of a [`Cursor`]: its two ends and the texts as character
/// sequences.
pub struct CursorView {
    pub start: Position,
    pub end: Position,
    pub file_name: Seq<char>,
    pub text: Seq<char>,
}

/// A span of the source text, together with the file it belongs to and the
/// whole text, so that a diagnostic can show the line it points at.
#[derive(Debug)]
pub struct Cursor {
    pub start: Position,
    pub end: Position,
    pub file_name: String,
    pub text: String,
}

impl View for Cursor {
    type V = CursorView;

    open spec fn view(&self) -> CursorView {
        CursorView {
            start: self.start,
            end: self.end,
            file_name: self.file_name@,
            text: self.text@,
        }
    }
}

/// The span of `text` from character offset `start` to character offset
/// `end`.
pub open spec fn span_of(file_name: Seq<char>, text: Seq<char>, start: nat, end: nat) -> CursorView {
    CursorView {
        start: locate(PositionRole::Start, start, text),
        end: locate(PositionRole::End, end, text),
        file_name,
        text,
    }
}

impl Clone for Cursor {
    fn clone(&self) -> (c: Cursor)
        ensures
            c@ == self@,
    {
        Cursor {
            start: self.start,
            end: self.end,
            file_name: self.file_name.clone(),
            text: self.text.clone(),
        }
    }
}

impl Cursor {
    /// An empty span at the beginning of `text`.
    pub fn new(file_name: &str, text: &str) -> (c: Cursor)
        ensures
            c@ == (CursorView {
                start: Position { index: 0, col: 0, line_num: 0, role: PositionRole::Start },
                end: Position { index: 0, col: 0, line_num: 0, role: PositionRole::End },
                file_name: file_name@,
                text: text@,
            }),
    {
        Cursor {
            start: Position::new(PositionRole::Start),
            end: Position::new(PositionRole::End),
            file_name: file_name.to_owned(),
            text: text.to_owned(),
        }
    }

    /// Moves the span to the given range of character offsets.
    pub fn update(&mut self, span: core::ops::Range<usize>)
        requires
            span.start < usize::MAX,
            span.end < usize::MAX,
        ensures
            final(self)@ == (CursorView {
                start: locate(old(self).start.role, span.start as nat, old(self).text@),
                end: locate(old(self).end.role, span.end as nat, old(self).text@),
                file_name: old(self).file_name@,
                text: old(self).text@,
            }),
    {
        self.start.update(span.start, self.text.as_str());
        self.end.update(span.end, self.text.as_str());
    }

    /// The same span with another start.
    pub fn clone_with_start(&self, start: &Position) -> (c: Cursor)
        ensures
            c@ == (CursorView { start: *start, ..self@ }),
    {
        Cursor {
            start: *start,
            end: self.end,
            file_name: self.file_name.clone(),
            text: self.text.clone(),
        }
    }

    /// The span of `text` between two character offsets.
    pub fn spanning(file_name: &str, text: &str, start: usize, end: usize) -> (c: Cursor)
        requires
            start < usize::MAX,
            end < usize::MAX,
        ensures
            c@ == span_of(file_name@, text@, start as nat, end as nat),
    {
        let mut c = Cursor::new(file_name, text);
        c.update(start..end);
        c
    }
}

} // verus!
