//! A position that walks through a text one character at a time.

use vstd::prelude::*;

verus! {

/// The decimal digits.
pub const DIGITS: &'static str = "0123456789";

/// The characters of which names are made.
pub const VALID_CHARS: &'static str = "abcdefghijklmnopqrstuvwxyzABCDEFGHIJKLMNOPQRSTUVWXYZ_0123456789";

/// The view of a [`Position`].
pub struct PositionView {
    pub index: usize,
    pub ln: usize,
    pub col: usize,
    pub file_name: Seq<char>,
    pub text: Seq<char>,
}

impl PositionView {
    /// The position one character further on, in the same line.
    pub open spec fn forced_advance(self) -> PositionView {
        PositionView { index: (self.index + 1) as usize, col: (self.col + 1) as usize, ..self }
    }

    /// The position behind the character it stands on: at the start of the
    /// next line behind a line feed, else one column further on.
    pub open spec fn advance(self) -> PositionView {
        if self.text[self.index as int] == '\n' {
            PositionView {
                index: (self.index + 1) as usize,
                col: 0,
                ln: (self.ln + 1) as usize,
                ..self
            }
        } else {
            self.forced_advance()
        }
    }

    /// The character that the position stands on, if it stands inside the
    /// text.
    pub open spec fn current(self) -> Option<char> {
        if self.index < self.text.len() {
            Some(self.text[self.index as int])
        } else {
            None
        }
    }
}

/// A place in a text, counted in characters, lines and columns from zero,
/// together with the text and the name of its file.
#[derive(Debug)]
pub struct Position {
    pub index: usize,
    pub ln: usize,
    pub col: usize,
    pub file_name: String,
    pub text: String,
}

impl View for Position {
    type V = PositionView;

    open spec fn view(&self) -> PositionView {
        PositionView {
            index: self.index,
            ln: self.ln,
            col: self.col,
            file_name: self.file_name@,
            text: self.text@,
        }
    }
}

impl Clone for Position {
    fn clone(&self) -> (p: Position)
        ensures
            p@ == self@,
    {
        Position {
            index: self.index,
            ln: self.ln,
            col: self.col,
            file_name: self.file_name.clone(),
            text: self.text.clone(),
        }
    }
}

impl Position {
    /// The position at the beginning of `text`.
    pub fn new(file_name: &str, text: &str) -> (p: Position)
        ensures
            p@ == (PositionView { index: 0, ln: 0, col: 0, file_name: file_name@, text: text@ }),
    {
        Position { index: 0, ln: 0, col: 0, file_name: file_name.to_owned(), text: text.to_owned() }
    }

    /// Steps over the character that the position stands on.
    pub fn advance(&mut self) -> (r: &Self)
        requires
            old(self).index < old(self).text@.len(),
            old(self).col < usize::MAX,
            old(self).ln < usize::MAX,
        ensures
            final(self)@ == old(self)@.advance(),
            r@ == old(self)@.advance(),
    {
        let total = self.text.as_str().unicode_len();
        let current_char = self.text.as_str().get_char(self.index);
        self.index += 1;
        self.col += 1;
        if current_char == '\n' {
            self.col = 0;
            self.ln += 1;
        }
        self
    }

    /// Steps one character further on without looking at the text.
    pub fn forced_advance(&mut self) -> (r: &Self)
        requires
            old(self).index < usize::MAX,
            old(self).col < usize::MAX,
        ensures
            final(self)@ == old(self)@.forced_advance(),
            r@ == old(self)@.forced_advance(),
    {
        self.index += 1;
        self.col += 1;
        self
    }
}

} // verus!
