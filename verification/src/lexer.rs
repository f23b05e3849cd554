//! Scanning a text character by character: the words that are reserved, the
//! errors of a scan, and the steps of a [`Position`] through its text.

use vstd::prelude::*;
use crate::text::{chars_of, spells};
use crate::util::{Position, PositionView};

verus! {

/// The view of an [`Error`] or of a [`Warning`].
pub struct ReportView {
    pub name: Seq<char>,
    pub details: Seq<char>,
    pub start_pos: PositionView,
    pub end_pos: PositionView,
}

/// What ends a scan: the name of the error, its wording, and the positions
/// between which it stands.
#[derive(Debug)]
pub struct Error {
    pub name: String,
    pub details: String,
    pub start_pos: Position,
    pub end_pos: Position,
}

impl View for Error {
    type V = ReportView;

    open spec fn view(&self) -> ReportView {
        ReportView {
            name: self.name@,
            details: self.details@,
            start_pos: self.start_pos@,
            end_pos: self.end_pos@,
        }
    }
}

/// What a scan remarks on without ending.
#[derive(Debug)]
pub struct Warning {
    pub name: String,
    pub details: String,
    pub start_pos: Position,
    pub end_pos: Position,
}

impl View for Warning {
    type V = ReportView;

    open spec fn view(&self) -> ReportView {
        ReportView {
            name: self.name@,
            details: self.details@,
            start_pos: self.start_pos@,
            end_pos: self.end_pos@,
        }
    }
}

/// What a scan yields: its result, or the error that ended it.
#[derive(Debug)]
pub enum Result<T> {
    Success(T),
    Failure(Error),
}

/// The error for a character that starts no token.
#[allow(nonstandard_style)]
pub fn IllegalCharacterError(details: String, start_pos: Position, end_pos: Position) -> (e: Error)
    ensures
        e@ == (ReportView {
            name: "Illegal Character"@,
            details: details@,
            start_pos: start_pos@,
            end_pos: end_pos@,
        }),
{
    Error { name: "Illegal Character".to_owned(), details, start_pos, end_pos }
}

/// The error for a character that has to follow and does not.
#[allow(nonstandard_style)]
pub fn ExpectedCharacterError(details: String, start_pos: Position, end_pos: Position) -> (e: Error)
    ensures
        e@ == (ReportView {
            name: "Expected Character"@,
            details: details@,
            start_pos: start_pos@,
            end_pos: end_pos@,
        }),
{
    Error { name: "Expected Character".to_owned(), details, start_pos, end_pos }
}

/// The error for a backslash in a string that starts no escape sequence.
#[allow(nonstandard_style)]
pub fn InvalidEscapeSequenceError(details: String, start_pos: Position, end_pos: Position) -> (e:
    Error)
    ensures
        e@ == (ReportView {
            name: "Invalid Escape Sequence"@,
            details: details@,
            start_pos: start_pos@,
            end_pos: end_pos@,
        }),
{
    Error { name: "Invalid Escape Sequence".to_owned(), details, start_pos, end_pos }
}

/// The reserved words.
#[derive(Debug, Clone, Copy, PartialEq, Eq, Structural)]
pub enum Keyword {
    And,
    Or,
    Not,
    If,
    Else,
    While,
    Function,
}

/// The reserved word that `word` spells, if it spells one.
pub open spec fn keyword_of(word: Seq<char>) -> Option<Keyword> {
    if word == "and"@ {
        Some(Keyword::And)
    } else if word == "or"@ {
        Some(Keyword::Or)
    } else if word == "not"@ {
        Some(Keyword::Not)
    } else if word == "if"@ {
        Some(Keyword::If)
    } else if word == "else"@ {
        Some(Keyword::Else)
    } else if word == "while"@ {
        Some(Keyword::While)
    } else if word == "function"@ {
        Some(Keyword::Function)
    } else {
        None
    }
}

impl Keyword {
    /// The reserved word that `string` spells, if it spells one.
    pub fn parse(string: &str) -> (k: Option<Keyword>)
        ensures
            k == keyword_of(string@),
    {
        let chars = chars_of(string);
        let len = chars.len();
        assert(chars@.subrange(0, len as int) =~= string@);
        if spells(&chars, 0, len, "and") {
            Some(Keyword::And)
        } else if spells(&chars, 0, len, "or") {
            Some(Keyword::Or)
        } else if spells(&chars, 0, len, "not") {
            Some(Keyword::Not)
        } else if spells(&chars, 0, len, "if") {
            Some(Keyword::If)
        } else if spells(&chars, 0, len, "else") {
            Some(Keyword::Else)
        } else if spells(&chars, 0, len, "while") {
            Some(Keyword::While)
        } else if spells(&chars, 0, len, "function") {
            Some(Keyword::Function)
        } else {
            None
        }
    }
}

/// The character that a position stands on; `None` behind the text.
pub fn get_current_char(pos: &Position) -> (c: Option<char>)
    ensures
        c == pos@.current(),
{
    if pos.index < pos.text.as_str().unicode_len() {
        Some(pos.text.as_str().get_char(pos.index))
    } else {
        None
    }
}

/// The view of what [`advance`] hands back.
pub open spec fn stepped_view(r: Option<&Position>) -> Option<PositionView> {
    match r {
        Some(p) => Some(p@),
        None => None,
    }
}

/// Steps over the character that a position stands on; nothing happens
/// behind the text.
pub fn advance(pos: &mut Position) -> (r: Option<&Position>)
    requires
        old(pos).col < usize::MAX,
        old(pos).ln < usize::MAX,
    ensures
        old(pos)@.current() is Some ==> final(pos)@ == old(pos)@.advance(),
        old(pos)@.current() is Some ==> stepped_view(r) == Some(old(pos)@.advance()),
        old(pos)@.current() is None ==> final(pos)@ == old(pos)@,
        old(pos)@.current() is None ==> r is None,
{
    if pos.index < pos.text.as_str().unicode_len() {
        Some(pos.advance())
    } else {
        None
    }
}

} // verus!
