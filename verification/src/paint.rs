//! Terminal colours: the palette of the diagnostics and the escape sequences
//! that wrap a piece of text in a colour.

use vstd::prelude::*;
use crate::text::decimal;

verus! {

/// Palette entry of error headers.
pub const RED: u8 = 197;

/// Palette entry of the marked part of a source line.
pub const LIGHT_RED: u8 = 198;

/// Palette entry of the frame around a diagnostic.
pub const GREY: u8 = 245;

/// Palette entry of type names inside a message.
pub const CYAN: u8 = 69;

/// The escape sequence that switches every style off.
pub open spec fn reset_code() -> Seq<char> {
    seq!['\u{1b}', '[', '0', 'm']
}

/// The escape sequence that selects entry `color` of the 256-colour palette
/// as foreground.
pub open spec fn color_code(color: u8) -> Seq<char> {
    seq!['\u{1b}', '[', '3', '8', ';', '5', ';'] + decimal(color as int) + seq!['m']
}

/// The escape sequence that selects bold text in palette entry `color`.
pub open spec fn bold_color_code(color: u8) -> Seq<char> {
    seq!['\u{1b}', '[', '1', ';', '3', '8', ';', '5', ';'] + decimal(color as int) + seq!['m']
}

/// `text` in palette entry `color`.
pub open spec fn painted(color: u8, text: Seq<char>) -> Seq<char> {
    color_code(color) + text + reset_code()
}

/// `text` in bold and in palette entry `color`.
pub open spec fn painted_bold(color: u8, text: Seq<char>) -> Seq<char> {
    bold_color_code(color) + text + reset_code()
}

/// Calls `ansi_term::Colour::paint` on `Colour::Fixed(color)` and renders the
/// result. Trusted: the rendered string is the foreground escape sequence of
/// the palette entry, the text unchanged, and the reset sequence.
#[verifier::external_body]
pub(crate) fn paint(color: u8, text: &str) -> (s: String)
    ensures
        s@ == painted(color, text@),
{
    ansi_term::Colour::Fixed(color).paint(text).to_string()
}

/// Calls `ansi_term::Style::paint` on the bold style of `Colour::Fixed(color)`
/// and renders the result. Trusted: the rendered string is the escape
/// sequence for bold text in that palette entry, the text unchanged, and the
/// reset sequence.
#[verifier::external_body]
pub(crate) fn paint_bold(color: u8, text: &str) -> (s: String)
    ensures
        s@ == painted_bold(color, text@),
{
    ansi_term::Colour::Fixed(color).bold().paint(text).to_string()
}


/// The escape sequence that selects white as foreground.
pub open spec fn white_code() -> Seq<char> {
    seq!['\u{1b}', '[', '3', '7', 'm']
}

/// The escape sequence that adds bold to the style in force.
pub open spec fn bold_code() -> Seq<char> {
    seq!['\u{1b}', '[', '1', 'm']
}

/// A white label between two pieces in palette entry `frame`, written with
/// as few escape sequences as possible: each change of colour is one
/// sequence, and one reset stands at the end.
pub open spec fn framed(frame: u8, open: Seq<char>, label: Seq<char>, close: Seq<char>) -> Seq<
    char,
> {
    color_code(frame) + open + white_code() + label + color_code(frame) + close + reset_code()
}

/// A piece in bold and in palette entry `mark` between two pieces in
/// palette entry `plain`, written with as few escape sequences as possible:
/// going to bold adds to the style in force (the colour is named only where
/// it changes), leaving bold takes a reset and the plain colour anew.
pub open spec fn marked(
    plain: u8,
    before: Seq<char>,
    mark: u8,
    piece: Seq<char>,
    after: Seq<char>,
) -> Seq<char> {
    color_code(plain) + before + (if plain == mark {
        bold_code()
    } else {
        bold_color_code(mark)
    }) + piece + reset_code() + color_code(plain) + after + reset_code()
}

/// Renders `ansi_term::ANSIStrings` of three pieces: `open` and `close`
/// painted by `Colour::Fixed(frame)`, `label` painted by `Colour::White`.
/// Trusted: the result is [`framed`], as `Difference::between` gives an
/// extra foreground code for each of the two changes of colour.
#[verifier::external_body]
pub(crate) fn paint_framed(frame: u8, open: &str, label: &str, close: &str) -> (s: String)
    ensures
        s@ == framed(frame, open@, label@, close@),
{
    let pieces = [
        ansi_term::Colour::Fixed(frame).paint(open),
        ansi_term::Colour::White.paint(label),
        ansi_term::Colour::Fixed(frame).paint(close),
    ];
    ansi_term::ANSIStrings(&pieces).to_string()
}

/// Renders `ansi_term::ANSIStrings` of three pieces: `before` and `after`
/// painted by `Colour::Fixed(plain)`, `piece` painted by the bold style of
/// `Colour::Fixed(mark)`. Trusted: the result is [`marked`], as
/// `Difference::between` gives extra styles on the way into bold and a
/// reset on the way out of it.
#[verifier::external_body]
pub(crate) fn paint_marked(plain: u8, before: &str, mark: u8, piece: &str, after: &str) -> (s:
    String)
    ensures
        s@ == marked(plain, before@, mark, piece@, after@),
{
    let pieces = [
        ansi_term::Colour::Fixed(plain).paint(before),
        ansi_term::Colour::Fixed(mark).bold().paint(piece),
        ansi_term::Colour::Fixed(plain).paint(after),
    ];
    ansi_term::ANSIStrings(&pieces).to_string()
}

} // verus!
