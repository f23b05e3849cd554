//! A small palette of terminal colours and the escape sequence of each.

use vstd::prelude::*;

verus! {

/// The colours of the palette; `Reset` switches colouring off.
#[derive(Debug, Clone, Copy, PartialEq, Eq, Structural)]
pub enum Color {
    Reset,
    Red,
    Yellow,
    LightYellow,
    Grey,
    Black,
    Magenta,
    Green,
    Blue,
    LightBlue,
}

impl Color {
    /// The escape sequence that selects the colour.
    pub open spec fn code_text(self) -> Seq<char> {
        match self {
            Color::Reset => "\u{001b}[0m"@,
            Color::Red => "\u{001b}[38;5;197m"@,
            Color::Yellow => "\u{001b}[38;5;220m"@,
            Color::LightYellow => "\u{001b}[38;5;11m"@,
            Color::Grey => "\u{001b}[90m"@,
            Color::Black => "\u{001b}[30m"@,
            Color::Magenta => "\u{001b}[35m"@,
            Color::Green => "\u{001b}[38;5;34m"@,
            Color::Blue => "\u{001b}[38;5;26m"@,
            Color::LightBlue => "\u{001b}[38;5;45m"@,
        }
    }

    /// The escape sequence that switches colouring off.
    pub fn reset() -> (s: &'static str)
        ensures
            s@ == Color::Reset.code_text(),
    {
        "\u{001b}[0m"
    }

    /// The escape sequence for red.
    pub fn red() -> (s: &'static str)
        ensures
            s@ == Color::Red.code_text(),
    {
        "\u{001b}[38;5;197m"
    }

    /// The escape sequence for yellow.
    pub fn yellow() -> (s: &'static str)
        ensures
            s@ == Color::Yellow.code_text(),
    {
        "\u{001b}[38;5;220m"
    }

    /// The escape sequence for light yellow.
    pub fn light_yellow() -> (s: &'static str)
        ensures
            s@ == Color::LightYellow.code_text(),
    {
        "\u{001b}[38;5;11m"
    }

    /// The escape sequence for grey.
    pub fn grey() -> (s: &'static str)
        ensures
            s@ == Color::Grey.code_text(),
    {
        "\u{001b}[90m"
    }

    /// The escape sequence for black.
    pub fn black() -> (s: &'static str)
        ensures
            s@ == Color::Black.code_text(),
    {
        "\u{001b}[30m"
    }

    /// The escape sequence for magenta.
    pub fn magenta() -> (s: &'static str)
        ensures
            s@ == Color::Magenta.code_text(),
    {
        "\u{001b}[35m"
    }

    /// The escape sequence for green.
    pub fn green() -> (s: &'static str)
        ensures
            s@ == Color::Green.code_text(),
    {
        "\u{001b}[38;5;34m"
    }

    /// The escape sequence for blue.
    pub fn blue() -> (s: &'static str)
        ensures
            s@ == Color::Blue.code_text(),
    {
        "\u{001b}[38;5;26m"
    }

    /// The escape sequence for light blue.
    pub fn light_blue() -> (s: &'static str)
        ensures
            s@ == Color::LightBlue.code_text(),
    {
        "\u{001b}[38;5;45m"
    }

    /// The escape sequence that selects this colour.
    pub fn code(&self) -> (s: &'static str)
        ensures
            s@ == self.code_text(),
    {
        match self {
            Color::Reset => Color::reset(),
            Color::Red => Color::red(),
            Color::Yellow => Color::yellow(),
            Color::LightYellow => Color::light_yellow(),
            Color::Grey => Color::grey(),
            Color::Black => Color::black(),
            Color::Magenta => Color::magenta(),
            Color::Green => Color::green(),
            Color::Blue => Color::blue(),
            Color::LightBlue => Color::light_blue(),
        }
    }

    /// The escape sequence that selects this colour, as an owned string.
    pub fn to_string(&self) -> (s: String)
        ensures
            s@ == self.code_text(),
    {
        self.code().to_owned()
    }
}

/// `text` in the given colour: the colour's escape sequence, the text, and
/// the sequence that switches colouring off.
pub open spec fn colored_text(color: Color, text: Seq<char>) -> Seq<char> {
    color.code_text() + text + Color::Reset.code_text()
}

/// Wraps `text` in the given colour.
pub fn colored(color: Color, text: &str) -> (s: String)
    ensures
        s@ == colored_text(color, text@),
{
    let mut s = color.to_string();
    s.append(text);
    s.append(Color::reset());
    s
}

} // verus!
