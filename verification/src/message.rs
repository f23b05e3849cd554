//! Diagnostics: what went wrong, in words, and where.

use vstd::prelude::*;
use crate::cursor::{Cursor, CursorView};
use crate::paint::{
    framed,
    marked,
    paint,
    paint_bold,
    paint_framed,
    paint_marked,
    painted,
    painted_bold,
    GREY,
    LIGHT_RED,
    RED,
};
use crate::text::{chars_of, decimal, digits_text, repeat_text, repeated, slice_text};

verus! {

/// The kinds of diagnostic. The first twelve come from the parser, the last
/// five from the compiler.
#[derive(Debug, Clone, Copy, PartialEq, Eq, Structural)]
pub enum MessageType {
    IllegalCharacter,
    MissingExpression,
    MissingMemberDeclaration,
    MissingMemberName,
    MissingMemberType,
    MissingMemberTypeOrValueAssignment,
    MissingCase,
    MissingCaseClosure,
    MissingCaseSeparatorOrClosure,
    MissingBlock,
    MissingBlockClosure,
    MissingBlockSeparatorOrClosure,
    UnknownType,
    IntegerBoundsExceeded,
    TypeMismatch,
    UnknownMember,
    MemberRedeclaration,
}

impl MessageType {
    /// The stable code of a kind: `ES`, the stage (0 parser, 1 compiler), a
    /// two-digit number and the severity letter.
    pub open spec fn code_text(self) -> Seq<char> {
        match self {
            MessageType::IllegalCharacter => "ES000E"@,
            MessageType::MissingExpression => "ES001E"@,
            MessageType::MissingMemberDeclaration => "ES002E"@,
            MessageType::MissingMemberName => "ES003E"@,
            MessageType::MissingMemberType => "ES004E"@,
            MessageType::MissingMemberTypeOrValueAssignment => "ES005E"@,
            MessageType::MissingCase => "ES006E"@,
            MessageType::MissingCaseClosure => "ES007E"@,
            MessageType::MissingCaseSeparatorOrClosure => "ES008E"@,
            MessageType::MissingBlock => "ES009E"@,
            MessageType::MissingBlockClosure => "ES010E"@,
            MessageType::MissingBlockSeparatorOrClosure => "ES011E"@,
            MessageType::UnknownType => "ES100E"@,
            MessageType::IntegerBoundsExceeded => "ES101E"@,
            MessageType::TypeMismatch => "ES102E"@,
            MessageType::UnknownMember => "ES103E"@,
            MessageType::MemberRedeclaration => "ES104E"@,
        }
    }

    /// The title of a kind.
    pub open spec fn name_text(self) -> Seq<char> {
        match self {
            MessageType::IllegalCharacter => "Illegal character"@,
            MessageType::MissingExpression => "Missing expression"@,
            MessageType::MissingMemberDeclaration => "Missing member declaration"@,
            MessageType::MissingMemberName => "Missing member name"@,
            MessageType::MissingMemberType => "Missing member type"@,
            MessageType::MissingMemberTypeOrValueAssignment =>
                "Missing member type or value assignment"@,
            MessageType::MissingCase => "Missing case"@,
            MessageType::MissingCaseClosure => "Missing case closure"@,
            MessageType::MissingCaseSeparatorOrClosure => "Missing case separator or closure"@,
            MessageType::MissingBlock => "Missing block"@,
            MessageType::MissingBlockClosure => "Missing block closure"@,
            MessageType::MissingBlockSeparatorOrClosure => "Missing block separator or closure"@,
            MessageType::UnknownType => "Unknown type"@,
            MessageType::IntegerBoundsExceeded => "Integer bounds exceeded"@,
            MessageType::TypeMismatch => "Type mismatch"@,
            MessageType::UnknownMember => "Unknown member"@,
            MessageType::MemberRedeclaration => "Member redeclaration"@,
        }
    }

    /// Severity, code and title of a kind. Every kind is an error.
    pub fn parameters(&self) -> (p: (bool, &'static str, &'static str))
        ensures
            p.0,
            p.1@ == self.code_text(),
            p.2@ == self.name_text(),
    {
        match self {
            MessageType::IllegalCharacter => (true, "ES000E", "Illegal character"),
            MessageType::MissingExpression => (true, "ES001E", "Missing expression"),
            MessageType::MissingMemberDeclaration => (
                true,
                "ES002E",
                "Missing member declaration",
            ),
            MessageType::MissingMemberName => (true, "ES003E", "Missing member name"),
            MessageType::MissingMemberType => (true, "ES004E", "Missing member type"),
            MessageType::MissingMemberTypeOrValueAssignment => (
                true,
                "ES005E",
                "Missing member type or value assignment",
            ),
            MessageType::MissingCase => (true, "ES006E", "Missing case"),
            MessageType::MissingCaseClosure => (true, "ES007E", "Missing case closure"),
            MessageType::MissingCaseSeparatorOrClosure => (
                true,
                "ES008E",
                "Missing case separator or closure",
            ),
            MessageType::MissingBlock => (true, "ES009E", "Missing block"),
            MessageType::MissingBlockClosure => (true, "ES010E", "Missing block closure"),
            MessageType::MissingBlockSeparatorOrClosure => (
                true,
                "ES011E",
                "Missing block separator or closure",
            ),
            MessageType::UnknownType => (true, "ES100E", "Unknown type"),
            MessageType::IntegerBoundsExceeded => (true, "ES101E", "Integer bounds exceeded"),
            MessageType::TypeMismatch => (true, "ES102E", "Type mismatch"),
            MessageType::UnknownMember => (true, "ES103E", "Unknown member"),
            MessageType::MemberRedeclaration => (true, "ES104E", "Member redeclaration"),
        }
    }

    /// Whether the kind is an error (as opposed to a warning).
    pub fn is_error(&self) -> (b: bool)
        ensures
            b,
    {
        self.parameters().0
    }

    /// The stable code of the kind.
    pub fn code(&self) -> (s: &'static str)
        ensures
            s@ == self.code_text(),
    {
        self.parameters().1
    }

    /// The title of the kind.
    pub fn name(&self) -> (s: &'static str)
        ensures
            s@ == self.name_text(),
    {
        self.parameters().2
    }
}

/// The view of a [`Message`].
pub struct MessageView {
    pub message_type: MessageType,
    pub details: Seq<char>,
    pub cursor: CursorView,
}

/// One diagnostic: its kind, its wording and the span it points at.
#[derive(Debug)]
pub struct Message {
    pub message_type: MessageType,
    pub details: String,
    pub cursor: Cursor,
}

impl View for Message {
    type V = MessageView;

    open spec fn view(&self) -> MessageView {
        MessageView {
            message_type: self.message_type,
            details: self.details@,
            cursor: self.cursor@,
        }
    }
}

impl Clone for Message {
    fn clone(&self) -> (m: Message)
        ensures
            m@ == self@,
    {
        Message {
            message_type: self.message_type,
            details: self.details.clone(),
            cursor: self.cursor.clone(),
        }
    }
}

impl Message {
    /// A diagnostic of the given kind.
    pub fn error(message_type: MessageType, details: &str, cursor: Cursor) -> (m: Message)
        ensures
            m@ == (MessageView { message_type, details: details@, cursor: cursor@ }),
    {
        Message { details: details.to_owned(), message_type, cursor }
    }
}


/// The offset of the first line feed at or behind `from`; the length of the
/// text where there is none.
pub open spec fn line_end(text: Seq<char>, from: int) -> int
    decreases text.len() - from,
{
    if from < 0 || from >= text.len() {
        text.len() as int
    } else if text[from] == '\n' {
        from
    } else {
        line_end(text, from + 1)
    }
}

/// The offset at which line `n` of the text starts; lines are counted from
/// zero. Behind the last line the offset lies beyond the text.
pub open spec fn line_start(text: Seq<char>, n: nat) -> int
    decreases n,
{
    if n == 0 {
        0
    } else {
        line_end(text, line_start(text, (n - 1) as nat)) + 1
    }
}

/// Line `n` of the text, without its line feed.
pub open spec fn nth_line(text: Seq<char>, n: nat) -> Seq<char> {
    text.subrange(line_start(text, n), line_end(text, line_start(text, n)))
}

/// `col`, but no more than `len`.
pub open spec fn capped(col: int, len: int) -> int {
    if col <= len {
        col
    } else {
        len
    }
}

/// A line ends at or behind the offset it is looked for from, and inside
/// the text.
pub proof fn lemma_line_end(text: Seq<char>, from: int)
    requires
        0 <= from <= text.len(),
    ensures
        from <= line_end(text, from) <= text.len(),
    decreases text.len() - from,
{
    if from < text.len() && text[from] != '\n' {
        lemma_line_end(text, from + 1);
    }
}

impl MessageView {
    /// Whether the diagnostic can be shown: its line exists in the text,
    /// and its end column is not left of its start column.
    pub open spec fn renderable(self) -> bool {
        &&& self.cursor.start.col <= self.cursor.end.col
        &&& line_start(self.cursor.text, self.cursor.start.line_num as nat)
            <= self.cursor.text.len()
    }

    /// The number of columns that the diagnostic marks.
    pub open spec fn width(self) -> nat {
        (self.cursor.end.col - self.cursor.start.col) as nat
    }

    /// The first line: the word `Error` and the code, in bold red.
    pub open spec fn header(self) -> Seq<char> {
        painted_bold(RED, "Error "@ + self.message_type.code_text() + ": "@)
    }

    /// File, line and column of the start, with colons between them.
    pub open spec fn place(self) -> Seq<char> {
        self.cursor.file_name + ":"@ + decimal(self.cursor.start.line_num as int) + ":"@ + decimal(
            self.cursor.start.col as int,
        )
    }

    /// The place in white between grey brackets.
    pub open spec fn file_name(self) -> Seq<char> {
        framed(GREY, "["@, self.place(), "]"@)
    }

    /// The line of the text that the diagnostic starts in: grey, but the
    /// marked columns in bold light red.
    pub open spec fn line(self) -> Seq<char> {
        let line = nth_line(self.cursor.text, self.cursor.start.line_num as nat);
        let from = capped(self.cursor.start.col as int, line.len() as int);
        let to = capped(self.cursor.end.col as int, line.len() as int);
        marked(GREY, line.subrange(0, from), LIGHT_RED, line.subrange(from, to), line.subrange(
            to,
            line.len() as int,
        ))
    }

    /// The rule under the marked columns, with a tee in its middle.
    pub open spec fn underline(self) -> Seq<char> {
        let middle = self.width() / 2;
        repeated(" "@, self.cursor.start.col as nat) + repeated("─"@, middle) + "┬"@ + repeated(
            "─"@,
            if self.width() > middle + 1 {
                (self.width() - middle - 1) as nat
            } else {
                0
            },
        )
    }

    /// The arm that leads from the tee to the wording.
    pub open spec fn arm(self) -> Seq<char> {
        let middle = self.width() / 2;
        repeated(" "@, self.cursor.start.col as nat + middle) + "╰─"@ + repeated(
            "─"@,
            (self.width() - middle) as nat,
        ) + " "@
    }

    /// The two lines under the source line: the rule, and the arm with the
    /// wording behind it.
    pub open spec fn content(self) -> Seq<Seq<char>> {
        seq![painted(LIGHT_RED, self.underline()), painted(LIGHT_RED, self.arm()) + self.details]
    }

    /// The blank margin left of the frame: as wide as the line number and
    /// two more.
    pub open spec fn padding(self) -> Seq<char> {
        repeated(" "@, decimal(self.cursor.start.line_num as int).len()) + "  "@
    }

    /// The closing rule: as wide as the margin, and a corner.
    pub open spec fn footer(self) -> Seq<char> {
        repeated("─"@, decimal(self.cursor.start.line_num as int).len()) + "──"@ + "╯"@
    }

    /// Everything under the header: the place, the source line with its
    /// number, the two lines of [`MessageView::content`], and the closing
    /// rule.
    pub open spec fn body(self) -> Seq<char> {
        painted(GREY, self.padding() + "╭─"@) + self.file_name() + "\n"@ + painted(
            GREY,
            self.padding() + "│\n"@,
        ) + painted(GREY, " "@ + decimal(self.cursor.start.line_num as int) + " │ "@) + self.line()
            + "\n"@ + painted(GREY, self.padding() + "· "@) + self.content()[0] + "\n"@ + painted(
            GREY,
            self.padding() + "· "@,
        ) + self.content()[1] + "\n"@ + painted(GREY, self.footer())
    }

    /// The whole diagnostic as shown on a terminal.
    pub open spec fn rendered(self) -> Seq<char> {
        self.header() + self.message_type.name_text() + "\n"@ + self.body()
    }
}

impl Message {
    /// The colour of the header.
    pub fn color(&self) -> (c: u8)
        ensures
            c == RED,
    {
        RED
    }

    /// The colour of the marks.
    pub fn light_color(&self) -> (c: u8)
        ensures
            c == LIGHT_RED,
    {
        LIGHT_RED
    }

    /// The first line of the diagnostic.
    pub fn header(&self) -> (s: String)
        ensures
            s@ == self@.header(),
    {
        let mut title = "Error ".to_owned();
        title.append(self.message_type.code());
        title.append(": ");
        paint_bold(self.color(), title.as_str())
    }

    /// The place of the diagnostic in brackets.
    pub fn file_name(&self) -> (s: String)
        ensures
            s@ == self@.file_name(),
    {
        let mut place = self.cursor.file_name.clone();
        place.append(":");
        let line = digits_text(self.cursor.start.line_num as u64);
        place.append(line.as_str());
        place.append(":");
        let col = digits_text(self.cursor.start.col as u64);
        place.append(col.as_str());
        paint_framed(GREY, "[", place.as_str(), "]")
    }

    /// The bounds of line `n` of `chars`: the offset of its first character
    /// and the offset behind its last.
    fn line_bounds(chars: &Vec<char>, n: usize) -> (r: (usize, usize))
        requires
            line_start(chars@, n as nat) <= chars@.len(),
        ensures
            r.0 == line_start(chars@, n as nat),
            r.1 == line_end(chars@, r.0 as int),
            r.0 <= r.1 <= chars@.len(),
    {
        let total = chars.len();
        let mut start: usize = 0;
        let mut k: usize = 0;
        while k < n
            invariant
                k <= n,
                total == chars@.len(),
                start == line_start(chars@, k as nat),
                start <= chars@.len(),
                line_start(chars@, n as nat) <= chars@.len(),
            decreases n - k,
        {
            let end = Message::find_line_end(chars, start);
            proof {
                assert(line_start(chars@, (k + 1) as nat) == end + 1);
                lemma_line_starts_grow(chars@, (k + 1) as nat, n as nat);
            }
            start = end + 1;
            k += 1;
        }
        let end = Message::find_line_end(chars, start);
        (start, end)
    }

    /// The offset of the first line feed at or behind `from`.
    fn find_line_end(chars: &Vec<char>, from: usize) -> (end: usize)
        requires
            from <= chars@.len(),
        ensures
            end == line_end(chars@, from as int),
            from <= end <= chars@.len(),
    {
        let mut end = from;
        while end < chars.len() && chars[end] != '\n'
            invariant
                from <= end <= chars@.len(),
                line_end(chars@, end as int) == line_end(chars@, from as int),
            decreases chars@.len() - end,
        {
            end += 1;
        }
        end
    }

    /// The source line of the diagnostic, with the marked columns set off.
    pub fn line(&self) -> (s: String)
        requires
            self@.renderable(),
        ensures
            s@ == self@.line(),
    {
        let chars = chars_of(self.cursor.text.as_str());
        let (start, end) = Message::line_bounds(&chars, self.cursor.start.line_num);
        let len = end - start;
        let from = if self.cursor.start.col <= len {
            self.cursor.start.col
        } else {
            len
        };
        let to = if self.cursor.end.col <= len {
            self.cursor.end.col
        } else {
            len
        };
        let text = self.cursor.text.as_str();
        let first = slice_text(text, start, start + from);
        let err = slice_text(text, start + from, start + to);
        let last = slice_text(text, start + to, end);
        proof {
            let line = nth_line(self@.cursor.text, self.cursor.start.line_num as nat);
            assert(line == text@.subrange(start as int, end as int));
            assert(first@ =~= line.subrange(0, from as int));
            assert(err@ =~= line.subrange(from as int, to as int));
            assert(last@ =~= line.subrange(to as int, line.len() as int));
        }
        paint_marked(GREY, first.as_str(), self.light_color(), err.as_str(), last.as_str())
    }

    /// The two lines under the source line.
    pub fn content(&self) -> (lines: Vec<String>)
        requires
            self.cursor.start.col <= self.cursor.end.col,
        ensures
            lines@.len() == 2,
            lines@[0]@ == self@.content()[0],
            lines@[1]@ == self@.content()[1],
    {
        let mut result: Vec<String> = Vec::new();
        let error_len = self.cursor.end.col - self.cursor.start.col;
        let middle: usize = error_len / 2;
        let mut underline = repeat_text(" ", self.cursor.start.col);
        let rule = repeat_text("─", middle);
        underline.append(rule.as_str());
        underline.append("┬");
        let rest = repeat_text(
            "─",
            if error_len > middle + 1 {
                error_len - middle - 1
            } else {
                0
            },
        );
        underline.append(rest.as_str());
        result.push(paint(self.light_color(), underline.as_str()));
        let mut error_line = repeat_text(" ", self.cursor.start.col + middle);
        error_line.append("╰─");
        let tail = repeat_text("─", error_len - middle);
        error_line.append(tail.as_str());
        error_line.append(" ");
        let mut second = paint(self.light_color(), error_line.as_str());
        second.append(self.details.as_str());
        result.push(second);
        result
    }

    /// Everything under the header.
    pub fn body(&self) -> (s: String)
        requires
            self@.renderable(),
        ensures
            s@ == self@.body(),
    {
        let line_num = digits_text(self.cursor.start.line_num as u64);
        let number_width = line_num.as_str().unicode_len();
        let mut padding = repeat_text(" ", number_width);
        padding.append("  ");

        let mut corner = padding.clone();
        corner.append("╭─");
        let mut output = paint(GREY, corner.as_str());
        let file_name = self.file_name();
        output.append(file_name.as_str());
        output.append("\n");

        let mut bar = padding.clone();
        bar.append("│\n");
        let bar = paint(GREY, bar.as_str());
        output.append(bar.as_str());

        let mut number = " ".to_owned();
        number.append(line_num.as_str());
        number.append(" │ ");
        let number = paint(GREY, number.as_str());
        output.append(number.as_str());
        let line = self.line();
        output.append(line.as_str());
        output.append("\n");

        let content = self.content();
        let mut dot = padding.clone();
        dot.append("· ");
        let dot = paint(GREY, dot.as_str());
        output.append(dot.as_str());
        output.append(content[0].as_str());
        output.append("\n");
        output.append(dot.as_str());
        output.append(content[1].as_str());
        output.append("\n");

        let mut footer = repeat_text("─", number_width);
        footer.append("──");
        footer.append("╯");
        let footer = paint(GREY, footer.as_str());
        output.append(footer.as_str());
        output
    }

    /// The whole diagnostic as shown on a terminal.
    pub fn to_string(&self) -> (s: String)
        requires
            self@.renderable(),
        ensures
            s@ == self@.rendered(),
    {
        let mut s = self.header();
        s.append(self.message_type.name());
        s.append("\n");
        let body = self.body();
        s.append(body.as_str());
        s
    }

    /// The whole diagnostic as shown on a terminal, where it can be shown:
    /// `None` for a diagnostic whose line does not exist in its text or
    /// whose end column lies left of its start column.
    pub fn render(&self) -> (r: Option<String>)
        ensures
            self@.renderable() <==> r is Some,
            r matches Some(s) ==> s@ == self@.rendered(),
    {
        if self.can_render() {
            Some(self.to_string())
        } else {
            None
        }
    }

    /// Whether [`Message::to_string`] may be called: the line of the
    /// diagnostic exists in its text, and its end column is not left of its
    /// start column.
    pub fn can_render(&self) -> (b: bool)
        ensures
            b == self@.renderable(),
    {
        if self.cursor.start.col > self.cursor.end.col {
            return false;
        }
        let chars = chars_of(self.cursor.text.as_str());
        let n = self.cursor.start.line_num;
        let mut start: usize = 0;
        let mut k: usize = 0;
        while k < n
            invariant
                k <= n,
                n == self.cursor.start.line_num,
                chars@ == self.cursor.text@,
                self.cursor.start.col <= self.cursor.end.col,
                start == line_start(chars@, k as nat),
                start <= chars@.len(),
            decreases n - k,
        {
            let end = Message::find_line_end(&chars, start);
            if end >= chars.len() {
                proof {
                    assert(line_start(chars@, (k + 1) as nat) == end + 1);
                    lemma_line_starts_grow(chars@, (k + 1) as nat, n as nat);
                }
                return false;
            }
            assert(line_start(chars@, (k + 1) as nat) == end + 1);
            start = end + 1;
            k += 1;
        }
        true
    }
}

/// Later lines start further on, and no line starts more than one place
/// behind the text.
pub proof fn lemma_line_starts_grow(text: Seq<char>, k: nat, n: nat)
    requires
        k <= n,
    ensures
        0 <= line_start(text, k) <= line_start(text, n) <= text.len() + 1,
    decreases n - k,
{
    lemma_line_start_bounds(text, k);
    lemma_line_start_bounds(text, n);
    if k < n {
        lemma_line_starts_grow(text, k + 1, n);
        if line_start(text, k) <= text.len() {
            lemma_line_end(text, line_start(text, k));
        }
    }
}

/// Every line starts inside the text or one place behind it.
pub proof fn lemma_line_start_bounds(text: Seq<char>, n: nat)
    ensures
        0 <= line_start(text, n) <= text.len() + 1,
        n > 0 && line_start(text, (n - 1) as nat) > text.len() ==> line_start(text, n)
            == text.len() + 1,
    decreases n,
{
    if n > 0 {
        lemma_line_start_bounds(text, (n - 1) as nat);
        let before = line_start(text, (n - 1) as nat);
        if before <= text.len() {
            lemma_line_end(text, before);
        }
    }
}

} // verus!
