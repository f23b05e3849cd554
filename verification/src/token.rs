//! Tokens and the tokenizer.
//!
//! The tokenizer cuts a text into lexemes by character classes. At each
//! place it takes the longest piece that is a token; blanks between tokens
//! are dropped; a character that starts no token is an `Error` lexeme of
//! its own. The last lexeme is always `EoF`.

use vstd::prelude::*;
use crate::text::{chars_of, spells};

verus! {

/// The kinds of token.
#[derive(Debug, Clone, Copy, PartialEq, Eq, Structural)]
pub enum Token {
    Plus,
    Minus,
    Asterisk,
    Slash,
    LeftParen,
    RightParen,
    LeftBrace,
    RightBrace,
    Colon,
    Comma,
    Assign,
    Function,
    Let,
    Raw,
    Identifier,
    String,
    Integer,
    NewLine,
    Error,
    Whitespace,
    EoF,
}

/// One token of a text: its kind and the character offsets between which it
/// stands.
#[derive(Debug, Clone, Copy, PartialEq, Eq, Structural)]
pub struct Lexeme {
    pub token: Token,
    pub start: usize,
    pub end: usize,
}

/// A decimal digit.
pub open spec fn is_digit(c: char) -> bool {
    '0' <= c <= '9'
}

/// A letter of the basic Latin alphabet.
pub open spec fn is_letter(c: char) -> bool {
    ('a' <= c <= 'z') || ('A' <= c <= 'Z')
}

/// A blank between tokens: space, tabulator or form feed.
pub open spec fn is_blank(c: char) -> bool {
    c == ' ' || c == '\t' || c == '\u{c}'
}

/// The number of letters and digits that follow each other from `pos` on.
pub open spec fn word_run(text: Seq<char>, pos: int) -> nat
    decreases text.len() - pos,
{
    if 0 <= pos < text.len() && (is_letter(text[pos]) || is_digit(text[pos])) {
        1 + word_run(text, pos + 1)
    } else {
        0
    }
}

/// The length of the rest of an integer literal from `pos` on: digits, and
/// underscores that are followed by a digit.
pub open spec fn number_run(text: Seq<char>, pos: int) -> nat
    decreases text.len() - pos,
{
    if 0 <= pos < text.len() && is_digit(text[pos]) {
        1 + number_run(text, pos + 1)
    } else if 0 <= pos && pos + 1 < text.len() && text[pos] == '_' && is_digit(text[pos + 1]) {
        2 + number_run(text, pos + 2)
    } else {
        0
    }
}

/// Where a string literal ends whose opening quote stands just before
/// `pos`: behind the first quote that no backslash precedes, or, where
/// there is none, behind the last quote at all. `None` where no quote
/// follows.
pub open spec fn closing(text: Seq<char>, pos: int) -> Option<int>
    decreases text.len() - pos,
{
    if pos < 0 || pos >= text.len() {
        None
    } else if text[pos] == '"' {
        Some(pos + 1)
    } else if text[pos] == '\\' && pos + 1 < text.len() && text[pos + 1] == '"' {
        match closing(text, pos + 2) {
            Some(end) => Some(end),
            None => Some(pos + 2),
        }
    } else {
        closing(text, pos + 1)
    }
}

/// The kind of a word: a keyword, or an identifier.
pub open spec fn word_kind(word: Seq<char>) -> Token {
    if word == "function"@ {
        Token::Function
    } else if word == "let"@ {
        Token::Let
    } else if word == "raw"@ {
        Token::Raw
    } else {
        Token::Identifier
    }
}

/// The kind of a token that is one character long, whatever follows it;
/// `Error` for a character that is no such token.
pub open spec fn symbol_kind(c: char) -> Token {
    if c == '+' {
        Token::Plus
    } else if c == '*' {
        Token::Asterisk
    } else if c == '/' {
        Token::Slash
    } else if c == '(' {
        Token::LeftParen
    } else if c == ')' {
        Token::RightParen
    } else if c == '{' {
        Token::LeftBrace
    } else if c == '}' {
        Token::RightBrace
    } else if c == ':' {
        Token::Colon
    } else if c == ',' {
        Token::Comma
    } else if c == '=' {
        Token::Assign
    } else if c == '\n' {
        Token::NewLine
    } else {
        Token::Error
    }
}

/// The token that starts at `pos`, where a character that is no blank
/// stands: its kind and its end.
pub open spec fn token_at(text: Seq<char>, pos: int) -> (Token, int) {
    let c = text[pos];
    if is_letter(c) {
        let end = pos + 1 + word_run(text, pos + 1);
        (word_kind(text.subrange(pos, end)), end)
    } else if is_digit(c) {
        (Token::Integer, pos + 1 + number_run(text, pos + 1))
    } else if c == '-' {
        if pos + 1 < text.len() && is_digit(text[pos + 1]) {
            (Token::Integer, pos + 2 + number_run(text, pos + 2))
        } else {
            (Token::Minus, pos + 1)
        }
    } else if c == '"' {
        match closing(text, pos + 1) {
            Some(end) => (Token::String, end),
            None => (Token::Error, pos + 1),
        }
    } else {
        (symbol_kind(c), pos + 1)
    }
}

/// The lexemes of a text from `pos` on.
pub open spec fn tokens_from(text: Seq<char>, pos: int) -> Seq<Lexeme>
    decreases text.len() - pos,
{
    if pos < 0 || pos >= text.len() {
        seq![Lexeme { token: Token::EoF, start: text.len() as usize, end: text.len() as usize }]
    } else if is_blank(text[pos]) {
        tokens_from(text, pos + 1)
    } else {
        let (token, end) = token_at(text, pos);
        if pos < end <= text.len() {
            seq![Lexeme { token, start: pos as usize, end: end as usize }] + tokens_from(
                text,
                end,
            )
        } else {
            seq![Lexeme { token: Token::EoF, start: text.len() as usize, end: text.len() as usize }]
        }
    }
}

/// The lexemes of a text.
pub open spec fn tokens_of(text: Seq<char>) -> Seq<Lexeme> {
    tokens_from(text, 0)
}

/// A run of word characters ends inside the text.
pub proof fn lemma_word_run(text: Seq<char>, pos: int)
    requires
        0 <= pos <= text.len(),
    ensures
        pos + word_run(text, pos) <= text.len(),
    decreases text.len() - pos,
{
    if pos < text.len() && (is_letter(text[pos]) || is_digit(text[pos])) {
        lemma_word_run(text, pos + 1);
    }
}

/// The rest of an integer literal ends inside the text.
pub proof fn lemma_number_run(text: Seq<char>, pos: int)
    requires
        0 <= pos <= text.len(),
    ensures
        pos + number_run(text, pos) <= text.len(),
    decreases text.len() - pos,
{
    if pos < text.len() && is_digit(text[pos]) {
        lemma_number_run(text, pos + 1);
    } else if pos + 1 < text.len() && text[pos] == '_' && is_digit(text[pos + 1]) {
        lemma_number_run(text, pos + 2);
    }
}

/// A string literal ends behind the place it was looked for from, and
/// inside the text.
pub proof fn lemma_closing(text: Seq<char>, pos: int)
    requires
        0 <= pos,
    ensures
        closing(text, pos) matches Some(end) ==> pos < end <= text.len(),
    decreases text.len() - pos,
{
    if pos < text.len() && text[pos] != '"' {
        if text[pos] == '\\' && pos + 1 < text.len() && text[pos + 1] == '"' {
            lemma_closing(text, pos + 2);
        } else {
            lemma_closing(text, pos + 1);
        }
    }
}

/// Every token is at least one character long and ends inside the text.
pub proof fn lemma_token_at(text: Seq<char>, pos: int)
    requires
        0 <= pos < text.len(),
    ensures
        pos < token_at(text, pos).1 <= text.len(),
{
    lemma_word_run(text, pos + 1);
    lemma_number_run(text, pos + 1);
    if pos + 1 < text.len() {
        lemma_number_run(text, pos + 2);
    }
    lemma_closing(text, pos + 1);
}

/// Whether every lexeme lies inside a text of `len` characters.
pub open spec fn within(tokens: Seq<Lexeme>, len: nat) -> bool {
    forall|i: int| 0 <= i < tokens.len() ==> (#[trigger] tokens[i]).start <= tokens[i].end <= len
}

/// The lexemes are never empty, the last one is `EoF`, and each lies inside
/// the text.
pub proof fn lemma_tokens_from(text: Seq<char>, pos: int)
    requires
        0 <= pos,
        text.len() <= usize::MAX,
    ensures
        tokens_from(text, pos).len() >= 1,
        tokens_from(text, pos).last().token == Token::EoF,
        within(tokens_from(text, pos), text.len()),
    decreases text.len() - pos,
{
    if pos < text.len() {
        if is_blank(text[pos]) {
            lemma_tokens_from(text, pos + 1);
        } else {
            lemma_token_at(text, pos);
            let (token, end) = token_at(text, pos);
            lemma_tokens_from(text, end);
            let head = seq![Lexeme { token, start: pos as usize, end: end as usize }];
            let rest = tokens_from(text, end);
            assert(tokens_from(text, pos) == head + rest);
            assert forall|i: int| 0 <= i < (head + rest).len() implies (#[trigger] (head
                + rest)[i]).start <= (head + rest)[i].end <= text.len() by {
                if i > 0 {
                    assert((head + rest)[i] == rest[i - 1]);
                }
            }
        }
    }
}


/// Whether the lexemes stand in the order of the text, from `pos` on,
/// without overlapping: each starts where the one before it ended, or
/// further on.
pub open spec fn in_order(tokens: Seq<Lexeme>, pos: int) -> bool {
    &&& forall|i: int| 0 <= i < tokens.len() ==> pos <= (#[trigger] tokens[i]).start
    &&& forall|i: int, j: int|
        0 <= i < j < tokens.len() ==> (#[trigger] tokens[i]).end <= (#[trigger] tokens[j]).start
}

/// The lexemes of a text stand in the order of the text and do not overlap;
/// only the last one is `EoF`, and every other one is at least one
/// character long.
pub proof fn lemma_tokens_in_order(text: Seq<char>, pos: int)
    requires
        0 <= pos <= text.len(),
        text.len() <= usize::MAX,
    ensures
        in_order(tokens_from(text, pos), pos),
        forall|i: int|
            0 <= i < tokens_from(text, pos).len() - 1 ==> {
                let lexeme = #[trigger] tokens_from(text, pos)[i];
                lexeme.token != Token::EoF && lexeme.token != Token::Whitespace && lexeme.start
                    < lexeme.end
            },
    decreases text.len() - pos,
{
    lemma_tokens_from(text, pos);
    if pos < text.len() {
        if is_blank(text[pos]) {
            lemma_tokens_in_order(text, pos + 1);
            let rest = tokens_from(text, pos + 1);
            assert(tokens_from(text, pos) == rest);
            assert forall|i: int| 0 <= i < rest.len() implies pos <= (#[trigger] rest[i]).start by {
                assert(pos + 1 <= rest[i].start);
            }
        } else {
            lemma_token_at(text, pos);
            let (token, end) = token_at(text, pos);
            lemma_tokens_in_order(text, end);
            lemma_tokens_from(text, end);
            let head = seq![Lexeme { token, start: pos as usize, end: end as usize }];
            let rest = tokens_from(text, end);
            let all = head + rest;
            assert(tokens_from(text, pos) == all);
            assert forall|i: int| 0 <= i < all.len() implies pos <= (#[trigger] all[i]).start by {
                if i > 0 {
                    assert(all[i] == rest[i - 1]);
                }
            }
            assert forall|i: int, j: int| 0 <= i < j < all.len() implies (#[trigger] all[i]).end
                <= (#[trigger] all[j]).start by {
                assert(all[j] == rest[j - 1]);
                if i > 0 {
                    assert(all[i] == rest[i - 1]);
                }
            }
            assert forall|i: int| 0 <= i < all.len() - 1 implies {
                let lexeme = #[trigger] all[i];
                lexeme.token != Token::EoF && lexeme.token != Token::Whitespace && lexeme.start
                    < lexeme.end
            } by {
                if i > 0 {
                    assert(all[i] == rest[i - 1]);
                }
            }
        }
    }
}

/// Whether a character is a decimal digit.
pub fn digit(c: char) -> (b: bool)
    ensures
        b == is_digit(c),
{
    '0' <= c && c <= '9'
}

/// Whether a character is a letter of the basic Latin alphabet.
pub fn letter(c: char) -> (b: bool)
    ensures
        b == is_letter(c),
{
    ('a' <= c && c <= 'z') || ('A' <= c && c <= 'Z')
}

/// Whether a character is a blank between tokens.
pub fn blank(c: char) -> (b: bool)
    ensures
        b == is_blank(c),
{
    c == ' ' || c == '\t' || c == '\u{c}'
}

/// The end of the run of letters and digits that starts at `pos`.
fn scan_word(chars: &Vec<char>, pos: usize) -> (end: usize)
    requires
        pos <= chars@.len(),
    ensures
        end == pos + word_run(chars@, pos as int),
        end <= chars@.len(),
{
    let mut end = pos;
    while end < chars.len() && (letter(chars[end]) || digit(chars[end]))
        invariant
            pos <= end <= chars@.len(),
            pos + word_run(chars@, pos as int) == end + word_run(chars@, end as int),
        decreases chars@.len() - end,
    {
        end += 1;
    }
    end
}

/// The end of the rest of an integer literal that starts at `pos`.
fn scan_number(chars: &Vec<char>, pos: usize) -> (end: usize)
    requires
        pos <= chars@.len(),
    ensures
        end == pos + number_run(chars@, pos as int),
        end <= chars@.len(),
{
    let mut end = pos;
    loop
        invariant
            pos <= end <= chars@.len(),
            pos + number_run(chars@, pos as int) == end + number_run(chars@, end as int),
        decreases chars@.len() - end,
    {
        if end < chars.len() && digit(chars[end]) {
            end += 1;
        } else if end < chars.len() && end + 1 < chars.len() && chars[end] == '_' && digit(
            chars[end + 1],
        ) {
            end += 2;
        } else {
            return end;
        }
    }
}

/// The end of the string literal whose opening quote stands just before
/// `pos`.
fn scan_string(chars: &Vec<char>, pos: usize) -> (end: Option<usize>)
    requires
        pos <= chars@.len(),
    ensures
        match end {
            Some(e) => closing(chars@, pos as int) == Some(e as int) && pos < e <= chars@.len(),
            None => closing(chars@, pos as int) is None,
        },
{
    let mut at = pos;
    let mut fallback: Option<usize> = None;
    loop
        invariant
            pos <= at <= chars@.len(),
            fallback matches Some(f) ==> pos < f <= chars@.len(),
            closing(chars@, pos as int) == match closing(chars@, at as int) {
                Some(e) => Some(e),
                None => match fallback {
                    Some(f) => Some(f as int),
                    None => None,
                },
            },
        decreases chars@.len() - at,
    {
        if at >= chars.len() {
            return fallback;
        }
        let c = chars[at];
        if c == '"' {
            return Some(at + 1);
        } else if c == '\\' && at + 1 < chars.len() && chars[at + 1] == '"' {
            fallback = Some(at + 2);
            at += 2;
        } else {
            at += 1;
        }
    }
}

/// The kind of the one-character token `c`.
fn symbol(c: char) -> (token: Token)
    ensures
        token == symbol_kind(c),
{
    if c == '+' {
        Token::Plus
    } else if c == '*' {
        Token::Asterisk
    } else if c == '/' {
        Token::Slash
    } else if c == '(' {
        Token::LeftParen
    } else if c == ')' {
        Token::RightParen
    } else if c == '{' {
        Token::LeftBrace
    } else if c == '}' {
        Token::RightBrace
    } else if c == ':' {
        Token::Colon
    } else if c == ',' {
        Token::Comma
    } else if c == '=' {
        Token::Assign
    } else if c == '\n' {
        Token::NewLine
    } else {
        Token::Error
    }
}

/// The token that starts at `pos`.
fn next_token(chars: &Vec<char>, pos: usize) -> (r: (Token, usize))
    requires
        pos < chars@.len(),
    ensures
        (r.0, r.1 as int) == token_at(chars@, pos as int),
        pos < r.1 <= chars@.len(),
{
    proof {
        lemma_token_at(chars@, pos as int);
    }
    let len = chars.len();
    let c = chars[pos];
    if letter(c) {
        let end = scan_word(chars, pos + 1);
        let token = if spells(chars, pos, end, "function") {
            Token::Function
        } else if spells(chars, pos, end, "let") {
            Token::Let
        } else if spells(chars, pos, end, "raw") {
            Token::Raw
        } else {
            Token::Identifier
        };
        (token, end)
    } else if digit(c) {
        (Token::Integer, scan_number(chars, pos + 1))
    } else if c == '-' {
        if pos + 1 < chars.len() && digit(chars[pos + 1]) {
            (Token::Integer, scan_number(chars, pos + 2))
        } else {
            (Token::Minus, pos + 1)
        }
    } else if c == '"' {
        match scan_string(chars, pos + 1) {
            Some(end) => (Token::String, end),
            None => (Token::Error, pos + 1),
        }
    } else {
        (symbol(c), pos + 1)
    }
}

/// Cuts a text, given by its characters, into lexemes.
pub fn tokenize_chars(chars: &Vec<char>) -> (tokens: Vec<Lexeme>)
    ensures
        tokens@ == tokens_of(chars@),
{
    let mut tokens: Vec<Lexeme> = Vec::new();
    let mut pos: usize = 0;
    while pos < chars.len()
        invariant
            pos <= chars@.len(),
            tokens@ + tokens_from(chars@, pos as int) == tokens_of(chars@),
        decreases chars@.len() - pos,
    {
        if blank(chars[pos]) {
            pos += 1;
        } else {
            let (token, end) = next_token(chars, pos);
            let ghost before = tokens@;
            tokens.push(Lexeme { token, start: pos, end });
            assert(tokens@ + tokens_from(chars@, end as int) =~= before + tokens_from(
                chars@,
                pos as int,
            ));
            pos = end;
        }
    }
    tokens.push(Lexeme { token: Token::EoF, start: chars.len(), end: chars.len() });
    tokens
}

/// Cuts a text into lexemes.
pub fn tokenize(text: &str) -> (tokens: Vec<Lexeme>)
    ensures
        tokens@ == tokens_of(text@),
{
    let chars = chars_of(text);
    tokenize_chars(&chars)
}


/// The number that a decimal digit stands for.
pub open spec fn digit_value(c: char) -> nat {
    (c as u32 - '0' as u32) as nat
}

/// The number that the digits of `s` spell; characters that are no digits
/// are passed over.
pub open spec fn digits_value(s: Seq<char>) -> nat
    decreases s.len(),
{
    if s.len() == 0 {
        0
    } else if is_digit(s.last()) {
        digits_value(s.drop_last()) * 10 + digit_value(s.last())
    } else {
        digits_value(s.drop_last())
    }
}

/// What follows the sign of an integer literal.
pub open spec fn magnitude_text(s: Seq<char>) -> Seq<char> {
    if s.len() > 0 && s[0] == '-' {
        s.subrange(1, s.len() as int)
    } else {
        s
    }
}

/// Whether `s` is the text of an integer literal: an optional minus sign,
/// then digits and underscores, at least one digit among them.
pub open spec fn is_integer_text(s: Seq<char>) -> bool {
    let body = magnitude_text(s);
    &&& forall|i: int| 0 <= i < body.len() ==> is_digit(#[trigger] body[i]) || body[i] == '_'
    &&& exists|i: int| 0 <= i < body.len() && is_digit(#[trigger] body[i])
}

/// The value of an integer literal: its digits, read without the
/// underscores, negated behind a minus sign.
pub open spec fn integer_value(s: Seq<char>) -> int {
    if s.len() > 0 && s[0] == '-' {
        -(digits_value(magnitude_text(s)) as int)
    } else {
        digits_value(magnitude_text(s)) as int
    }
}

/// The value of `s` where it is an integer literal whose value is a 64-bit
/// signed number; `None` otherwise.
pub open spec fn integer_of_spec(s: Seq<char>) -> Option<i64> {
    if is_integer_text(s) && i64::MIN <= integer_value(s) <= i64::MAX {
        Some(integer_value(s) as i64)
    } else {
        None
    }
}

/// The contents of a string literal: the text without its first and last
/// character.
pub open spec fn unquoted(s: Seq<char>) -> Seq<char> {
    if s.len() >= 2 {
        s.subrange(1, s.len() - 1)
    } else {
        Seq::empty()
    }
}

/// The value of `slice` where it is an integer literal whose value is a
/// 64-bit signed number.
#[verifier::rlimit(50)]
pub fn integer_of(slice: &str) -> (r: Option<i64>)
    ensures
        r == integer_of_spec(slice@),
{
    let chars = chars_of(slice);
    let len = chars.len();
    let negative = len > 0 && chars[0] == '-';
    let first: usize = if negative {
        1
    } else {
        0
    };
    let ghost body = magnitude_text(chars@);
    assert(body =~= chars@.subrange(first as int, len as int));
    let mut i: usize = first;
    let mut acc: u128 = 0;
    let mut over = false;
    let mut seen = false;
    let ghost mut witness: int = 0;
    assert(chars@.subrange(first as int, first as int) =~= Seq::<char>::empty());
    while i < len
        invariant
            first <= i <= len,
            len == chars@.len(),
            body == chars@.subrange(first as int, len as int),
            body == magnitude_text(chars@),
            chars@ == slice@,
            negative == (len > 0 && chars@[0] == '-'),
            forall|j: int| 0 <= j < i - first ==> is_digit(#[trigger] body[j]) || body[j] == '_',
            seen ==> 0 <= witness < i - first && is_digit(body[witness]),
            !seen ==> forall|j: int| 0 <= j < i - first ==> !is_digit(#[trigger] body[j]),
            !over ==> acc == digits_value(chars@.subrange(first as int, i as int)),
            !over ==> acc <= 9223372036854775808,
            over ==> digits_value(chars@.subrange(first as int, i as int)) > 9223372036854775808,
        decreases len - i,
    {
        let c = chars[i];
        proof {
            let longer = chars@.subrange(first as int, i + 1);
            assert(longer.drop_last() =~= chars@.subrange(first as int, i as int));
            assert(longer.last() == c);
            assert(body[i - first] == c);
        }
        if digit(c) {
            if !over {
                let d: u128 = (c as u32 - '0' as u32) as u128;
                acc = acc * 10 + d;
                if acc > 9223372036854775808 {
                    over = true;
                }
            }
            proof {
                if !seen {
                    witness = i - first;
                }
            }
            seen = true;
        } else if c == '_' {
        } else {
            assert(!is_digit(body[i - first]) && body[i - first] != '_');
            assert(!is_integer_text(chars@));
            return None;
        }
        i += 1;
    }
    assert(chars@.subrange(first as int, len as int) == body);
    if !seen {
        return None;
    }
    assert(is_integer_text(chars@));
    if over {
        return None;
    }
    if negative {
        if acc == 9223372036854775808 {
            Some(i64::MIN)
        } else {
            Some(-(acc as i64))
        }
    } else {
        if acc > 9223372036854775807 {
            None
        } else {
            Some(acc as i64)
        }
    }
}

/// The value of an integer literal.
pub fn to_i64(slice: &str) -> (v: i64)
    requires
        integer_of_spec(slice@) is Some,
    ensures
        v == integer_value(slice@),
{
    match integer_of(slice) {
        Some(v) => v,
        None => vstd::pervasive::unreached(),
    }
}

/// The contents of a string literal: the slice without the quotes around
/// it.
pub fn to_string(slice: &str) -> (s: String)
    requires
        slice@.len() >= 2,
    ensures
        s@ == unquoted(slice@),
{
    let len = slice.unicode_len();
    slice.substring_char(1, len - 1).to_owned()
}

} // verus!
