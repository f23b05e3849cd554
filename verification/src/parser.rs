//! The parser: from lexemes to the syntax tree.
//!
//! The grammar is written down twice. The spec functions (`atom_spec`,
//! `term_spec`, `math_spec`, `statement_spec` and so on) say for every
//! sequence of lexemes and every place in it what is read there: a node and
//! the place behind it, or the diagnostic that ends the parse. The methods
//! of [`Parser`] are proved to compute exactly that.
//!
//! A place is the index of a lexeme. Nothing is consumed by a check that
//! fails, so going back to an earlier place is always possible; the
//! statements of a block make use of it.

use vstd::prelude::*;
use crate::ast::{
    argument_views,
    block_view,
    parameter_views,
    Argument,
    ArgumentView,
    Expression,
    ExpressionView,
    Parameter,
    ParameterView,
    Type,
    TypeView,
};
use crate::cursor::{span_of, Cursor, CursorView};
use crate::details::{
    illegal_character,
    illegal_character_text,
    integer_bounds_exceeded,
    integer_bounds_exceeded_text,
    missing_block,
    missing_block_separator_or_closure,
    missing_block_separator_or_closure_text,
    missing_block_text,
    missing_case,
    missing_case_closure,
    missing_case_closure_text,
    missing_case_text,
    missing_expression,
    missing_expression_text,
    missing_member_name,
    missing_member_name_text,
    missing_member_type,
    missing_member_type_colon,
    missing_member_type_colon_text,
    missing_member_type_or_value_assignment,
    missing_member_type_or_value_assignment_text,
    missing_member_type_text,
};
use crate::message::{Message, MessageType, MessageView};
use crate::text::slice_text;
use crate::token::{
    integer_of,
    integer_of_spec,
    lemma_tokens_from,
    to_string,
    tokenize,
    tokens_of,
    unquoted,
    within,
    Lexeme,
    Token,
};

verus! {

/// The view of a [`Parser`]: the name of the file, the text and its lexemes.
pub struct ParserView {
    pub file_name: Seq<char>,
    pub text: Seq<char>,
    pub tokens: Seq<Lexeme>,
}

/// What is read at a place: a node and the place behind it, or a
/// diagnostic.
pub type Step = Result<(ExpressionView, nat), MessageView>;

impl ParserView {
    /// The lexemes end with `EoF`, lie inside the text, and every offset of
    /// the text is a machine integer below the largest.
    pub open spec fn wf(self) -> bool {
        &&& self.tokens.len() >= 1
        &&& self.tokens.last().token == Token::EoF
        &&& within(self.tokens, self.text.len())
        &&& self.text.len() < usize::MAX
    }

    /// The kind of the lexeme at `pos`; `EoF` behind the last one.
    pub open spec fn kind_at(self, pos: nat) -> Token {
        if pos < self.tokens.len() {
            self.tokens[pos as int].token
        } else {
            Token::EoF
        }
    }

    /// The text of the lexeme at `pos`.
    pub open spec fn slice_at(self, pos: nat) -> Seq<char> {
        self.text.subrange(self.tokens[pos as int].start as int, self.tokens[pos as int].end as int)
    }

    /// The span from the start of the lexeme at `first` to the end of the
    /// lexeme at `last`.
    pub open spec fn cursor_over(self, first: nat, last: nat) -> CursorView {
        span_of(
            self.file_name,
            self.text,
            self.tokens[first as int].start as nat,
            self.tokens[last as int].end as nat,
        )
    }

    /// The span of the lexeme at `pos`.
    pub open spec fn cursor_at(self, pos: nat) -> CursorView {
        self.cursor_over(pos, pos)
    }

    /// A diagnostic that points at the lexeme at `pos`.
    pub open spec fn failure(self, pos: nat, message_type: MessageType, details: Seq<char>)
        -> MessageView {
        MessageView { message_type, details, cursor: self.cursor_at(pos) }
    }

    /// The diagnostic for an illegal character at `pos`.
    pub open spec fn illegal(self, pos: nat) -> MessageView {
        self.failure(
            pos,
            MessageType::IllegalCharacter,
            illegal_character_text(self.slice_at(pos)),
        )
    }

    /// The hard check: nothing where the lexeme at `pos` is of the given
    /// kind; the illegal-character diagnostic where it is an `Error`
    /// lexeme, whatever was expected; else the given diagnostic.
    pub open spec fn expect(self, pos: nat, kind: Token, error: MessageView) -> Option<
        MessageView,
    > {
        if self.kind_at(pos) == kind {
            None
        } else if self.kind_at(pos) == Token::Error {
            Some(self.illegal(pos))
        } else {
            Some(error)
        }
    }

    /// The soft check: whether the lexeme at `pos` is of the given kind. It
    /// fails only on an `Error` lexeme, with the illegal-character
    /// diagnostic.
    pub open spec fn suspect(self, pos: nat, kind: Token) -> Result<bool, MessageView> {
        if self.kind_at(pos) == kind {
            Ok(true)
        } else if self.kind_at(pos) == Token::Error {
            Err(self.illegal(pos))
        } else {
            Ok(false)
        }
    }

    /// The soft check for a name: the text of the lexeme at `pos` where it
    /// is an identifier.
    pub open spec fn suspect_identifier(self, pos: nat) -> Result<Option<Seq<char>>, MessageView> {
        match self.suspect(pos, Token::Identifier) {
            Err(m) => Err(m),
            Ok(true) => Ok(Some(self.slice_at(pos))),
            Ok(false) => Ok(None),
        }
    }

    /// The hard check for a name: the text of the lexeme at `pos`, which
    /// has to be an identifier.
    pub open spec fn expect_identifier(self, pos: nat, error: MessageView) -> Result<
        Seq<char>,
        MessageView,
    > {
        match self.expect(pos, Token::Identifier, error) {
            Some(m) => Err(m),
            None => Ok(self.slice_at(pos)),
        }
    }

    /// The place behind the lexeme at `pos` where the soft check finds it
    /// of the given kind, else `pos` itself.
    pub open spec fn behind_suspected(self, pos: nat, kind: Token) -> nat {
        if self.kind_at(pos) == kind {
            pos + 1
        } else {
            pos
        }
    }

    /// Whether a step that started at `pos` and ended at `next` has moved
    /// forward and stayed inside the lexemes. Every successful step has
    /// (see [`lemma_statement_moves_on`]); the grammar asks for it where it
    /// goes on behind a step, so that its definition is well-founded.
    pub open spec fn advanced(self, pos: nat, next: nat) -> bool {
        pos < next <= self.tokens.len()
    }

    /// The number of line breaks that follow each other from `pos` on.
    pub open spec fn newline_run(self, pos: nat) -> nat
        decreases self.tokens.len() - pos,
    {
        if self.kind_at(pos) == Token::NewLine {
            1 + self.newline_run(pos + 1)
        } else {
            0
        }
    }
}

/// The node of a binary operation; the operator is given by its token.
pub open spec fn binary_node(
    operator: Token,
    left: ExpressionView,
    right: ExpressionView,
    cursor: CursorView,
) -> ExpressionView {
    match operator {
        Token::Asterisk => ExpressionView::Multiplication {
            left: Box::new(left),
            right: Box::new(right),
            cursor,
        },
        Token::Slash => ExpressionView::Division {
            left: Box::new(left),
            right: Box::new(right),
            cursor,
        },
        Token::Minus => ExpressionView::Subtraction {
            left: Box::new(left),
            right: Box::new(right),
            cursor,
        },
        _ => ExpressionView::Addition { left: Box::new(left), right: Box::new(right), cursor },
    }
}

/// An atom: a literal, a name (an assignment where `=` follows it, a call
/// where `(` follows it, else the use of a variable), or a statement in
/// parentheses.
pub open spec fn atom_spec(src: ParserView, pos: nat) -> Step
    decreases src.tokens.len() - pos, 1nat,
{
    match src.kind_at(pos) {
        Token::Integer => match integer_of_spec(src.slice_at(pos)) {
            Some(value) => Ok((ExpressionView::Integer(value, src.cursor_at(pos)), pos + 1)),
            None => Err(
                src.failure(
                    pos,
                    MessageType::IntegerBoundsExceeded,
                    integer_bounds_exceeded_text(32),
                ),
            ),
        },
        Token::String => Ok(
            (ExpressionView::String(unquoted(src.slice_at(pos)), src.cursor_at(pos)), pos + 1),
        ),
        Token::Identifier => {
            if src.kind_at(pos + 1) == Token::Assign {
                match statement_spec(src, pos + 2) {
                    Err(m) => Err(m),
                    Ok((value, next)) => Ok(
                        (
                            ExpressionView::VariableAssign {
                                name: src.slice_at(pos),
                                value: Box::new(value),
                                cursor: src.cursor_over(pos, (next - 1) as nat),
                            },
                            next,
                        ),
                    ),
                }
            } else if src.kind_at(pos + 1) == Token::LeftParen {
                match arguments_spec(src, pos + 2, Seq::empty()) {
                    Err(m) => Err(m),
                    Ok((arguments, next)) => Ok(
                        (
                            ExpressionView::FunctionCall {
                                name: src.slice_at(pos),
                                arguments,
                                cursor: src.cursor_over(pos, (next - 1) as nat),
                            },
                            next,
                        ),
                    ),
                }
            } else {
                Ok((ExpressionView::VariableAccess(src.slice_at(pos), src.cursor_at(pos)), pos + 1))
            }
        },
        Token::LeftParen => match statement_spec(src, pos + 1) {
            Err(m) => Err(m),
            Ok((inner, next)) => match src.expect(
                next,
                Token::RightParen,
                src.failure(next, MessageType::MissingCaseClosure, missing_case_closure_text()),
            ) {
                Some(m) => Err(m),
                None => Ok((inner, next + 1)),
            },
        },
        Token::Error => Err(src.illegal(pos)),
        _ => Err(src.failure(pos, MessageType::MissingExpression, missing_expression_text())),
    }
}

/// The arguments of a call from `pos` on, behind those already read: a
/// closing parenthesis ends them, commas are passed over, anything else is
/// a statement.
pub open spec fn arguments_spec(src: ParserView, pos: nat, read: Seq<ArgumentView>) -> Result<
    (Seq<ArgumentView>, nat),
    MessageView,
>
    decreases src.tokens.len() - pos, 10nat,
{
    match src.kind_at(pos) {
        Token::RightParen => Ok((read, pos + 1)),
        Token::Comma => arguments_spec(src, pos + 1, read),
        _ => match statement_spec(src, pos) {
            Err(m) => Err(m),
            Ok((expression, next)) => if src.advanced(pos, next) {
                arguments_spec(src, next, read.push(ArgumentView { expression }))
            } else {
                Ok((read, pos))
            },
        },
    }
}

/// A term: atoms joined by `*` and `/`, grouped from the left.
pub open spec fn term_spec(src: ParserView, pos: nat) -> Step
    decreases src.tokens.len() - pos, 2nat,
{
    match atom_spec(src, pos) {
        Err(m) => Err(m),
        Ok((left, next)) => if src.advanced(pos, next) {
            term_rest_spec(src, pos, left, next)
        } else {
            Ok((left, next))
        },
    }
}

/// The rest of a term that started at `start` and has `left` so far.
pub open spec fn term_rest_spec(src: ParserView, start: nat, left: ExpressionView, pos: nat)
    -> Step
    decreases src.tokens.len() - pos, 0nat,
{
    let operator = src.kind_at(pos);
    if operator == Token::Asterisk || operator == Token::Slash {
        match atom_spec(src, pos + 1) {
            Err(m) => Err(m),
            Ok((right, next)) => if src.advanced(pos, next) {
                term_rest_spec(
                    src,
                    start,
                    binary_node(operator, left, right, src.cursor_over(start, (next - 1) as nat)),
                    next,
                )
            } else {
                Ok((left, pos))
            },
        }
    } else {
        Ok((left, pos))
    }
}

/// A sum: terms joined by `+` and `-`, grouped from the left.
pub open spec fn math_spec(src: ParserView, pos: nat) -> Step
    decreases src.tokens.len() - pos, 3nat,
{
    match term_spec(src, pos) {
        Err(m) => Err(m),
        Ok((left, next)) => if src.advanced(pos, next) {
            math_rest_spec(src, pos, left, next)
        } else {
            Ok((left, next))
        },
    }
}

/// The rest of a sum that started at `start` and has `left` so far.
pub open spec fn math_rest_spec(src: ParserView, start: nat, left: ExpressionView, pos: nat)
    -> Step
    decreases src.tokens.len() - pos, 0nat,
{
    let operator = src.kind_at(pos);
    if operator == Token::Plus || operator == Token::Minus {
        match term_spec(src, pos + 1) {
            Err(m) => Err(m),
            Ok((right, next)) => if src.advanced(pos, next) {
                math_rest_spec(
                    src,
                    start,
                    binary_node(operator, left, right, src.cursor_over(start, (next - 1) as nat)),
                    next,
                )
            } else {
                Ok((left, pos))
            },
        }
    } else {
        Ok((left, pos))
    }
}

/// A declaration of a variable; `let` stands at `pos`. A name follows,
/// then a colon and a type, or `=` and an initializer, or both.
pub open spec fn let_spec(src: ParserView, pos: nat) -> Step
    decreases src.tokens.len() - pos, 4nat,
{
    match src.expect(
        pos + 1,
        Token::Identifier,
        src.failure(pos + 1, MessageType::MissingMemberName, missing_member_name_text("variable"@)),
    ) {
        Some(m) => Err(m),
        None => match src.kind_at(pos + 2) {
            Token::Colon => match src.expect(
                pos + 3,
                Token::Identifier,
                src.failure(
                    pos + 3,
                    MessageType::MissingMemberType,
                    missing_member_type_text("variable"@),
                ),
            ) {
                Some(m) => Err(m),
                None => let_value_spec(
                    src,
                    pos,
                    Some(TypeView { name: src.slice_at(pos + 3) }),
                    pos + 4,
                ),
            },
            Token::Assign => let_value_spec(src, pos, None, pos + 2),
            _ => Err(
                src.failure(
                    pos + 2,
                    MessageType::MissingMemberTypeOrValueAssignment,
                    missing_member_type_or_value_assignment_text("variable"@),
                ),
            ),
        },
    }
}

/// The end of a declaration that started at `start`: the initializer, if
/// `=` stands at `pos`.
pub open spec fn let_value_spec(
    src: ParserView,
    start: nat,
    variable_type: Option<TypeView>,
    pos: nat,
) -> Step
    decreases src.tokens.len() - pos, 4nat,
{
    match src.suspect(pos, Token::Assign) {
        Err(m) => Err(m),
        Ok(false) => Ok(
            (
                ExpressionView::VariableDeclaration {
                    name: src.slice_at(start + 1),
                    variable_type,
                    value: None,
                    cursor: src.cursor_over(start, (pos - 1) as nat),
                },
                pos,
            ),
        ),
        Ok(true) => match statement_spec(src, pos + 1) {
            Err(m) => Err(m),
            Ok((value, next)) => Ok(
                (
                    ExpressionView::VariableDeclaration {
                        name: src.slice_at(start + 1),
                        variable_type,
                        value: Some(Box::new(value)),
                        cursor: src.cursor_over(start, (next - 1) as nat),
                    },
                    next,
                ),
            ),
        },
    }
}

/// Raw code; `raw` stands at `pos`. The statement behind it has to be a
/// string literal, whose contents are taken as they are.
pub open spec fn raw_spec(src: ParserView, pos: nat) -> Step
    decreases src.tokens.len() - pos, 4nat,
{
    if src.kind_at(pos) != Token::Raw {
        Err(src.failure(pos, MessageType::MissingExpression, missing_expression_text()))
    } else {
        match statement_spec(src, pos + 1) {
            Err(m) => Err(m),
            Ok((inner, next)) => match inner {
                ExpressionView::String(string, _) => Ok(
                    (
                        ExpressionView::RawCode {
                            string,
                            cursor: src.cursor_over(pos, (next - 1) as nat),
                        },
                        next,
                    ),
                ),
                _ => Err(
                    MessageView {
                        message_type: MessageType::MissingExpression,
                        details: missing_expression_text(),
                        cursor: inner.cursor(),
                    },
                ),
            },
        }
    }
}

/// The parameters of a declaration from `pos` on, behind those already
/// read: a closing parenthesis ends them, commas are passed over, and a
/// parameter is a name, a colon and a type.
pub open spec fn parameters_spec(src: ParserView, pos: nat, read: Seq<ParameterView>) -> Result<
    (Seq<ParameterView>, nat),
    MessageView,
>
    decreases src.tokens.len() - pos,
{
    match src.kind_at(pos) {
        Token::RightParen => Ok((read, pos + 1)),
        Token::Comma => parameters_spec(src, pos + 1, read),
        Token::Identifier => match src.expect(
            pos + 1,
            Token::Colon,
            src.failure(
                pos + 1,
                MessageType::MissingMemberType,
                missing_member_type_colon_text("parameter"@),
            ),
        ) {
            Some(m) => Err(m),
            None => match src.expect(
                pos + 2,
                Token::Identifier,
                src.failure(
                    pos + 2,
                    MessageType::MissingMemberType,
                    missing_member_type_text("parameter"@),
                ),
            ) {
                Some(m) => Err(m),
                None => parameters_spec(
                    src,
                    pos + 3,
                    read.push(
                        ParameterView {
                            name: src.slice_at(pos),
                            type_: TypeView { name: src.slice_at(pos + 2) },
                        },
                    ),
                ),
            },
        },
        _ => Err(
            src.failure(pos, MessageType::MissingMemberName, missing_member_name_text("parameter"@)),
        ),
    }
}

/// The return type of a declaration, if a colon stands at `pos`, and the
/// place behind it.
pub open spec fn return_type_spec(src: ParserView, pos: nat) -> Result<
    (Option<TypeView>, nat),
    MessageView,
> {
    match src.suspect(pos, Token::Colon) {
        Err(m) => Err(m),
        Ok(false) => Ok((None, pos)),
        Ok(true) => match src.expect(
            pos + 1,
            Token::Identifier,
            src.failure(pos + 1, MessageType::MissingMemberType, missing_member_type_text("return"@)),
        ) {
            Some(m) => Err(m),
            None => Ok((Some(TypeView { name: src.slice_at(pos + 1) }), pos + 2)),
        },
    }
}

/// The statements of a block behind those already read. Line breaks
/// separate statements. Behind line breaks a further statement is tried:
/// where it cannot be read the block's statements end there, at the place
/// behind the line breaks, and what the attempt passed over is given back.
pub open spec fn block_rest_spec(src: ParserView, read: Seq<ExpressionView>, pos: nat) -> (
    Seq<ExpressionView>,
    nat,
)
    decreases src.tokens.len() - pos, 6nat,
{
    if src.kind_at(pos) == Token::NewLine {
        let resumed = pos + 1 + src.newline_run(pos + 1);
        if src.advanced(pos, resumed) {
            match statement_spec(src, resumed) {
                Err(_) => (read, resumed),
                Ok((statement, next)) => if src.advanced(resumed, next) {
                    block_rest_spec(src, read.push(statement), next)
                } else {
                    (read, resumed)
                },
            }
        } else {
            (read, pos)
        }
    } else {
        (read, pos)
    }
}

/// The block of a declaration; its opening brace stands at `pos`. An empty
/// block is `{}`. Any other block starts with a statement; behind its
/// statements the closing brace has to follow.
pub open spec fn block_body_spec(src: ParserView, pos: nat) -> Result<
    (Seq<ExpressionView>, nat),
    MessageView,
>
    decreases src.tokens.len() - pos, 7nat,
{
    if src.kind_at(pos) != Token::LeftBrace {
        Err(src.failure(pos, MessageType::MissingBlock, missing_block_text()))
    } else if src.kind_at(pos + 1) == Token::RightBrace {
        Ok((Seq::empty(), pos + 2))
    } else {
        match statement_spec(src, pos + 1) {
            Err(m) => Err(m),
            Ok((first, next)) => if src.advanced(pos, next) {
                let (body, end) = block_rest_spec(src, seq![first], next);
                if src.kind_at(end) == Token::RightBrace {
                    Ok((body, end + 1))
                } else {
                    Err(
                        src.failure(
                            end,
                            MessageType::MissingBlockSeparatorOrClosure,
                            missing_block_separator_or_closure_text(),
                        ),
                    )
                }
            } else {
                Ok((Seq::empty(), pos))
            },
        }
    }
}

/// A declaration of a function; `function` stands at `pos`. A name
/// follows, the parameters in parentheses, a colon and the return type
/// where there is one, and the block.
pub open spec fn function_spec(src: ParserView, pos: nat) -> Step
    decreases src.tokens.len() - pos, 8nat,
{
    match src.expect(
        pos + 1,
        Token::Identifier,
        src.failure(pos + 1, MessageType::MissingMemberName, missing_member_name_text("function"@)),
    ) {
        Some(m) => Err(m),
        None => match src.expect(
            pos + 2,
            Token::LeftParen,
            src.failure(
                pos + 2,
                MessageType::MissingCase,
                missing_case_text("parameter declaration"@),
            ),
        ) {
            Some(m) => Err(m),
            None => match parameters_spec(src, pos + 3, Seq::empty()) {
                Err(m) => Err(m),
                Ok((parameters, behind_parameters)) => match return_type_spec(
                    src,
                    behind_parameters,
                ) {
                    Err(m) => Err(m),
                    Ok((return_type, brace)) => match src.expect(
                        brace,
                        Token::LeftBrace,
                        src.failure(brace, MessageType::MissingBlock, missing_block_text()),
                    ) {
                        Some(m) => Err(m),
                        None => if src.advanced(pos, brace) {
                            match block_body_spec(src, brace) {
                                Err(m) => Err(m),
                                Ok((body, next)) => Ok(
                                    (
                                        ExpressionView::FunctionDeclaration {
                                            name: src.slice_at(pos + 1),
                                            parameters,
                                            return_type,
                                            body,
                                            cursor: src.cursor_over(pos, (next - 1) as nat),
                                        },
                                        next,
                                    ),
                                ),
                            }
                        } else {
                            Err(src.illegal(pos))
                        },
                    },
                },
            },
        },
    }
}

/// A statement: a declaration of a variable, a declaration of a function,
/// raw code, or a sum.
pub open spec fn statement_spec(src: ParserView, pos: nat) -> Step
    decreases src.tokens.len() - pos, 9nat,
{
    match src.kind_at(pos) {
        Token::Let => let_spec(src, pos),
        Token::Function => function_spec(src, pos),
        Token::Raw => raw_spec(src, pos),
        _ => math_spec(src, pos),
    }
}

/// The statements of a program from `pos` on, behind those already read.
/// Behind every statement the text ends or at least one line break
/// follows; anything else is the separator diagnostic.
pub open spec fn program_rest_spec(src: ParserView, read: Seq<ExpressionView>, pos: nat)
    -> Result<Seq<ExpressionView>, MessageView>
    decreases src.tokens.len() - pos,
{
    if src.kind_at(pos) == Token::EoF {
        Ok(read)
    } else {
        match statement_spec(src, pos) {
            Err(m) => Err(m),
            Ok((statement, next)) => if src.advanced(pos, next) {
                match src.kind_at(next) {
                    Token::EoF => Ok(read.push(statement)),
                    Token::NewLine => if src.advanced(
                        next,
                        next + 1 + src.newline_run(next + 1),
                    ) {
                        program_rest_spec(
                            src,
                            read.push(statement),
                            next + 1 + src.newline_run(next + 1),
                        )
                    } else {
                        Ok(read)
                    },
                    _ => Err(
                        src.failure(
                            next,
                            MessageType::MissingBlockSeparatorOrClosure,
                            missing_block_separator_or_closure_text(),
                        ),
                    ),
                }
            } else {
                Ok(read)
            },
        }
    }
}

/// The parser of a text in a file of the given name.
pub open spec fn parser_of(file_name: Seq<char>, text: Seq<char>) -> ParserView {
    ParserView { file_name, text, tokens: tokens_of(text) }
}

/// The syntax tree of a text: its statements, or the first diagnostic.
pub open spec fn parse_spec(text: Seq<char>) -> Result<Seq<ExpressionView>, MessageView> {
    program_rest_spec(parser_of("<stdin>"@, text), Seq::empty(), 0)
}


/// Whether a step, where it succeeded, ended behind `pos` and before the
/// end of the lexemes.
pub open spec fn moved_on(src: ParserView, pos: nat, step: Step) -> bool {
    step matches Ok((_, next)) ==> pos < next < src.tokens.len()
}

/// Line breaks end before the last lexeme, which is `EoF`.
pub proof fn lemma_newline_run(src: ParserView, pos: nat)
    requires
        src.wf(),
        pos < src.tokens.len(),
    ensures
        pos + src.newline_run(pos) < src.tokens.len(),
        src.kind_at(pos + src.newline_run(pos)) != Token::NewLine,
    decreases src.tokens.len() - pos,
{
    if src.kind_at(pos) == Token::NewLine {
        lemma_newline_run(src, pos + 1);
    }
}

/// An atom that is read is at least one lexeme long and ends before `EoF`.
#[verifier::rlimit(50)]
pub proof fn lemma_atom_moves_on(src: ParserView, pos: nat)
    requires
        src.wf(),
        pos < src.tokens.len(),
    ensures
        moved_on(src, pos, atom_spec(src, pos)),
    decreases src.tokens.len() - pos, 1nat,
{
    match src.kind_at(pos) {
        Token::Identifier => {
            if src.kind_at(pos + 1) == Token::Assign {
                lemma_statement_moves_on(src, pos + 2);
            } else if src.kind_at(pos + 1) == Token::LeftParen {
                lemma_arguments_move_on(src, pos + 2, Seq::empty());
            }
        },
        Token::LeftParen => {
            lemma_statement_moves_on(src, pos + 1);
        },
        _ => {},
    }
}

/// The arguments of a call that are read end behind a closing parenthesis
/// and before `EoF`.
pub proof fn lemma_arguments_move_on(src: ParserView, pos: nat, read: Seq<ArgumentView>)
    requires
        src.wf(),
        pos < src.tokens.len(),
    ensures
        arguments_spec(src, pos, read) matches Ok((_, next)) ==> pos < next < src.tokens.len(),
    decreases src.tokens.len() - pos, 10nat,
{
    match src.kind_at(pos) {
        Token::RightParen => {},
        Token::Comma => {
            lemma_arguments_move_on(src, pos + 1, read);
        },
        _ => {
            lemma_statement_moves_on(src, pos);
            match statement_spec(src, pos) {
                Ok((expression, next)) => {
                    lemma_arguments_move_on(src, next, read.push(ArgumentView { expression }));
                },
                Err(_) => {},
            }
        },
    }
}

/// A term that is read is at least one lexeme long and ends before `EoF`.
pub proof fn lemma_term_moves_on(src: ParserView, pos: nat)
    requires
        src.wf(),
        pos < src.tokens.len(),
    ensures
        moved_on(src, pos, term_spec(src, pos)),
    decreases src.tokens.len() - pos, 2nat,
{
    lemma_atom_moves_on(src, pos);
    match atom_spec(src, pos) {
        Ok((left, next)) => {
            lemma_term_rest_moves_on(src, pos, left, next);
        },
        Err(_) => {},
    }
}

/// The rest of a term ends at or behind the place it starts from, and
/// before `EoF`.
pub proof fn lemma_term_rest_moves_on(src: ParserView, start: nat, left: ExpressionView, pos: nat)
    requires
        src.wf(),
        pos < src.tokens.len(),
    ensures
        term_rest_spec(src, start, left, pos) matches Ok((_, next)) ==> pos <= next
            < src.tokens.len(),
    decreases src.tokens.len() - pos, 0nat,
{
    let operator = src.kind_at(pos);
    if operator == Token::Asterisk || operator == Token::Slash {
        lemma_atom_moves_on(src, pos + 1);
        match atom_spec(src, pos + 1) {
            Ok((right, next)) => {
                lemma_term_rest_moves_on(
                    src,
                    start,
                    binary_node(operator, left, right, src.cursor_over(start, (next - 1) as nat)),
                    next,
                );
            },
            Err(_) => {},
        }
    }
}

/// A sum that is read is at least one lexeme long and ends before `EoF`.
pub proof fn lemma_math_moves_on(src: ParserView, pos: nat)
    requires
        src.wf(),
        pos < src.tokens.len(),
    ensures
        moved_on(src, pos, math_spec(src, pos)),
    decreases src.tokens.len() - pos, 3nat,
{
    lemma_term_moves_on(src, pos);
    match term_spec(src, pos) {
        Ok((left, next)) => {
            lemma_math_rest_moves_on(src, pos, left, next);
        },
        Err(_) => {},
    }
}

/// The rest of a sum ends at or behind the place it starts from, and
/// before `EoF`.
pub proof fn lemma_math_rest_moves_on(src: ParserView, start: nat, left: ExpressionView, pos: nat)
    requires
        src.wf(),
        pos < src.tokens.len(),
    ensures
        math_rest_spec(src, start, left, pos) matches Ok((_, next)) ==> pos <= next
            < src.tokens.len(),
    decreases src.tokens.len() - pos, 0nat,
{
    let operator = src.kind_at(pos);
    if operator == Token::Plus || operator == Token::Minus {
        lemma_term_moves_on(src, pos + 1);
        match term_spec(src, pos + 1) {
            Ok((right, next)) => {
                lemma_math_rest_moves_on(
                    src,
                    start,
                    binary_node(operator, left, right, src.cursor_over(start, (next - 1) as nat)),
                    next,
                );
            },
            Err(_) => {},
        }
    }
}

/// A declaration of a variable that is read ends behind its `let` and
/// before `EoF`.
pub proof fn lemma_let_moves_on(src: ParserView, pos: nat)
    requires
        src.wf(),
        pos < src.tokens.len(),
        src.kind_at(pos) == Token::Let,
    ensures
        moved_on(src, pos, let_spec(src, pos)),
    decreases src.tokens.len() - pos, 4nat,
{
    if src.kind_at(pos + 1) == Token::Identifier {
        if src.kind_at(pos + 2) == Token::Colon {
            if src.kind_at(pos + 3) == Token::Identifier {
                lemma_let_value_moves_on(
                    src,
                    pos,
                    Some(TypeView { name: src.slice_at(pos + 3) }),
                    pos + 4,
                );
            }
        } else if src.kind_at(pos + 2) == Token::Assign {
            lemma_let_value_moves_on(src, pos, None, pos + 2);
        }
    }
}

/// The end of a declaration ends at or behind the place it starts from,
/// and before `EoF`.
pub proof fn lemma_let_value_moves_on(
    src: ParserView,
    start: nat,
    variable_type: Option<TypeView>,
    pos: nat,
)
    requires
        src.wf(),
        pos < src.tokens.len(),
    ensures
        let_value_spec(src, start, variable_type, pos) matches Ok((_, next)) ==> pos <= next
            < src.tokens.len(),
    decreases src.tokens.len() - pos, 4nat,
{
    if src.kind_at(pos) == Token::Assign {
        lemma_statement_moves_on(src, pos + 1);
    }
}

/// Raw code that is read ends behind its `raw` and before `EoF`.
pub proof fn lemma_raw_moves_on(src: ParserView, pos: nat)
    requires
        src.wf(),
        pos < src.tokens.len(),
        src.kind_at(pos) == Token::Raw,
    ensures
        moved_on(src, pos, raw_spec(src, pos)),
    decreases src.tokens.len() - pos, 4nat,
{
    lemma_statement_moves_on(src, pos + 1);
}

/// The parameters of a declaration that are read end behind a closing
/// parenthesis and before `EoF`.
pub proof fn lemma_parameters_move_on(src: ParserView, pos: nat, read: Seq<ParameterView>)
    requires
        src.wf(),
        pos < src.tokens.len(),
    ensures
        parameters_spec(src, pos, read) matches Ok((_, next)) ==> pos < next < src.tokens.len(),
    decreases src.tokens.len() - pos,
{
    match src.kind_at(pos) {
        Token::Comma => {
            lemma_parameters_move_on(src, pos + 1, read);
        },
        Token::Identifier => {
            if src.kind_at(pos + 1) == Token::Colon && src.kind_at(pos + 2) == Token::Identifier {
                lemma_parameters_move_on(
                    src,
                    pos + 3,
                    read.push(
                        ParameterView {
                            name: src.slice_at(pos),
                            type_: TypeView { name: src.slice_at(pos + 2) },
                        },
                    ),
                );
            }
        },
        _ => {},
    }
}

/// The statements of a block end at or behind the place they are read
/// from, before `EoF`, and not at a line break.
pub proof fn lemma_block_rest_moves_on(src: ParserView, read: Seq<ExpressionView>, pos: nat)
    requires
        src.wf(),
        pos < src.tokens.len(),
    ensures
        pos <= block_rest_spec(src, read, pos).1 < src.tokens.len(),
        src.kind_at(block_rest_spec(src, read, pos).1) != Token::NewLine,
    decreases src.tokens.len() - pos, 6nat,
{
    if src.kind_at(pos) == Token::NewLine {
        lemma_newline_run(src, pos + 1);
        let resumed = pos + 1 + src.newline_run(pos + 1);
        lemma_statement_moves_on(src, resumed);
        match statement_spec(src, resumed) {
            Ok((statement, next)) => {
                lemma_block_rest_moves_on(src, read.push(statement), next);
            },
            Err(_) => {},
        }
    }
}

/// A block that is read ends behind its closing brace and before `EoF`.
pub proof fn lemma_block_body_moves_on(src: ParserView, pos: nat)
    requires
        src.wf(),
        pos < src.tokens.len(),
        src.kind_at(pos) == Token::LeftBrace,
    ensures
        block_body_spec(src, pos) matches Ok((_, next)) ==> pos < next < src.tokens.len(),
    decreases src.tokens.len() - pos, 7nat,
{
    if src.kind_at(pos + 1) != Token::RightBrace {
        lemma_statement_moves_on(src, pos + 1);
        match statement_spec(src, pos + 1) {
            Ok((first, next)) => {
                lemma_block_rest_moves_on(src, seq![first], next);
            },
            Err(_) => {},
        }
    }
}

/// A declaration of a function that is read ends behind its block and
/// before `EoF`.
pub proof fn lemma_function_moves_on(src: ParserView, pos: nat)
    requires
        src.wf(),
        pos < src.tokens.len(),
        src.kind_at(pos) == Token::Function,
    ensures
        moved_on(src, pos, function_spec(src, pos)),
    decreases src.tokens.len() - pos, 8nat,
{
    if src.kind_at(pos + 1) == Token::Identifier && src.kind_at(pos + 2) == Token::LeftParen {
        lemma_parameters_move_on(src, pos + 3, Seq::empty());
        match parameters_spec(src, pos + 3, Seq::empty()) {
            Ok((parameters, behind_parameters)) => {
                match return_type_spec(src, behind_parameters) {
                    Ok((return_type, brace)) => {
                        if src.kind_at(brace) == Token::LeftBrace {
                            lemma_block_body_moves_on(src, brace);
                        }
                    },
                    Err(_) => {},
                }
            },
            Err(_) => {},
        }
    }
}

/// A statement that is read is at least one lexeme long and ends before
/// `EoF`: no successful step stands still, and none reads past the end.
pub proof fn lemma_statement_moves_on(src: ParserView, pos: nat)
    requires
        src.wf(),
        pos < src.tokens.len(),
    ensures
        moved_on(src, pos, statement_spec(src, pos)),
    decreases src.tokens.len() - pos, 9nat,
{
    match src.kind_at(pos) {
        Token::Let => lemma_let_moves_on(src, pos),
        Token::Function => lemma_function_moves_on(src, pos),
        Token::Raw => lemma_raw_moves_on(src, pos),
        _ => lemma_math_moves_on(src, pos),
    }
}

/// The view of what a parsing step returns.
pub open spec fn step_view(r: Result<(Expression, usize), Message>) -> Step {
    match r {
        Ok((expression, next)) => Ok((expression@, next as nat)),
        Err(m) => Err(m@),
    }
}

/// The view of what reading the arguments of a call returns.
pub open spec fn arguments_view(r: Result<(Vec<Argument>, usize), Message>) -> Result<
    (Seq<ArgumentView>, nat),
    MessageView,
> {
    match r {
        Ok((arguments, next)) => Ok((argument_views(arguments@), next as nat)),
        Err(m) => Err(m@),
    }
}

/// The view of what reading the parameters of a declaration returns.
pub open spec fn parameters_view(r: Result<(Vec<Parameter>, usize), Message>) -> Result<
    (Seq<ParameterView>, nat),
    MessageView,
> {
    match r {
        Ok((parameters, next)) => Ok((parameter_views(parameters@), next as nat)),
        Err(m) => Err(m@),
    }
}

/// The view of what reading a return type returns.
pub open spec fn return_type_view(r: Result<(Option<Type>, usize), Message>) -> Result<
    (Option<TypeView>, nat),
    MessageView,
> {
    match r {
        Ok((return_type, next)) => Ok((crate::ast::type_view(return_type), next as nat)),
        Err(m) => Err(m@),
    }
}

/// The view of what reading a block returns.
pub open spec fn body_view(r: Result<(Vec<Expression>, usize), Message>) -> Result<
    (Seq<ExpressionView>, nat),
    MessageView,
> {
    match r {
        Ok((body, next)) => Ok((block_view(body@), next as nat)),
        Err(m) => Err(m@),
    }
}

/// The view of what parsing a text returns.
pub open spec fn parsed_view(r: Result<Vec<Expression>, Message>) -> Result<
    Seq<ExpressionView>,
    MessageView,
> {
    match r {
        Ok(statements) => Ok(block_view(statements@)),
        Err(m) => Err(m@),
    }
}

/// The view of what the hard check returns.
pub open spec fn expect_view(r: Result<Token, Message>) -> Option<MessageView> {
    match r {
        Ok(_) => None,
        Err(m) => Some(m@),
    }
}

/// The view of what the soft check for a name returns.
pub open spec fn name_view(r: Result<Option<String>, Message>) -> Result<
    Option<Seq<char>>,
    MessageView,
> {
    match r {
        Ok(Some(name)) => Ok(Some(name@)),
        Ok(None) => Ok(None),
        Err(m) => Err(m@),
    }
}

/// The view of what the hard check for a name returns.
pub open spec fn expected_name_view(r: Result<String, Message>) -> Result<Seq<char>, MessageView> {
    match r {
        Ok(name) => Ok(name@),
        Err(m) => Err(m@),
    }
}

/// The view of what the soft check returns.
pub open spec fn suspect_view(r: Result<Option<Token>, Message>) -> Result<bool, MessageView> {
    match r {
        Ok(found) => Ok(found is Some),
        Err(m) => Err(m@),
    }
}

/// A text, cut into lexemes, ready to be parsed.
pub struct Parser {
    pub file_name: String,
    pub text: String,
    pub tokens: Vec<Lexeme>,
}

impl View for Parser {
    type V = ParserView;

    open spec fn view(&self) -> ParserView {
        ParserView { file_name: self.file_name@, text: self.text@, tokens: self.tokens@ }
    }
}

impl Parser {
    /// Cuts `text` into lexemes.
    pub fn new(file_name: &str, text: &str) -> (parser: Parser)
        requires
            text@.len() < usize::MAX,
        ensures
            parser@ == parser_of(file_name@, text@),
            parser@.wf(),
    {
        proof {
            lemma_tokens_from(text@, 0);
        }
        Parser { file_name: file_name.to_owned(), text: text.to_owned(), tokens: tokenize(text) }
    }

    /// The kind of the lexeme at `pos`; `EoF` behind the last one.
    pub fn kind(&self, pos: usize) -> (token: Token)
        ensures
            token == self@.kind_at(pos as nat),
    {
        if pos < self.tokens.len() {
            self.tokens[pos].token
        } else {
            Token::EoF
        }
    }

    /// The text of the lexeme at `pos`.
    pub fn slice(&self, pos: usize) -> (s: String)
        requires
            self@.wf(),
            pos < self.tokens.len(),
        ensures
            s@ == self@.slice_at(pos as nat),
    {
        let lexeme = self.tokens[pos];
        slice_text(self.text.as_str(), lexeme.start, lexeme.end)
    }

    /// The span from the start of one lexeme to the end of another.
    pub fn cursor_over(&self, first: usize, last: usize) -> (c: Cursor)
        requires
            self@.wf(),
            first < self.tokens.len(),
            last < self.tokens.len(),
        ensures
            c@ == self@.cursor_over(first as nat, last as nat),
    {
        Cursor::spanning(
            self.file_name.as_str(),
            self.text.as_str(),
            self.tokens[first].start,
            self.tokens[last].end,
        )
    }

    /// A diagnostic that points at the lexeme at `pos`.
    pub fn fail(&self, pos: usize, message_type: MessageType, details: String) -> (m: Message)
        requires
            self@.wf(),
            pos < self.tokens.len(),
        ensures
            m@ == self@.failure(pos as nat, message_type, details@),
    {
        Message::error(message_type, details.as_str(), self.cursor_over(pos, pos))
    }

    /// The diagnostic for an illegal character at `pos`.
    pub fn illegal(&self, pos: usize) -> (m: Message)
        requires
            self@.wf(),
            pos < self.tokens.len(),
        ensures
            m@ == self@.illegal(pos as nat),
    {
        let slice = self.slice(pos);
        self.fail(pos, MessageType::IllegalCharacter, illegal_character(slice.as_str()))
    }

    /// The soft check: whether the lexeme at `pos` is of the given kind.
    pub fn suspect(&self, pos: usize, token: Token) -> (r: Result<Option<Token>, Message>)
        requires
            self@.wf(),
        ensures
            suspect_view(r) == self@.suspect(pos as nat, token),
    {
        let current = self.kind(pos);
        if current == token {
            Ok(Some(current))
        } else if current == Token::Error {
            Err(self.illegal(pos))
        } else {
            Ok(None)
        }
    }

    /// The hard check: the lexeme at `pos` has to be of the given kind.
    pub fn expect(&self, pos: usize, token: Token, error: Message) -> (r: Result<Token, Message>)
        requires
            self@.wf(),
        ensures
            expect_view(r) == self@.expect(pos as nat, token, error@),
    {
        let current = self.kind(pos);
        if current == token {
            Ok(current)
        } else if current == Token::Error {
            Err(self.illegal(pos))
        } else {
            Err(error)
        }
    }

    /// The soft check for a name.
    pub fn suspect_identifier(&self, pos: usize) -> (r: Result<Option<String>, Message>)
        requires
            self@.wf(),
        ensures
            name_view(r) == self@.suspect_identifier(pos as nat),
    {
        match self.suspect(pos, Token::Identifier) {
            Err(m) => Err(m),
            Ok(None) => Ok(None),
            Ok(Some(_)) => Ok(Some(self.slice(pos))),
        }
    }

    /// The soft check, and the place to go on from: behind the lexeme where
    /// it is of the given kind, else where it stands.
    pub fn suspect_and_advance(&self, pos: usize, token: Token) -> (r: (
        Result<Option<Token>, Message>,
        usize,
    ))
        requires
            self@.wf(),
            pos < self.tokens.len(),
        ensures
            suspect_view(r.0) == self@.suspect(pos as nat, token),
            r.1 == self@.behind_suspected(pos as nat, token),
    {
        let out = self.suspect(pos, token);
        match out {
            Ok(Some(found)) => (Ok(Some(found)), pos + 1),
            other => (other, pos),
        }
    }

    /// The soft check for a name, and the place to go on from.
    pub fn suspect_identifier_and_advance(&self, pos: usize) -> (r: (
        Result<Option<String>, Message>,
        usize,
    ))
        requires
            self@.wf(),
            pos < self.tokens.len(),
        ensures
            name_view(r.0) == self@.suspect_identifier(pos as nat),
            r.1 == self@.behind_suspected(pos as nat, Token::Identifier),
    {
        let out = self.suspect_identifier(pos);
        match out {
            Ok(Some(name)) => (Ok(Some(name)), pos + 1),
            other => (other, pos),
        }
    }

    /// The hard check for a name.
    pub fn expect_identifier(&self, pos: usize, error: Message) -> (r: Result<String, Message>)
        requires
            self@.wf(),
        ensures
            expected_name_view(r) == self@.expect_identifier(pos as nat, error@),
    {
        match self.expect(pos, Token::Identifier, error) {
            Err(m) => Err(m),
            Ok(_) => Ok(self.slice(pos)),
        }
    }

    /// The hard check, and the place behind the lexeme.
    pub fn expect_and_advance(&self, pos: usize, token: Token, error: Message) -> (r: (
        Result<Token, Message>,
        usize,
    ))
        requires
            self@.wf(),
            pos < self.tokens.len(),
        ensures
            expect_view(r.0) == self@.expect(pos as nat, token, error@),
            r.1 == pos + 1,
    {
        let out = self.expect(pos, token, error);
        (out, pos + 1)
    }

    /// The hard check for a name, and the place behind the lexeme.
    pub fn expect_identifier_and_advance(&self, pos: usize, error: Message) -> (r: (
        Result<String, Message>,
        usize,
    ))
        requires
            self@.wf(),
            pos < self.tokens.len(),
        ensures
            expected_name_view(r.0) == self@.expect_identifier(pos as nat, error@),
            r.1 == pos + 1,
    {
        let out = self.expect_identifier(pos, error);
        (out, pos + 1)
    }

    /// The place behind the line breaks that follow each other from `pos`
    /// on.
    pub fn skip_newlines(&self, pos: usize) -> (next: usize)
        requires
            self@.wf(),
            pos < self.tokens.len(),
        ensures
            next == pos + self@.newline_run(pos as nat),
            next < self.tokens.len(),
            self@.kind_at(next as nat) != Token::NewLine,
    {
        let mut next = pos;
        while self.kind(next) == Token::NewLine
            invariant
                self@.wf(),
                pos <= next < self.tokens.len(),
                pos + self@.newline_run(pos as nat) == next + self@.newline_run(next as nat),
            decreases self.tokens.len() - next,
        {
            next += 1;
        }
        next
    }

    /// Reads an integer literal, which stands at `pos`.
    #[verifier::rlimit(50)]
    fn integer_atom(&self, pos: usize) -> (r: Result<(Expression, usize), Message>)
        requires
            self@.wf(),
            pos < self.tokens.len(),
            self@.kind_at(pos as nat) == Token::Integer,
        ensures
            step_view(r) == atom_spec(self@, pos as nat),
            r matches Ok((_, next)) ==> pos < next < self.tokens.len(),
    {
        let slice = self.slice(pos);
        match integer_of(slice.as_str()) {
            Some(value) => Ok((Expression::Integer(value, self.cursor_over(pos, pos)), pos + 1)),
            None => Err(
                self.fail(pos, MessageType::IntegerBoundsExceeded, integer_bounds_exceeded(32)),
            ),
        }
    }

    /// Reads a string literal, which stands at `pos`.
    #[verifier::rlimit(50)]
    fn string_atom(&self, pos: usize) -> (r: Result<(Expression, usize), Message>)
        requires
            self@.wf(),
            pos < self.tokens.len(),
            self@.kind_at(pos as nat) == Token::String,
        ensures
            step_view(r) == atom_spec(self@, pos as nat),
            r matches Ok((_, next)) ==> pos < next < self.tokens.len(),
    {
        let slice = self.slice(pos);
        let contents = if slice.as_str().unicode_len() >= 2 {
            to_string(slice.as_str())
        } else {
            String::new()
        };
        Ok((Expression::String(contents, self.cursor_over(pos, pos)), pos + 1))
    }

    /// Reads what starts with the name at `pos`: an assignment, a call or
    /// the use of a variable.
    #[verifier::rlimit(50)]
    fn name_atom(&self, pos: usize) -> (r: Result<(Expression, usize), Message>)
        requires
            self@.wf(),
            pos < self.tokens.len(),
            self@.kind_at(pos as nat) == Token::Identifier,
        ensures
            step_view(r) == atom_spec(self@, pos as nat),
            r matches Ok((_, next)) ==> pos < next < self.tokens.len(),
        decreases self.tokens.len() - pos, 0nat,
    {
        let name = self.slice(pos);
        if self.kind(pos + 1) == Token::Assign {
            match self.statement(pos + 2) {
                Err(m) => Err(m),
                Ok((value, next)) => {
                    let cursor = self.cursor_over(pos, next - 1);
                    Ok((Expression::VariableAssign { name, value: Box::new(value), cursor }, next))
                },
            }
        } else if self.kind(pos + 1) == Token::LeftParen {
            match self.arguments(pos + 2) {
                Err(m) => Err(m),
                Ok((arguments, next)) => {
                    let cursor = self.cursor_over(pos, next - 1);
                    let call = Expression::FunctionCall { name, arguments, cursor };
                    proof {
                        crate::ast::lemma_body_view(call);
                    }
                    Ok((call, next))
                },
            }
        } else {
            Ok((Expression::VariableAccess(name, self.cursor_over(pos, pos)), pos + 1))
        }
    }

    /// Reads a statement in parentheses; the opening one stands at `pos`.
    #[verifier::rlimit(50)]
    fn group_atom(&self, pos: usize) -> (r: Result<(Expression, usize), Message>)
        requires
            self@.wf(),
            pos < self.tokens.len(),
            self@.kind_at(pos as nat) == Token::LeftParen,
        ensures
            step_view(r) == atom_spec(self@, pos as nat),
            r matches Ok((_, next)) ==> pos < next < self.tokens.len(),
        decreases self.tokens.len() - pos, 0nat,
    {
        match self.statement(pos + 1) {
            Err(m) => Err(m),
            Ok((inner, next)) => {
                let error = self.fail(next, MessageType::MissingCaseClosure, missing_case_closure());
                match self.expect(next, Token::RightParen, error) {
                    Err(m) => Err(m),
                    Ok(_) => Ok((inner, next + 1)),
                }
            },
        }
    }

    /// Reads an atom.
    #[verifier::rlimit(50)]
    pub fn atom(&self, pos: usize) -> (r: Result<(Expression, usize), Message>)
        requires
            self@.wf(),
            pos < self.tokens.len(),
        ensures
            step_view(r) == atom_spec(self@, pos as nat),
            r matches Ok((_, next)) ==> pos < next < self.tokens.len(),
        decreases self.tokens.len() - pos, 1nat,
    {
        match self.kind(pos) {
            Token::Integer => self.integer_atom(pos),
            Token::String => self.string_atom(pos),
            Token::Identifier => self.name_atom(pos),
            Token::LeftParen => self.group_atom(pos),
            Token::Error => Err(self.illegal(pos)),
            _ => Err(self.fail(pos, MessageType::MissingExpression, missing_expression())),
        }
    }

    /// Reads the arguments of a call; `pos` is the place behind the
    /// opening parenthesis.
    #[verifier::rlimit(50)]
    pub fn arguments(&self, pos: usize) -> (r: Result<(Vec<Argument>, usize), Message>)
        requires
            self@.wf(),
            pos < self.tokens.len(),
        ensures
            arguments_view(r) == arguments_spec(self@, pos as nat, Seq::empty()),
            r matches Ok((_, next)) ==> pos < next < self.tokens.len(),
        decreases self.tokens.len() - pos, 10nat,
    {
        let mut arguments: Vec<Argument> = Vec::new();
        let mut at = pos;
        assert(argument_views(arguments@) =~= Seq::empty());
        loop
            invariant
                self@.wf(),
                pos <= at < self.tokens.len(),
                arguments_spec(self@, at as nat, argument_views(arguments@)) == arguments_spec(
                    self@,
                    pos as nat,
                    Seq::empty(),
                ),
            decreases self.tokens.len() - at,
        {
            match self.kind(at) {
                Token::RightParen => {
                    return Ok((arguments, at + 1));
                },
                Token::Comma => {
                    at += 1;
                },
                _ => match self.statement(at) {
                    Err(m) => {
                        return Err(m);
                    },
                    Ok((expression, next)) => {
                        let ghost before = argument_views(arguments@);
                        let ghost added = expression@;
                        arguments.push(Argument { expression });
                        assert(argument_views(arguments@) =~= before.push(
                            ArgumentView { expression: added },
                        ));
                        at = next;
                    },
                },
            }
        }
    }

    /// Reads a term: atoms joined by `*` and `/`.
    #[verifier::rlimit(50)]
    pub fn math_expr_1(&self, pos: usize) -> (r: Result<(Expression, usize), Message>)
        requires
            self@.wf(),
            pos < self.tokens.len(),
        ensures
            step_view(r) == term_spec(self@, pos as nat),
            r matches Ok((_, next)) ==> pos < next < self.tokens.len(),
        decreases self.tokens.len() - pos, 2nat,
    {
        let (mut left, mut at) = match self.atom(pos) {
            Err(m) => {
                return Err(m);
            },
            Ok(step) => step,
        };
        loop
            invariant
                self@.wf(),
                pos < at < self.tokens.len(),
                term_rest_spec(self@, pos as nat, left@, at as nat) == term_spec(self@, pos as nat),
            decreases self.tokens.len() - at,
        {
            let operator = self.kind(at);
            if !(operator == Token::Asterisk || operator == Token::Slash) {
                return Ok((left, at));
            }
            match self.atom(at + 1) {
                Err(m) => {
                    return Err(m);
                },
                Ok((right, next)) => {
                    let cursor = self.cursor_over(pos, next - 1);
                    left = if operator == Token::Asterisk {
                        Expression::Multiplication {
                            left: Box::new(left),
                            right: Box::new(right),
                            cursor,
                        }
                    } else {
                        Expression::Division { left: Box::new(left), right: Box::new(right), cursor }
                    };
                    at = next;
                },
            }
        }
    }

    /// Reads a sum: terms joined by `+` and `-`.
    #[verifier::rlimit(50)]
    pub fn math_expr_2(&self, pos: usize) -> (r: Result<(Expression, usize), Message>)
        requires
            self@.wf(),
            pos < self.tokens.len(),
        ensures
            step_view(r) == math_spec(self@, pos as nat),
            r matches Ok((_, next)) ==> pos < next < self.tokens.len(),
        decreases self.tokens.len() - pos, 3nat,
    {
        let (mut left, mut at) = match self.math_expr_1(pos) {
            Err(m) => {
                return Err(m);
            },
            Ok(step) => step,
        };
        loop
            invariant
                self@.wf(),
                pos < at < self.tokens.len(),
                math_rest_spec(self@, pos as nat, left@, at as nat) == math_spec(self@, pos as nat),
            decreases self.tokens.len() - at,
        {
            let operator = self.kind(at);
            if !(operator == Token::Plus || operator == Token::Minus) {
                return Ok((left, at));
            }
            match self.math_expr_1(at + 1) {
                Err(m) => {
                    return Err(m);
                },
                Ok((right, next)) => {
                    let cursor = self.cursor_over(pos, next - 1);
                    left = if operator == Token::Plus {
                        Expression::Addition { left: Box::new(left), right: Box::new(right), cursor }
                    } else {
                        Expression::Subtraction {
                            left: Box::new(left),
                            right: Box::new(right),
                            cursor,
                        }
                    };
                    at = next;
                },
            }
        }
    }

    /// Reads the declaration of a variable; `let` stands at `pos`.
    #[verifier::rlimit(50)]
    pub fn parse_let(&self, pos: usize) -> (r: Result<(Expression, usize), Message>)
        requires
            self@.wf(),
            pos < self.tokens.len(),
            self@.kind_at(pos as nat) == Token::Let,
        ensures
            step_view(r) == let_spec(self@, pos as nat),
            r matches Ok((_, next)) ==> pos < next < self.tokens.len(),
        decreases self.tokens.len() - pos, 4nat,
    {
        let error = self.fail(pos + 1, MessageType::MissingMemberName, missing_member_name("variable"));
        let (name, behind_name) = match self.expect_identifier_and_advance(pos + 1, error) {
            (Err(m), _) => {
                return Err(m);
            },
            (Ok(name), behind) => (name, behind),
        };
        let (variable_type, at) = match self.kind(behind_name) {
            Token::Colon => {
                let error = self.fail(
                    behind_name + 1,
                    MessageType::MissingMemberType,
                    missing_member_type("variable"),
                );
                match self.expect_identifier_and_advance(behind_name + 1, error) {
                    (Err(m), _) => {
                        return Err(m);
                    },
                    (Ok(name), behind) => (Some(Type { name }), behind),
                }
            },
            Token::Assign => (None, behind_name),
            _ => {
                return Err(
                    self.fail(
                        pos + 2,
                        MessageType::MissingMemberTypeOrValueAssignment,
                        missing_member_type_or_value_assignment("variable"),
                    ),
                );
            },
        };
        self.let_value(pos, name, variable_type, at)
    }

    /// Reads the end of a declaration that started at `start`: the
    /// initializer, if `=` stands at `pos`.
    #[verifier::rlimit(50)]
    fn let_value(&self, start: usize, name: String, variable_type: Option<Type>, pos: usize) -> (r:
        Result<(Expression, usize), Message>)
        requires
            self@.wf(),
            start + 1 < pos < self.tokens.len(),
            name@ == self@.slice_at((start + 1) as nat),
        ensures
            step_view(r) == let_value_spec(
                self@,
                start as nat,
                crate::ast::type_view(variable_type),
                pos as nat,
            ),
            r matches Ok((_, next)) ==> start < next < self.tokens.len(),
        decreases self.tokens.len() - pos, 4nat,
    {
        match self.suspect(pos, Token::Assign) {
            Err(m) => Err(m),
            Ok(None) => {
                let cursor = self.cursor_over(start, pos - 1);
                Ok((Expression::VariableDeclaration { name, variable_type, value: None, cursor }, pos))
            },
            Ok(Some(_)) => match self.statement(pos + 1) {
                Err(m) => Err(m),
                Ok((value, next)) => {
                    let cursor = self.cursor_over(start, next - 1);
                    Ok(
                        (
                            Expression::VariableDeclaration {
                                name,
                                variable_type,
                                value: Some(Box::new(value)),
                                cursor,
                            },
                            next,
                        ),
                    )
                },
            },
        }
    }

    /// Reads raw code; `raw` stands at `pos`.
    #[verifier::rlimit(50)]
    pub fn parse_raw(&self, pos: usize) -> (r: Result<(Expression, usize), Message>)
        requires
            self@.wf(),
            pos < self.tokens.len(),
            self@.kind_at(pos as nat) == Token::Raw,
        ensures
            step_view(r) == raw_spec(self@, pos as nat),
            r matches Ok((_, next)) ==> pos < next < self.tokens.len(),
        decreases self.tokens.len() - pos, 4nat,
    {
        match self.statement(pos + 1) {
            Err(m) => Err(m),
            Ok((inner, next)) => match inner {
                Expression::String(string, _) => {
                    let cursor = self.cursor_over(pos, next - 1);
                    Ok((Expression::RawCode { string, cursor }, next))
                },
                other => {
                    let details = missing_expression();
                    Err(
                        Message::error(
                            MessageType::MissingExpression,
                            details.as_str(),
                            other.get_cursor().clone(),
                        ),
                    )
                },
            },
        }
    }

    /// Reads the parameters of a declaration; `pos` is the place behind the
    /// opening parenthesis.
    #[verifier::rlimit(50)]
    pub fn parameters(&self, pos: usize) -> (r: Result<(Vec<Parameter>, usize), Message>)
        requires
            self@.wf(),
            pos < self.tokens.len(),
        ensures
            parameters_view(r) == parameters_spec(self@, pos as nat, Seq::empty()),
            r matches Ok((_, next)) ==> pos < next < self.tokens.len(),
    {
        let mut parameters: Vec<Parameter> = Vec::new();
        let mut at = pos;
        assert(parameter_views(parameters@) =~= Seq::empty());
        loop
            invariant
                self@.wf(),
                pos <= at < self.tokens.len(),
                parameters_spec(self@, at as nat, parameter_views(parameters@)) == parameters_spec(
                    self@,
                    pos as nat,
                    Seq::empty(),
                ),
            decreases self.tokens.len() - at,
        {
            match self.kind(at) {
                Token::RightParen => {
                    return Ok((parameters, at + 1));
                },
                Token::Comma => {
                    at += 1;
                },
                Token::Identifier => {
                    let name = self.slice(at);
                    let error = self.fail(
                        at + 1,
                        MessageType::MissingMemberType,
                        missing_member_type_colon("parameter"),
                    );
                    let behind_colon = match self.expect_and_advance(at + 1, Token::Colon, error) {
                        (Err(m), _) => {
                            return Err(m);
                        },
                        (Ok(_), behind) => behind,
                    };
                    let error = self.fail(
                        behind_colon,
                        MessageType::MissingMemberType,
                        missing_member_type("parameter"),
                    );
                    let type_ = match self.expect_identifier_and_advance(behind_colon, error) {
                        (Err(m), _) => {
                            return Err(m);
                        },
                        (Ok(name), _) => Type { name },
                    };
                    let ghost before = parameter_views(parameters@);
                    let parameter = Parameter { name, type_ };
                    let ghost added = parameter@;
                    parameters.push(parameter);
                    assert(parameter_views(parameters@) =~= before.push(added));
                    at += 3;
                },
                _ => {
                    return Err(
                        self.fail(
                            at,
                            MessageType::MissingMemberName,
                            missing_member_name("parameter"),
                        ),
                    );
                },
            }
        }
    }

    /// Reads the return type of a declaration, if a colon stands at `pos`.
    #[verifier::rlimit(50)]
    pub fn return_type(&self, pos: usize) -> (r: Result<(Option<Type>, usize), Message>)
        requires
            self@.wf(),
            pos < self.tokens.len(),
        ensures
            return_type_view(r) == return_type_spec(self@, pos as nat),
            r matches Ok((_, next)) ==> pos <= next < self.tokens.len(),
    {
        match self.suspect(pos, Token::Colon) {
            Err(m) => Err(m),
            Ok(None) => Ok((None, pos)),
            Ok(Some(_)) => {
                let error = self.fail(
                    pos + 1,
                    MessageType::MissingMemberType,
                    missing_member_type("return"),
                );
                match self.expect_identifier_and_advance(pos + 1, error) {
                    (Err(m), _) => Err(m),
                    (Ok(name), behind) => Ok((Some(Type { name }), behind)),
                }
            },
        }
    }

    /// Reads the block of a declaration; its opening brace stands at `pos`.
    #[verifier::rlimit(50)]
    pub fn block(&self, pos: usize) -> (r: Result<(Vec<Expression>, usize), Message>)
        requires
            self@.wf(),
            pos < self.tokens.len(),
            self@.kind_at(pos as nat) == Token::LeftBrace,
        ensures
            body_view(r) == block_body_spec(self@, pos as nat),
            r matches Ok((_, next)) ==> pos < next < self.tokens.len(),
        decreases self.tokens.len() - pos, 7nat,
    {
        let mut body: Vec<Expression> = Vec::new();
        if self.kind(pos + 1) == Token::RightBrace {
            assert(block_view(body@) =~= Seq::empty());
            return Ok((body, pos + 2));
        }
        let mut at = match self.statement(pos + 1) {
            Err(m) => {
                return Err(m);
            },
            Ok((first, next)) => {
                let ghost added = first@;
                body.push(first);
                assert(block_view(body@) =~= seq![added]);
                next
            },
        };
        let ghost start = at;
        let ghost first_read = block_view(body@);
        loop
            invariant
                self@.wf(),
                pos < at < self.tokens.len(),
                block_rest_spec(self@, block_view(body@), at as nat) == block_rest_spec(
                    self@,
                    first_read,
                    start as nat,
                ),
            ensures
                pos < at < self.tokens.len(),
                (block_view(body@), at as nat) == block_rest_spec(self@, first_read, start as nat),
            decreases self.tokens.len() - at,
        {
            if self.kind(at) != Token::NewLine {
                break;
            }
            let resumed = self.skip_newlines(at + 1);
            match self.statement(resumed) {
                Err(_) => {
                    at = resumed;
                    break;
                },
                Ok((statement, next)) => {
                    let ghost before = block_view(body@);
                    let ghost added = statement@;
                    body.push(statement);
                    assert(block_view(body@) =~= before.push(added));
                    at = next;
                },
            }
        }
        if self.kind(at) == Token::RightBrace {
            Ok((body, at + 1))
        } else {
            Err(
                self.fail(
                    at,
                    MessageType::MissingBlockSeparatorOrClosure,
                    missing_block_separator_or_closure(),
                ),
            )
        }
    }

    /// Reads the declaration of a function; `function` stands at `pos`.
    #[verifier::rlimit(50)]
    pub fn parse_function(&self, pos: usize) -> (r: Result<(Expression, usize), Message>)
        requires
            self@.wf(),
            pos < self.tokens.len(),
            self@.kind_at(pos as nat) == Token::Function,
        ensures
            step_view(r) == function_spec(self@, pos as nat),
            r matches Ok((_, next)) ==> pos < next < self.tokens.len(),
        decreases self.tokens.len() - pos, 8nat,
    {
        let error = self.fail(pos + 1, MessageType::MissingMemberName, missing_member_name("function"));
        let (name, behind_name) = match self.expect_identifier_and_advance(pos + 1, error) {
            (Err(m), _) => {
                return Err(m);
            },
            (Ok(name), behind) => (name, behind),
        };
        let error = self.fail(
            behind_name,
            MessageType::MissingCase,
            missing_case("parameter declaration"),
        );
        let behind_paren = match self.expect_and_advance(behind_name, Token::LeftParen, error) {
            (Err(m), _) => {
                return Err(m);
            },
            (Ok(_), behind) => behind,
        };
        let (parameters, behind_parameters) = match self.parameters(behind_paren) {
            Err(m) => {
                return Err(m);
            },
            Ok(read) => read,
        };
        let (return_type, brace) = match self.return_type(behind_parameters) {
            Err(m) => {
                return Err(m);
            },
            Ok(read) => read,
        };
        let error = self.fail(brace, MessageType::MissingBlock, missing_block());
        match self.expect(brace, Token::LeftBrace, error) {
            Err(m) => {
                return Err(m);
            },
            Ok(_) => {},
        }
        match self.block(brace) {
            Err(m) => Err(m),
            Ok((body, next)) => {
                let cursor = self.cursor_over(pos, next - 1);
                let declaration = Expression::FunctionDeclaration {
                    name,
                    parameters,
                    return_type,
                    body,
                    cursor,
                };
                proof {
                    crate::ast::lemma_body_view(declaration);
                }
                Ok((declaration, next))
            },
        }
    }

    /// Reads a statement.
    #[verifier::rlimit(50)]
    pub fn statement(&self, pos: usize) -> (r: Result<(Expression, usize), Message>)
        requires
            self@.wf(),
            pos < self.tokens.len(),
        ensures
            step_view(r) == statement_spec(self@, pos as nat),
            r matches Ok((_, next)) ==> pos < next < self.tokens.len(),
        decreases self.tokens.len() - pos, 9nat,
    {
        match self.kind(pos) {
            Token::Let => self.parse_let(pos),
            Token::Function => self.parse_function(pos),
            Token::Raw => self.parse_raw(pos),
            _ => self.math_expr_2(pos),
        }
    }

    /// Reads the whole text: statement after statement, line breaks
    /// between them.
    #[verifier::rlimit(50)]
    pub fn parse(&self) -> (r: Result<Vec<Expression>, Message>)
        requires
            self@.wf(),
        ensures
            parsed_view(r) == program_rest_spec(self@, Seq::empty(), 0),
    {
        let mut out: Vec<Expression> = Vec::new();
        let mut at: usize = 0;
        assert(block_view(out@) =~= Seq::empty());
        loop
            invariant
                self@.wf(),
                at < self.tokens.len(),
                program_rest_spec(self@, block_view(out@), at as nat) == program_rest_spec(
                    self@,
                    Seq::empty(),
                    0,
                ),
            decreases self.tokens.len() - at,
        {
            if self.kind(at) == Token::EoF {
                return Ok(out);
            }
            match self.statement(at) {
                Err(m) => {
                    return Err(m);
                },
                Ok((statement, next)) => {
                    let ghost before = block_view(out@);
                    let ghost added = statement@;
                    out.push(statement);
                    assert(block_view(out@) =~= before.push(added));
                    match self.kind(next) {
                        Token::EoF => {
                            return Ok(out);
                        },
                        Token::NewLine => {
                            at = self.skip_newlines(next + 1);
                        },
                        _ => {
                            return Err(
                                self.fail(
                                    next,
                                    MessageType::MissingBlockSeparatorOrClosure,
                                    missing_block_separator_or_closure(),
                                ),
                            );
                        },
                    }
                },
            }
        }
    }
}

/// Parses a text: its statements, or the first diagnostic.
pub fn parse(text: &str) -> (r: Result<Vec<Expression>, Message>)
    requires
        text@.len() < usize::MAX,
    ensures
        parsed_view(r) == parse_spec(text@),
{
    let parser = Parser::new("<stdin>", text);
    parser.parse()
}

/// Parses a text of any length: `None` for a text whose length is the
/// largest machine integer, which has no place left for the end of its last
/// lexeme; else what [`parse`] returns.
pub fn try_parse(text: &str) -> (r: Option<Result<Vec<Expression>, Message>>)
    ensures
        text@.len() >= usize::MAX <==> r is None,
        r matches Some(parsed) ==> parsed_view(parsed) == parse_spec(text@),
{
    if text.unicode_len() < usize::MAX {
        Some(parse(text))
    } else {
        None
    }
}

} // verus!
