//! The catalogue of messages: each variant with its severity, its stable
//! code and its title.

use vstd::prelude::*;

verus! {

/// How serious a message is.
#[derive(Debug, Clone, Copy, PartialEq, Eq, Structural)]
pub enum MessageType {
    Warning,
    Error,
}

/// The variants of message. The code of a variant names the stage that
/// raises it: 0 the lexer, 1 the parser, 2 the compiler, 3 the interpreter.
#[derive(Debug, Clone, Copy, PartialEq, Eq, Structural)]
pub enum MessageVariant {
    IllegalCharacter,
    MissingCharacter,
    InvalidEscapeSequence,
    UnexpectedEOF,
    MissingExpression,
    MissingCodeblockClosure,
    MissingConditionOpening,
    MissingConditionClosure,
    MissingTupleOpening,
    MissingTupleClosure,
    MissingMemberDeclaration,
    MissingMemberName,
    MissingMemberType,
    MissingMemberTypeOrValueAssignment,
    MissingExpressionOrCodeblockOpening,
    DivisionByZero,
}

impl MessageVariant {
    /// The stable code of a variant.
    pub open spec fn code_text(self) -> Seq<char> {
        match self {
            MessageVariant::IllegalCharacter => "ES000E"@,
            MessageVariant::MissingCharacter => "ES001E"@,
            MessageVariant::InvalidEscapeSequence => "ES002E"@,
            MessageVariant::UnexpectedEOF => "ES100E"@,
            MessageVariant::MissingExpression => "ES101E"@,
            MessageVariant::MissingCodeblockClosure => "ES102E"@,
            MessageVariant::MissingConditionOpening => "ES103E"@,
            MessageVariant::MissingConditionClosure => "ES104E"@,
            MessageVariant::MissingTupleOpening => "ES105E"@,
            MessageVariant::MissingTupleClosure => "ES106E"@,
            MessageVariant::MissingMemberDeclaration => "ES107E"@,
            MessageVariant::MissingMemberName => "ES108E"@,
            MessageVariant::MissingMemberType => "ES109E"@,
            MessageVariant::MissingMemberTypeOrValueAssignment => "ES110E"@,
            MessageVariant::MissingExpressionOrCodeblockOpening => "ES111E"@,
            MessageVariant::DivisionByZero => "ES300E"@,
        }
    }

    /// The title of a variant.
    pub open spec fn name_text(self) -> Seq<char> {
        match self {
            MessageVariant::IllegalCharacter => "Illegal character"@,
            MessageVariant::MissingCharacter => "Missing character"@,
            MessageVariant::InvalidEscapeSequence => "Invalid escape sequence"@,
            MessageVariant::UnexpectedEOF => "Unexpected end of file"@,
            MessageVariant::MissingExpression => "Missing expression"@,
            MessageVariant::MissingCodeblockClosure => "Missing codeblock closure"@,
            MessageVariant::MissingConditionOpening => "Missing condition opening"@,
            MessageVariant::MissingConditionClosure => "Missing condition closure"@,
            MessageVariant::MissingTupleOpening => "Missing tuple opening"@,
            MessageVariant::MissingTupleClosure => "Missing tuple closure"@,
            MessageVariant::MissingMemberDeclaration => "Missing member declaration"@,
            MessageVariant::MissingMemberName => "Missing member name"@,
            MessageVariant::MissingMemberType => "Missing member type"@,
            MessageVariant::MissingMemberTypeOrValueAssignment =>
                "Missing member type or value assignment"@,
            MessageVariant::MissingExpressionOrCodeblockOpening =>
                "Missing expression or codeblock opening"@,
            MessageVariant::DivisionByZero => "Division by zero"@,
        }
    }

    /// Severity, code and title of a variant. Every variant is an error.
    pub fn parameters(&self) -> (p: (MessageType, &'static str, &'static str))
        ensures
            p.0 == MessageType::Error,
            p.1@ == self.code_text(),
            p.2@ == self.name_text(),
    {
        match self {
            MessageVariant::IllegalCharacter => (MessageType::Error, "ES000E", "Illegal character"),
            MessageVariant::MissingCharacter => (MessageType::Error, "ES001E", "Missing character"),
            MessageVariant::InvalidEscapeSequence => (
                MessageType::Error,
                "ES002E",
                "Invalid escape sequence",
            ),
            MessageVariant::UnexpectedEOF => (
                MessageType::Error,
                "ES100E",
                "Unexpected end of file",
            ),
            MessageVariant::MissingExpression => (
                MessageType::Error,
                "ES101E",
                "Missing expression",
            ),
            MessageVariant::MissingCodeblockClosure => (
                MessageType::Error,
                "ES102E",
                "Missing codeblock closure",
            ),
            MessageVariant::MissingConditionOpening => (
                MessageType::Error,
                "ES103E",
                "Missing condition opening",
            ),
            MessageVariant::MissingConditionClosure => (
                MessageType::Error,
                "ES104E",
                "Missing condition closure",
            ),
            MessageVariant::MissingTupleOpening => (
                MessageType::Error,
                "ES105E",
                "Missing tuple opening",
            ),
            MessageVariant::MissingTupleClosure => (
                MessageType::Error,
                "ES106E",
                "Missing tuple closure",
            ),
            MessageVariant::MissingMemberDeclaration => (
                MessageType::Error,
                "ES107E",
                "Missing member declaration",
            ),
            MessageVariant::MissingMemberName => (
                MessageType::Error,
                "ES108E",
                "Missing member name",
            ),
            MessageVariant::MissingMemberType => (
                MessageType::Error,
                "ES109E",
                "Missing member type",
            ),
            MessageVariant::MissingMemberTypeOrValueAssignment => (
                MessageType::Error,
                "ES110E",
                "Missing member type or value assignment",
            ),
            MessageVariant::MissingExpressionOrCodeblockOpening => (
                MessageType::Error,
                "ES111E",
                "Missing expression or codeblock opening",
            ),
            MessageVariant::DivisionByZero => (MessageType::Error, "ES300E", "Division by zero"),
        }
    }

    /// Whether the variant is an error (as opposed to a warning).
    pub fn is_error(&self) -> (b: bool)
        ensures
            b,
    {
        self.parameters().0 == MessageType::Error
    }

    /// The stable code of the variant.
    pub fn code(&self) -> (s: &'static str)
        ensures
            s@ == self.code_text(),
    {
        self.parameters().1
    }

    /// The title of the variant.
    pub fn name(&self) -> (s: &'static str)
        ensures
            s@ == self.name_text(),
    {
        self.parameters().2
    }
}

} // verus!
