//! The wording of each diagnostic.
//!
//! Every message has a spec function that gives its text and an executable
//! function that builds it.

use vstd::prelude::*;
use crate::paint::{paint, painted, CYAN};
use crate::text::{decimal, decimal_text};

verus! {

/// The wording for an illegal character.
pub open spec fn illegal_character_text(chr: Seq<char>) -> Seq<char> {
    "Character '"@ + chr + "' is not allowed"@
}

/// Builds the wording for an illegal character.
pub fn illegal_character(chr: &str) -> (s: String)
    ensures
        s@ == illegal_character_text(chr@),
{
    let mut s = "Character '".to_owned();
    s.append(chr);
    s.append("' is not allowed");
    s
}

/// The wording for a character that is missing.
pub open spec fn missing_character_text(chr: Seq<char>) -> Seq<char> {
    "Character '"@ + chr + "' is missing"@
}

/// Builds the wording for a character that is missing.
pub fn missing_character(chr: &str) -> (s: String)
    ensures
        s@ == missing_character_text(chr@),
{
    let mut s = "Character '".to_owned();
    s.append(chr);
    s.append("' is missing");
    s
}

/// The wording for a missing expression.
pub open spec fn missing_expression_text() -> Seq<char> {
    "Expected any expression"@
}

/// Builds the wording for a missing expression.
pub fn missing_expression() -> (s: String)
    ensures
        s@ == missing_expression_text(),
{
    let s = "Expected any expression".to_owned();
    s
}

/// The wording for a missing expression of a given kind.
pub open spec fn missing_specific_expression_text(kind: Seq<char>) -> Seq<char> {
    "Expected "@ + kind + " expression"@
}

/// Builds the wording for a missing expression of a given kind.
pub fn missing_specific_expression(kind: &str) -> (s: String)
    ensures
        s@ == missing_specific_expression_text(kind@),
{
    let mut s = "Expected ".to_owned();
    s.append(kind);
    s.append(" expression");
    s
}

/// The wording for a member that is named but not declared.
pub open spec fn missing_member_declaration_text(name: Seq<char>, member_type: Seq<char>) -> Seq<char> {
    "Expected ':' to declare "@ + name + " '"@ + member_type + "'"@
}

/// Builds the wording for a member that is named but not declared.
pub fn missing_member_declaration(name: &str, member_type: &str) -> (s: String)
    ensures
        s@ == missing_member_declaration_text(name@, member_type@),
{
    let mut s = "Expected ':' to declare ".to_owned();
    s.append(name);
    s.append(" '");
    s.append(member_type);
    s.append("'");
    s
}

/// The wording for a member with neither a type nor a value.
pub open spec fn missing_member_type_or_value_assignment_text(member_type: Seq<char>) -> Seq<char> {
    "Expected ':' to declare "@ + member_type + " type or '=' to assign a value"@
}

/// Builds the wording for a member with neither a type nor a value.
pub fn missing_member_type_or_value_assignment(member_type: &str) -> (s: String)
    ensures
        s@ == missing_member_type_or_value_assignment_text(member_type@),
{
    let mut s = "Expected ':' to declare ".to_owned();
    s.append(member_type);
    s.append(" type or '=' to assign a value");
    s
}

/// The wording for a missing type.
pub open spec fn missing_member_type_text(member_type: Seq<char>) -> Seq<char> {
    "Expected "@ + member_type + " type"@
}

/// Builds the wording for a missing type.
pub fn missing_member_type(member_type: &str) -> (s: String)
    ensures
        s@ == missing_member_type_text(member_type@),
{
    let mut s = "Expected ".to_owned();
    s.append(member_type);
    s.append(" type");
    s
}

/// The wording for a missing colon before a type.
pub open spec fn missing_member_type_colon_text(member_type: Seq<char>) -> Seq<char> {
    "Expected ':' to declare "@ + member_type + " type"@
}

/// Builds the wording for a missing colon before a type.
pub fn missing_member_type_colon(member_type: &str) -> (s: String)
    ensures
        s@ == missing_member_type_colon_text(member_type@),
{
    let mut s = "Expected ':' to declare ".to_owned();
    s.append(member_type);
    s.append(" type");
    s
}

/// The wording for a missing name.
pub open spec fn missing_member_name_text(member_type: Seq<char>) -> Seq<char> {
    "Expected "@ + member_type + " name"@
}

/// Builds the wording for a missing name.
pub fn missing_member_name(member_type: &str) -> (s: String)
    ensures
        s@ == missing_member_name_text(member_type@),
{
    let mut s = "Expected ".to_owned();
    s.append(member_type);
    s.append(" name");
    s
}

/// The wording for a missing opening parenthesis.
pub open spec fn missing_case_text(case_type: Seq<char>) -> Seq<char> {
    "Expected '(' to open "@ + case_type
}

/// Builds the wording for a missing opening parenthesis.
pub fn missing_case(case_type: &str) -> (s: String)
    ensures
        s@ == missing_case_text(case_type@),
{
    let mut s = "Expected '(' to open ".to_owned();
    s.append(case_type);
    s
}

/// The wording for a missing closing parenthesis.
pub open spec fn missing_case_closure_text() -> Seq<char> {
    "Expected ')'"@
}

/// Builds the wording for a missing closing parenthesis.
pub fn missing_case_closure() -> (s: String)
    ensures
        s@ == missing_case_closure_text(),
{
    let s = "Expected ')'".to_owned();
    s
}

/// The wording for a missing comma or closing parenthesis.
pub open spec fn missing_case_separator_or_closure_text() -> Seq<char> {
    "Expected ',' or ')'"@
}

/// Builds the wording for a missing comma or closing parenthesis.
pub fn missing_case_separator_or_closure() -> (s: String)
    ensures
        s@ == missing_case_separator_or_closure_text(),
{
    let s = "Expected ',' or ')'".to_owned();
    s
}

/// The wording for a missing opening brace.
pub open spec fn missing_block_text() -> Seq<char> {
    "Expected '{' to open a block"@
}

/// Builds the wording for a missing opening brace.
pub fn missing_block() -> (s: String)
    ensures
        s@ == missing_block_text(),
{
    let s = "Expected '{' to open a block".to_owned();
    s
}

/// The wording for a missing line break or closing brace.
pub open spec fn missing_block_separator_or_closure_text() -> Seq<char> {
    "Expected a new line or '}'"@
}

/// Builds the wording for a missing line break or closing brace.
pub fn missing_block_separator_or_closure() -> (s: String)
    ensures
        s@ == missing_block_separator_or_closure_text(),
{
    let s = "Expected a new line or '}'".to_owned();
    s
}

/// The wording for a type that does not exist.
pub open spec fn unknown_type_text(wanted: Seq<char>) -> Seq<char> {
    "Type \""@ + wanted + "\" does not exist in this scope"@
}

/// Builds the wording for a type that does not exist.
pub fn unknown_type(wanted: &str) -> (s: String)
    ensures
        s@ == unknown_type_text(wanted@),
{
    let mut s = "Type \"".to_owned();
    s.append(wanted);
    s.append("\" does not exist in this scope");
    s
}

/// The wording for a member that is not declared.
pub open spec fn unknown_member_text(member_type: Seq<char>, member_name: Seq<char>) -> Seq<char> {
    member_type + " '"@ + member_name + "' is not declared in this scope"@
}

/// Builds the wording for a member that is not declared.
pub fn unknown_member(member_type: &str, member_name: &str) -> (s: String)
    ensures
        s@ == unknown_member_text(member_type@, member_name@),
{
    let mut s = member_type.to_owned();
    s.append(" '");
    s.append(member_name);
    s.append("' is not declared in this scope");
    s
}

/// The wording for a member that is declared twice.
pub open spec fn member_redeclaration_text(member_type: Seq<char>, member_name: Seq<char>) -> Seq<char> {
    member_type + " '"@ + member_name + "' had already been declared"@
}

/// Builds the wording for a member that is declared twice.
pub fn member_redeclaration(member_type: &str, member_name: &str) -> (s: String)
    ensures
        s@ == member_redeclaration_text(member_type@, member_name@),
{
    let mut s = member_type.to_owned();
    s.append(" '");
    s.append(member_name);
    s.append("' had already been declared");
    s
}

/// The wording for an integer that does not fit the given width.
pub open spec fn integer_bounds_exceeded_text(byte_limit: int) -> Seq<char> {
    "Provided integer exceeds the "@ + decimal(byte_limit) + " byte limit"@
}

/// Builds the wording for an integer that does not fit the given width.
pub fn integer_bounds_exceeded(byte_limit: u32) -> (s: String)
    ensures
        s@ == integer_bounds_exceeded_text(byte_limit as int),
{
    let mut s = "Provided integer exceeds the ".to_owned();
    let limit = decimal_text(byte_limit as i64);
    s.append(limit.as_str());
    s.append(" byte limit");
    s
}

/// The wording for a value of the wrong type; both type names are shown in
/// colour.
pub open spec fn type_mismatch_text(expected: Seq<char>, got: Seq<char>) -> Seq<char> {
    "Expected value of type "@ + painted(CYAN, expected) + ", got "@ + painted(CYAN, got)
}

/// Builds the wording for a value of the wrong type.
pub fn type_mismatch(expected: &str, got: &str) -> (s: String)
    ensures
        s@ == type_mismatch_text(expected@, got@),
{
    let mut s = "Expected value of type ".to_owned();
    let wanted = paint(CYAN, expected);
    s.append(wanted.as_str());
    s.append(", got ");
    let found = paint(CYAN, got);
    s.append(found.as_str());
    s
}

} // verus!
