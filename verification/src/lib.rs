//! EnderScript: a small expression-oriented scripting language that
//! compiles to scoreboard commands.
//!
//! The crate turns source text into tokens, tokens into a syntax tree and the
//! syntax tree into named blocks of commands. Every function is stated over a
//! mathematical model of its data (character sequences and views of the
//! syntax tree) and proved against that statement.

pub mod text;
pub mod cursor;
pub mod paint;
pub mod details;
pub mod message;
pub mod ast;
pub mod environment;
pub mod commands;
pub mod compiler;
pub mod token;
pub mod parser;
pub mod colors;
pub mod util;
pub mod lexer;
pub mod variant;
pub mod register;
