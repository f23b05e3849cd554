//! The vocabulary of the target: the text of each scoreboard command that
//! the compiler emits, and the names of the slots it uses.

use vstd::prelude::*;
use crate::text::{decimal, decimal_text};

verus! {

/// The slot of a variable: a dollar sign and the variable's name.
pub open spec fn slot_name(name: Seq<char>) -> Seq<char> {
    "$"@ + name
}

/// The slot that holds a result for which the caller named no destination.
pub open spec fn scratch_slot() -> Seq<char> {
    "$$temp"@
}

/// The slot that holds the constant `value` while it is multiplied or
/// divided by: a percent sign and the value.
pub open spec fn constant_slot(value: int) -> Seq<char> {
    "%"@ + decimal(value)
}

/// The command that opens the block `block`.
pub open spec fn open_command(block: Seq<char>) -> Seq<char> {
    "scoreboard objectives add "@ + block + " dummy"@
}

/// The command that closes the block `block`.
pub open spec fn close_command(block: Seq<char>) -> Seq<char> {
    "scoreboard objectives remove "@ + block
}

/// The command that writes the constant `value` to a slot.
pub open spec fn set_command(player: Seq<char>, scoreboard: Seq<char>, value: int) -> Seq<char> {
    "scoreboard players set "@ + player + " "@ + scoreboard + " "@ + decimal(value)
}

/// The command that adds the constant `value` to a slot.
pub open spec fn add_command(player: Seq<char>, scoreboard: Seq<char>, value: int) -> Seq<char> {
    "scoreboard players add "@ + player + " "@ + scoreboard + " "@ + decimal(value)
}

/// The command that takes the constant `value` from a slot.
pub open spec fn remove_command(player: Seq<char>, scoreboard: Seq<char>, value: int) -> Seq<
    char,
> {
    "scoreboard players remove "@ + player + " "@ + scoreboard + " "@ + decimal(value)
}

/// The command that combines a slot with another slot; `operator` is `=` to
/// copy, or an arithmetic symbol followed by `=`.
pub open spec fn operation_command(
    player: Seq<char>,
    scoreboard: Seq<char>,
    operator: Seq<char>,
    other_player: Seq<char>,
    other_scoreboard: Seq<char>,
) -> Seq<char> {
    "scoreboard players operation "@ + player + " "@ + scoreboard + " "@ + operator + " "@
        + other_player + " "@ + other_scoreboard
}

/// Builds the slot name of a variable.
pub fn slot_name_text(name: &str) -> (s: String)
    ensures
        s@ == slot_name(name@),
{
    let mut s = "$".to_owned();
    s.append(name);
    s
}

/// Builds the name of the scratch slot.
pub fn scratch_slot_text() -> (s: String)
    ensures
        s@ == scratch_slot(),
{
    "$$temp".to_owned()
}

/// Builds the name of the slot of a constant.
pub fn constant_slot_text(value: i32) -> (s: String)
    ensures
        s@ == constant_slot(value as int),
{
    let mut s = "%".to_owned();
    let v = decimal_text(value as i64);
    s.append(v.as_str());
    s
}

/// Builds the command that opens a block.
pub fn open_command_text(block: &str) -> (s: String)
    ensures
        s@ == open_command(block@),
{
    let mut s = "scoreboard objectives add ".to_owned();
    s.append(block);
    s.append(" dummy");
    s
}

/// Builds the command that closes a block.
pub fn close_command_text(block: &str) -> (s: String)
    ensures
        s@ == close_command(block@),
{
    let mut s = "scoreboard objectives remove ".to_owned();
    s.append(block);
    s
}

/// Builds the command that writes a constant to a slot.
pub fn set_command_text(player: &str, scoreboard: &str, value: i32) -> (s: String)
    ensures
        s@ == set_command(player@, scoreboard@, value as int),
{
    let mut s = "scoreboard players set ".to_owned();
    s.append(player);
    s.append(" ");
    s.append(scoreboard);
    s.append(" ");
    let v = decimal_text(value as i64);
    s.append(v.as_str());
    s
}

/// Builds the command that adds a constant to a slot.
pub fn add_command_text(player: &str, scoreboard: &str, value: i32) -> (s: String)
    ensures
        s@ == add_command(player@, scoreboard@, value as int),
{
    let mut s = "scoreboard players add ".to_owned();
    s.append(player);
    s.append(" ");
    s.append(scoreboard);
    s.append(" ");
    let v = decimal_text(value as i64);
    s.append(v.as_str());
    s
}

/// Builds the command that takes a constant from a slot.
pub fn remove_command_text(player: &str, scoreboard: &str, value: i32) -> (s: String)
    ensures
        s@ == remove_command(player@, scoreboard@, value as int),
{
    let mut s = "scoreboard players remove ".to_owned();
    s.append(player);
    s.append(" ");
    s.append(scoreboard);
    s.append(" ");
    let v = decimal_text(value as i64);
    s.append(v.as_str());
    s
}

/// Builds the command that combines a slot with another slot.
pub fn operation_command_text(
    player: &str,
    scoreboard: &str,
    operator: &str,
    other_player: &str,
    other_scoreboard: &str,
) -> (s: String)
    ensures
        s@ == operation_command(
            player@,
            scoreboard@,
            operator@,
            other_player@,
            other_scoreboard@,
        ),
{
    let mut s = "scoreboard players operation ".to_owned();
    s.append(player);
    s.append(" ");
    s.append(scoreboard);
    s.append(" ");
    s.append(operator);
    s.append(" ");
    s.append(other_player);
    s.append(" ");
    s.append(other_scoreboard);
    s
}

} // verus!
