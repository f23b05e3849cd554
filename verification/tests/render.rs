use ender_script::colors::{colored, Color};
use ender_script::cursor::{Cursor, Position, PositionRole};
use ender_script::details;
use ender_script::message::{Message, MessageType};
use ender_script::parser::parse;

#[test]
fn diagnostic_for_a_declaration_without_type_and_value() {
    let err = parse("let z").err().expect("a diagnostic");
    assert!(err.can_render());
    assert_eq!(err.header(), "\u{1b}[1;38;5;197mError ES005E: \u{1b}[0m");
    assert_eq!(
        err.file_name(),
        "\u{1b}[38;5;245m[\u{1b}[37m<stdin>:0:5\u{1b}[38;5;245m]\u{1b}[0m"
    );
    assert_eq!(
        err.line(),
        "\u{1b}[38;5;245mlet z\u{1b}[1;38;5;198m\u{1b}[0m\u{1b}[38;5;245m\u{1b}[0m"
    );
    let content = err.content();
    assert_eq!(content.len(), 2);
    assert_eq!(content[0], "\u{1b}[38;5;198m     ┬\u{1b}[0m");
    assert_eq!(
        content[1],
        "\u{1b}[38;5;198m     ╰── \u{1b}[0mExpected ':' to declare variable type or '=' to assign a value"
    );
    let expected = String::new()
        + "\u{1b}[1;38;5;197mError ES005E: \u{1b}[0mMissing member type or value assignment\n"
        + "\u{1b}[38;5;245m   ╭─\u{1b}[0m"
        + "\u{1b}[38;5;245m[\u{1b}[37m<stdin>:0:5\u{1b}[38;5;245m]\u{1b}[0m\n"
        + "\u{1b}[38;5;245m   │\n\u{1b}[0m"
        + "\u{1b}[38;5;245m 0 │ \u{1b}[0m"
        + "\u{1b}[38;5;245mlet z\u{1b}[1;38;5;198m\u{1b}[0m\u{1b}[38;5;245m\u{1b}[0m\n"
        + "\u{1b}[38;5;245m   · \u{1b}[0m\u{1b}[38;5;198m     ┬\u{1b}[0m\n"
        + "\u{1b}[38;5;245m   · \u{1b}[0m\u{1b}[38;5;198m     ╰── \u{1b}[0mExpected ':' to declare variable type or '=' to assign a value\n"
        + "\u{1b}[38;5;245m───╯\u{1b}[0m";
    assert_eq!(err.to_string(), expected);
}

#[test]
fn marked_columns_inside_a_line() {
    let text = "let a = 1\nlet bcd = @@@ + 2";
    let cursor = Cursor::spanning("main.es", text, 20, 23);
    assert_eq!((cursor.start.line_num, cursor.start.col), (1, 10));
    assert_eq!((cursor.end.line_num, cursor.end.col), (1, 13));
    let m = Message::error(MessageType::IllegalCharacter, "Character '@@@' is not allowed", cursor);
    assert!(m.can_render());
    assert_eq!(
        m.line(),
        "\u{1b}[38;5;245mlet bcd = \u{1b}[1;38;5;198m@@@\u{1b}[0m\u{1b}[38;5;245m + 2\u{1b}[0m"
    );
    let content = m.content();
    assert_eq!(content[0], "\u{1b}[38;5;198m          ─┬─\u{1b}[0m");
    assert_eq!(
        content[1],
        "\u{1b}[38;5;198m           ╰─── \u{1b}[0mCharacter '@@@' is not allowed"
    );
}

#[test]
fn diagnostics_that_cannot_be_shown() {
    let text = "ab\ncd";
    let over_lines = Cursor::spanning("f", text, 1, 3);
    assert_eq!((over_lines.start.col, over_lines.end.col), (1, 0));
    let m = Message::error(MessageType::MissingExpression, "x", over_lines);
    assert!(!m.can_render());
    let mut beyond = Cursor::new("f", text);
    beyond.start.line_num = 2;
    assert!(!Message::error(MessageType::MissingExpression, "x", beyond).can_render());
    let mut last = Cursor::new("f", text);
    last.start.line_num = 1;
    assert!(Message::error(MessageType::MissingExpression, "x", last).can_render());
}

#[test]
fn positions_follow_the_text() {
    let text = "ab\ncd\n";
    let mut start = Position::new(PositionRole::Start);
    start.update(0, text);
    assert_eq!((start.index, start.line_num, start.col), (0, 0, 0));
    start.update(1, text);
    assert_eq!((start.index, start.line_num, start.col), (1, 0, 1));
    start.update(2, text);
    assert_eq!((start.index, start.line_num, start.col), (2, 1, 0));
    start.update(4, text);
    assert_eq!((start.index, start.line_num, start.col), (4, 1, 1));
    start.update(6, text);
    assert_eq!((start.index, start.line_num, start.col), (6, 2, 1));
    start.update(8, text);
    assert_eq!((start.index, start.line_num, start.col), (8, 2, 3));
    let mut end = Position::new(PositionRole::End);
    end.update(2, text);
    assert_eq!((end.index, end.line_num, end.col), (2, 0, 2));
    end.update(3, text);
    assert_eq!((end.index, end.line_num, end.col), (3, 1, 0));
    end.update(6, text);
    assert_eq!((end.index, end.line_num, end.col), (6, 2, 1));
    let mut cursor = Cursor::new("f.es", text);
    cursor.update(3..5);
    assert_eq!((cursor.start.line_num, cursor.start.col), (1, 0));
    assert_eq!((cursor.end.line_num, cursor.end.col), (1, 2));
    let moved = cursor.clone_with_start(&start);
    assert_eq!(moved.start.index, 8);
    assert_eq!(moved.end.index, 5);
    assert_eq!(moved.file_name, "f.es");
    assert_eq!(moved.text, text);
}

#[test]
fn kinds_of_diagnostic() {
    assert_eq!(MessageType::IllegalCharacter.code(), "ES000E");
    assert_eq!(MessageType::MissingBlockSeparatorOrClosure.code(), "ES011E");
    assert_eq!(MessageType::MissingBlockSeparatorOrClosure.name(), "Missing block separator or closure");
    assert_eq!(MessageType::UnknownType.code(), "ES100E");
    assert_eq!(MessageType::MemberRedeclaration.parameters(), (true, "ES104E", "Member redeclaration"));
    assert!(MessageType::TypeMismatch.is_error());
}

#[test]
fn wording() {
    assert_eq!(details::illegal_character("#"), "Character '#' is not allowed");
    assert_eq!(details::missing_character(")"), "Character ')' is missing");
    assert_eq!(details::missing_specific_expression("boolean"), "Expected boolean expression");
    assert_eq!(details::missing_member_declaration("x", "variable"), "Expected ':' to declare x 'variable'");
    assert_eq!(details::missing_case_separator_or_closure(), "Expected ',' or ')'");
    assert_eq!(details::unknown_type("long"), "Type \"long\" does not exist in this scope");
    assert_eq!(details::integer_bounds_exceeded(32), "Provided integer exceeds the 32 byte limit");
    assert_eq!(
        details::type_mismatch("int", "unknown"),
        "Expected value of type \u{1b}[38;5;69mint\u{1b}[0m, got \u{1b}[38;5;69munknown\u{1b}[0m"
    );
}

#[test]
fn palette() {
    assert_eq!(Color::reset(), "\u{001b}[0m");
    assert_eq!(Color::red(), "\u{001b}[38;5;197m");
    assert_eq!(Color::yellow(), "\u{001b}[38;5;220m");
    assert_eq!(Color::light_yellow(), "\u{001b}[38;5;11m");
    assert_eq!(Color::grey(), "\u{001b}[90m");
    assert_eq!(Color::black(), "\u{001b}[30m");
    assert_eq!(Color::magenta(), "\u{001b}[35m");
    assert_eq!(Color::green(), "\u{001b}[38;5;34m");
    assert_eq!(Color::blue(), "\u{001b}[38;5;26m");
    assert_eq!(Color::light_blue(), "\u{001b}[38;5;45m");
    assert_eq!(Color::Green.to_string(), "\u{001b}[38;5;34m");
    assert_eq!(colored(Color::Red, "stop"), "\u{001b}[38;5;197mstop\u{001b}[0m");
}
