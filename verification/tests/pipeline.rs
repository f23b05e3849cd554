use ender_script::compiler::{can_compile, compile, try_compile};
use ender_script::message::MessageType;
use ender_script::parser::{parse, try_parse};

fn build(text: &str) -> Vec<(String, String)> {
    let ast = parse(text).ok().expect("a tree");
    assert!(can_compile(&ast), "{}", text);
    compile(ast)
        .ok()
        .expect("blocks")
        .iter()
        .map(|f| (f.name.clone(), f.to_string()))
        .collect()
}

fn main_of(text: &str) -> Vec<String> {
    let out = build(text);
    let (name, commands) = out.last().unwrap();
    assert_eq!(name, "main");
    let mut lines: Vec<String> = commands.lines().map(|l| l.to_string()).collect();
    assert_eq!(lines.first().unwrap(), "scoreboard objectives add main dummy");
    assert_eq!(lines.last().unwrap(), "scoreboard objectives remove main");
    assert!(commands.ends_with('\n'));
    lines.remove(0);
    lines.pop();
    lines
}

fn failure(text: &str) -> MessageType {
    let ast = parse(text).ok().expect("a tree");
    assert!(can_compile(&ast), "{}", text);
    compile(ast).err().expect("a diagnostic").message_type
}

#[test]
fn declaration_reads_a_slot_and_adds_a_constant() {
    assert_eq!(
        main_of("let x: int = 5\nlet y = x + 3"),
        vec![
            "scoreboard players set $x main 5",
            "scoreboard players operation $y main = $x main",
            "scoreboard players add $y main 3",
        ]
    );
}

#[test]
fn slot_and_constant() {
    assert_eq!(
        main_of("let x = 2\nlet y = x * 3\nlet z = x / -4\nlet w = x - 7"),
        vec![
            "scoreboard players set $x main 2",
            "scoreboard players operation $y main = $x main",
            "scoreboard players set %3 main 3",
            "scoreboard players operation $y main *= %3 main",
            "scoreboard players operation $z main = $x main",
            "scoreboard players set %-4 main -4",
            "scoreboard players operation $z main /= %-4 main",
            "scoreboard players operation $w main = $x main",
            "scoreboard players remove $w main 7",
        ]
    );
}

#[test]
fn constant_and_slot() {
    assert_eq!(
        main_of("let x = 2\nlet z = 10 - x\nlet q = 100 / x"),
        vec![
            "scoreboard players set $x main 2",
            "scoreboard players set $z main 10",
            "scoreboard players operation $z main -= $x main",
            "scoreboard players set $q main 100",
            "scoreboard players operation $q main /= $x main",
        ]
    );
}

#[test]
fn slot_and_slot() {
    assert_eq!(
        main_of("let x = 2\nlet y = 3\nlet w = x / y\nlet v = y"),
        vec![
            "scoreboard players set $x main 2",
            "scoreboard players set $y main 3",
            "scoreboard players operation $w main = $x main",
            "scoreboard players operation $w main /= $y main",
            "scoreboard players operation $v main = $y main",
        ]
    );
}

#[test]
fn scratch_slot_without_a_destination() {
    assert_eq!(
        main_of("let x = 2\nlet y = 3\nx + y\nx - 5\n1 * x"),
        vec![
            "scoreboard players set $x main 2",
            "scoreboard players set $y main 3",
            "scoreboard players operation $$temp main = $x main",
            "scoreboard players operation $$temp main += $y main",
            "scoreboard players operation $$temp main = $x main",
            "scoreboard players remove $$temp main 5",
            "scoreboard players set $$temp main 1",
            "scoreboard players operation $$temp main *= $x main",
        ]
    );
}

#[test]
fn destination_reaches_the_left_operand_only() {
    assert_eq!(
        main_of("let x = 2\nlet u = (x + 1) + 2\nlet t = 1 + (x + 2)"),
        vec![
            "scoreboard players set $x main 2",
            "scoreboard players operation $u main = $x main",
            "scoreboard players add $u main 1",
            "scoreboard players add $u main 2",
            "scoreboard players operation $$temp main = $x main",
            "scoreboard players add $$temp main 2",
            "scoreboard players set $t main 1",
            "scoreboard players operation $t main += $$temp main",
        ]
    );
}

#[test]
fn constants_are_folded() {
    assert_eq!(
        main_of("let a = 2 + 3 * 4\nlet b = (1 - 10) / 2\nlet c = 7 / -2\n1 + 1"),
        vec![
            "scoreboard players set $a main 14",
            "scoreboard players set $b main -4",
            "scoreboard players set $c main -3",
        ]
    );
}

#[test]
fn functions_become_blocks_of_their_own() {
    let out = build("let x = 1\nfunction f(a: int) { let b = 2\n b + 1 }\nfunction g() {}\nlet y = x");
    assert_eq!(out.len(), 3);
    assert_eq!(
        out[0],
        (
            "f".to_string(),
            "scoreboard objectives add f dummy\n\
             scoreboard players set $b f 2\n\
             scoreboard players operation $$temp f = $b f\n\
             scoreboard players add $$temp f 1\n\
             scoreboard objectives remove f\n"
                .to_string()
        )
    );
    assert_eq!(
        out[1],
        (
            "g".to_string(),
            "scoreboard objectives add g dummy\nscoreboard objectives remove g\n".to_string()
        )
    );
    assert_eq!(
        out[2].1,
        "scoreboard objectives add main dummy\n\
         scoreboard players set $x main 1\n\
         scoreboard players operation $y main = $x main\n\
         scoreboard objectives remove main\n"
    );
    assert_eq!(failure("let x = 1\nfunction f() { x }"), MessageType::UnknownMember);
    assert_eq!(failure("function f() { let x = 1 }\nx"), MessageType::UnknownMember);
    assert_eq!(build("function f() { let x = 1 }\nlet x = 2").len(), 2);
}

#[test]
fn declared_names() {
    assert_eq!(
        main_of("let x = 1\nlet y = x + 1\nlet z = y"),
        vec![
            "scoreboard players set $x main 1",
            "scoreboard players operation $y main = $x main",
            "scoreboard players add $y main 1",
            "scoreboard players operation $z main = $y main",
        ]
    );
    assert_eq!(main_of("let x: int\nx"), Vec::<String>::new());
    assert_eq!(failure("let x = 1\nlet x = 2"), MessageType::MemberRedeclaration);
    assert_eq!(failure("let x: int\nlet x = 2"), MessageType::MemberRedeclaration);
    assert_eq!(failure("let y = x + 1\nlet y = 2"), MessageType::UnknownMember);
    assert_eq!(failure("let a = 1\nlet y = a + 1\nlet y = 2"), MessageType::MemberRedeclaration);
    assert_eq!(failure("x"), MessageType::UnknownMember);
    assert_eq!(failure("let x = x"), MessageType::UnknownMember);
}

#[test]
fn values_of_the_wrong_type() {
    let ast = parse("let g = function h() {}").ok().unwrap();
    assert!(can_compile(&ast));
    let err = compile(ast).err().unwrap();
    assert_eq!(err.message_type, MessageType::TypeMismatch);
    assert_eq!(
        err.details,
        "Expected value of type \u{1b}[38;5;69mint\u{1b}[0m, got \u{1b}[38;5;69munknown\u{1b}[0m"
    );
    assert_eq!((err.cursor.start.index, err.cursor.end.index), (0, 23));
    assert_eq!(failure("let y = (let x: int)"), MessageType::TypeMismatch);
}

#[test]
fn literals_at_the_bounds() {
    assert_eq!(main_of("let m = 2147483647"), vec!["scoreboard players set $m main 2147483647"]);
    assert_eq!(main_of("let m = -2147483648"), vec!["scoreboard players set $m main -2147483648"]);
    assert_eq!(failure("let m = 2147483648"), MessageType::IntegerBoundsExceeded);
    assert_eq!(failure("-2147483649"), MessageType::IntegerBoundsExceeded);
    assert_eq!(failure("2147483648 + 1"), MessageType::IntegerBoundsExceeded);
    assert_eq!(failure("1 + 2147483648"), MessageType::IntegerBoundsExceeded);
    assert_eq!(failure("let x = 1\nx + 2147483648"), MessageType::IntegerBoundsExceeded);
}

#[test]
fn programs_that_cannot_be_compiled() {
    for text in [
        "f(1)",
        "x = 1",
        "raw \"say hi\"",
        "\"text\"",
        "1 / 0",
        "2147483647 + 1",
        "-2147483648 / -1",
        "65536 * 65536",
        "(let x: int) + 1",
        "1 + (function f() {})",
        "let x = \"a\" + 1",
        "function f() { g() }",
    ] {
        let ast = parse(text).ok().expect(text);
        assert!(!can_compile(&ast), "{}", text);
    }
    for text in ["", "1", "let x = 1 + 2", "function f() { function g() { 1 } }", "let x: int"] {
        let ast = parse(text).ok().expect(text);
        assert!(can_compile(&ast), "{}", text);
    }
}

#[test]
fn same_text_same_commands() {
    let text = "let a = 3\nfunction f() { let b = 4 * 5 }\nlet c = a - 1";
    assert_eq!(build(text), build(text));
}

#[test]
fn checked_entry_points() {
    let ast = try_parse("let x = 1").expect("short enough").ok().expect("a tree");
    let blocks = try_compile(ast).expect("supported").ok().expect("blocks");
    assert_eq!(blocks.len(), 1);
    let ast = try_parse("f()").expect("short enough").ok().expect("a tree");
    assert!(try_compile(ast).is_none());
    let err = try_parse("let").expect("short enough").err().expect("a diagnostic");
    assert_eq!(err.message_type, MessageType::MissingMemberName);
    let shown = err.render().expect("inside its text");
    assert_eq!(shown, err.to_string());
    assert!(shown.starts_with("\u{1b}[1;38;5;197mError ES003E: \u{1b}[0mMissing member name\n"));
}
