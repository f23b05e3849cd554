use ender_script::ast::{Expression, Type};
use ender_script::compiler::{can_compile, compile, Compiler, MathOp};
use ender_script::cursor::Cursor;
use ender_script::environment::{Context, McFunction, Scope, Value};
use ender_script::message::MessageType;

fn at(start: usize, end: usize) -> Cursor {
    Cursor::spanning("<stdin>", "let x = 1\nlet x = 2", start, end)
}

fn lit(v: i64) -> Expression {
    Expression::Integer(v, at(0, 1))
}

fn var(name: &str) -> Expression {
    Expression::VariableAccess(name.to_string(), at(0, 1))
}

fn declare(name: &str, typed: bool, value: Option<Expression>, cursor: Cursor) -> Expression {
    Expression::VariableDeclaration {
        name: name.to_string(),
        variable_type: if typed { Some(Type { name: "int".to_string() }) } else { None },
        value: value.map(Box::new),
        cursor,
    }
}

fn add(left: Expression, right: Expression) -> Expression {
    Expression::Addition { left: Box::new(left), right: Box::new(right), cursor: at(0, 1) }
}

fn texts(ast: Vec<Expression>) -> Vec<(String, String)> {
    assert!(can_compile(&ast));
    match compile(ast) {
        Ok(functions) => functions.iter().map(|f| (f.name.clone(), f.to_string())).collect(),
        Err(m) => panic!("unexpected diagnostic {:?}", m.message_type),
    }
}

#[test]
fn declaration_of_a_constant_and_of_a_sum() {
    let ast = vec![
        declare("x", true, Some(lit(5)), at(0, 9)),
        declare("y", false, Some(add(var("x"), lit(3))), at(10, 19)),
    ];
    let out = texts(ast);
    assert_eq!(out.len(), 1);
    assert_eq!(out[0].0, "main");
    assert_eq!(
        out[0].1,
        "scoreboard objectives add main dummy\n\
         scoreboard players set $x main 5\n\
         scoreboard players operation $y main = $x main\n\
         scoreboard players add $y main 3\n\
         scoreboard objectives remove main\n"
    );
}

#[test]
fn redeclaration_points_at_the_second_declaration() {
    let ast = vec![
        declare("x", false, Some(lit(1)), at(0, 9)),
        declare("x", false, Some(lit(2)), at(10, 19)),
    ];
    assert!(can_compile(&ast));
    let err = compile(ast).err().expect("a diagnostic");
    assert_eq!(err.message_type, MessageType::MemberRedeclaration);
    assert_eq!(err.details, "Variable 'x' had already been declared");
    assert_eq!(err.cursor.start.index, 10);
    assert_eq!(err.cursor.start.line_num, 1);
    assert_eq!(err.cursor.start.col, 0);
    assert_eq!(err.cursor.end.index, 19);
    assert_eq!(err.cursor.end.col, 10);
}

#[test]
fn use_of_an_undeclared_name_fails() {
    let ast = vec![var("ghost")];
    assert!(can_compile(&ast));
    let err = compile(ast).err().expect("a diagnostic");
    assert_eq!(err.message_type, MessageType::UnknownMember);
    assert_eq!(err.details, "Variable 'ghost' is not declared in this scope");
}

#[test]
fn integer_literal_bounds() {
    let err = compile(vec![lit(2147483648)]).err().expect("a diagnostic");
    assert_eq!(err.message_type, MessageType::IntegerBoundsExceeded);
    assert_eq!(err.details, "Provided integer exceeds the 32 byte limit");
    let compiler = Compiler::new();
    let ok = compiler.compile_integer(&at(0, 1), 2147483647);
    assert!(matches!(ok, Ok(Value::Int(2147483647))));
    let low = compiler.compile_integer(&at(0, 1), -2147483648);
    assert!(matches!(low, Ok(Value::Int(-2147483648))));
    assert!(compiler.compile_integer(&at(0, 1), -2147483649).is_err());
}

#[test]
fn constants_fold_without_commands() {
    let ast = vec![add(lit(2), Expression::Multiplication {
        left: Box::new(lit(3)),
        right: Box::new(lit(4)),
        cursor: at(0, 1),
    })];
    let out = texts(ast);
    assert_eq!(
        out[0].1,
        "scoreboard objectives add main dummy\nscoreboard objectives remove main\n"
    );
    let mut compiler = Compiler::new();
    let mut scope = Scope::new(McFunction::new("f"), None);
    let v = compiler
        .compile_expression(&mut scope, &Context { macro_target: None }, &add(lit(2), lit(-7)))
        .ok()
        .unwrap();
    assert!(matches!(v, Value::Int(-5)));
    assert_eq!(scope.function.to_string(), "");
}

#[test]
fn compiling_twice_gives_the_same_text() {
    let make = || {
        vec![
            declare("a", false, Some(lit(7)), at(0, 9)),
            declare("b", false, Some(add(lit(1), var("a"))), at(10, 19)),
        ]
    };
    assert_eq!(texts(make()), texts(make()));
}

#[test]
fn operations_and_folding() {
    assert_eq!(MathOp::Addition.execute(2, 3), 5);
    assert_eq!(MathOp::Subtraction.execute(2, 3), -1);
    assert_eq!(MathOp::Multiplication.execute(-4, 3), -12);
    assert_eq!(MathOp::Division.execute(-7, 2), -3);
    assert_eq!(MathOp::Division.execute(7, -2), -3);
    assert_eq!(MathOp::Division.execute(-7, -2), 3);
    assert!(!MathOp::Division.can_execute(1, 0));
    assert!(!MathOp::Division.can_execute(i32::MIN, -1));
    assert!(!MathOp::Addition.can_execute(i32::MAX, 1));
    assert!(MathOp::Addition.can_execute(i32::MAX, 0));
    assert_eq!(MathOp::Division.symbol(), '/');
}
