use ender_script::ast::Expression;
use ender_script::message::MessageType;
use ender_script::parser::{parse, Parser};
use ender_script::token::{to_i64, to_string, tokenize, Token};

fn kinds(text: &str) -> Vec<Token> {
    tokenize(text).iter().map(|l| l.token).collect()
}

fn slices(text: &str) -> Vec<String> {
    tokenize(text).iter().map(|l| text.chars().skip(l.start).take(l.end - l.start).collect()).collect()
}

#[test]
fn strings() {
    let text = "\"Hello, World!\"";
    assert_eq!(kinds(text)[0], Token::String);
    assert_eq!(slices(text)[0], "\"Hello, World!\"");
}

#[test]
fn identifiers() {
    let text = "x y z abc Class";
    let k = kinds(text);
    let s = slices(text);
    assert_eq!(k[0], Token::Identifier);
    assert_eq!(s[0], "x");
    assert_eq!(k[1], Token::Identifier);
    assert_eq!(s[1], "y");
    assert_eq!(k[2], Token::Identifier);
    assert_eq!(s[2], "z");
    assert_eq!(k[3], Token::Identifier);
    assert_eq!(s[3], "abc");
    assert_eq!(k[4], Token::Identifier);
    assert_eq!(s[4], "Class");
}

#[test]
fn keywords() {
    let text = "function while if else or not and";
    let k = kinds(text);
    assert_eq!(k[0], Token::Function);
    assert_eq!(k[1], Token::Identifier);
    assert_eq!(k[2], Token::Identifier);
    assert_eq!(k[3], Token::Identifier);
    assert_eq!(k[4], Token::Identifier);
    assert_eq!(k[5], Token::Identifier);
    assert_eq!(k[6], Token::Identifier);
    assert_eq!(k[7], Token::EoF);
    assert_eq!(
        kinds("function let raw functions letx"),
        vec![
            Token::Function,
            Token::Let,
            Token::Raw,
            Token::Identifier,
            Token::Identifier,
            Token::EoF
        ]
    );
}

#[test]
fn symbols() {
    let text = "== != <= >= < > && || + - * / ! ( ) { } : ,";
    let k = kinds(text);
    assert_eq!(&k[0..2], &[Token::Assign, Token::Assign]);
    assert_eq!(&k[2..4], &[Token::Error, Token::Assign]);
    assert_eq!(&k[4..6], &[Token::Error, Token::Assign]);
    assert_eq!(&k[6..8], &[Token::Error, Token::Assign]);
    assert_eq!(k[8], Token::Error);
    assert_eq!(k[9], Token::Error);
    assert_eq!(&k[10..14], &[Token::Error, Token::Error, Token::Error, Token::Error]);
    assert_eq!(k[14], Token::Plus);
    assert_eq!(k[15], Token::Minus);
    assert_eq!(k[16], Token::Asterisk);
    assert_eq!(k[17], Token::Slash);
    assert_eq!(k[18], Token::Error);
    assert_eq!(k[19], Token::LeftParen);
    assert_eq!(k[20], Token::RightParen);
    assert_eq!(k[21], Token::LeftBrace);
    assert_eq!(k[22], Token::RightBrace);
    assert_eq!(k[23], Token::Colon);
    assert_eq!(k[24], Token::Comma);
    assert_eq!(k[25], Token::EoF);
    assert_eq!(kinds("=\n"), vec![Token::Assign, Token::NewLine, Token::EoF]);
}

#[test]
fn integers_and_their_values() {
    assert_eq!(kinds("45 500_000_000 -1"), vec![Token::Integer, Token::Integer, Token::Integer, Token::EoF]);
    assert_eq!(slices("45 500_000_000 -1")[1], "500_000_000");
    assert_eq!(to_i64("45"), 45);
    assert_eq!(to_i64("500_000_000"), 500_000_000);
    assert_eq!(to_i64("-1"), -1);
    assert_eq!(to_i64("-9223372036854775808"), i64::MIN);
    assert_eq!(to_i64("9223372036854775807"), i64::MAX);
    assert_eq!(kinds("1_ x"), vec![Token::Integer, Token::Error, Token::Identifier, Token::EoF]);
    assert_eq!(kinds("1__2"), vec![Token::Integer, Token::Error, Token::Error, Token::Integer, Token::EoF]);
    assert_eq!(kinds("x-5"), vec![Token::Identifier, Token::Integer, Token::EoF]);
    assert_eq!(kinds("x - 5"), vec![Token::Identifier, Token::Minus, Token::Integer, Token::EoF]);
}

#[test]
fn string_literals_and_illegal_characters() {
    assert_eq!(to_string("\"abc\""), "abc");
    assert_eq!(to_string("\"\""), "");
    assert_eq!(kinds("\"a\\\"b\" c"), vec![Token::String, Token::Identifier, Token::EoF]);
    assert_eq!(slices("\"a\\\"b\" c")[0], "\"a\\\"b\"");
    assert_eq!(slices("\"a\\\" b")[0], "\"a\\\"");
    assert_eq!(kinds("\"abc"), vec![Token::Error, Token::Identifier, Token::EoF]);
    assert_eq!(kinds("a @ b"), vec![Token::Identifier, Token::Error, Token::Identifier, Token::EoF]);
    assert_eq!(kinds(" \t\u{c}"), vec![Token::EoF]);
    let eof = tokenize("ab ")[1];
    assert_eq!((eof.token, eof.start, eof.end), (Token::EoF, 3, 3));
}

#[test]
fn let_with_type_and_value() {
    let ast = parse("let x: int = 5").ok().expect("a tree");
    assert_eq!(ast.len(), 1);
    match &ast[0] {
        Expression::VariableDeclaration { name, variable_type, value, cursor } => {
            assert_eq!(name, "x");
            assert_eq!(variable_type.as_ref().unwrap().name, "int");
            match value.as_deref() {
                Some(Expression::Integer(5, c)) => {
                    assert_eq!((c.start.index, c.end.index), (13, 14));
                }
                other => panic!("unexpected initializer {:?}", other),
            }
            assert_eq!((cursor.start.index, cursor.end.index), (0, 14));
            assert_eq!(cursor.file_name, "<stdin>");
            assert_eq!(cursor.text, "let x: int = 5");
        }
        other => panic!("unexpected node {:?}", other),
    }
}

#[test]
fn copies_of_a_tree() {
    let ast = parse("function f(a: int) { let b = g(a, 1) * (2 - a)\n raw \"say\" }").ok().expect("a tree");
    let copy = ast[0].clone();
    assert_eq!(format!("{:?}", copy), format!("{:?}", ast[0]));
    let again = copy.duplicate();
    assert_eq!(format!("{:?}", again), format!("{:?}", ast[0]));
}

#[test]
fn let_without_type() {
    let ast = parse("let y = x").ok().expect("a tree");
    assert_eq!(ast.len(), 1);
    match &ast[0] {
        Expression::VariableDeclaration { name, variable_type, value, .. } => {
            assert_eq!(name, "y");
            assert!(variable_type.is_none());
            assert!(matches!(value.as_deref(), Some(Expression::VariableAccess(n, _)) if n == "x"));
        }
        other => panic!("unexpected node {:?}", other),
    }
}

#[test]
fn let_without_type_and_value_fails() {
    let err = parse("let z").err().expect("a diagnostic");
    assert_eq!(err.message_type, MessageType::MissingMemberTypeOrValueAssignment);
    assert_eq!(err.details, "Expected ':' to declare variable type or '=' to assign a value");
    assert_eq!((err.cursor.start.index, err.cursor.end.index), (5, 5));
}

#[test]
fn precedence_and_grouping() {
    let ast = parse("1 + 2 * 3 - (4 - 5) / 6").ok().expect("a tree");
    match &ast[0] {
        Expression::Subtraction { left, right, .. } => {
            match &**left {
                Expression::Addition { left: a, right: b, .. } => {
                    assert!(matches!(&**a, Expression::Integer(1, _)));
                    assert!(matches!(&**b, Expression::Multiplication { .. }));
                }
                other => panic!("unexpected node {:?}", other),
            }
            match &**right {
                Expression::Division { left: a, right: b, .. } => {
                    assert!(matches!(&**a, Expression::Subtraction { .. }));
                    assert!(matches!(&**b, Expression::Integer(6, _)));
                }
                other => panic!("unexpected node {:?}", other),
            }
        }
        other => panic!("unexpected node {:?}", other),
    }
}

#[test]
fn statements_and_separators() {
    assert_eq!(parse("let x: int\nlet y = 1\n\n\nx + y\n").ok().unwrap().len(), 3);
    assert_eq!(parse("").ok().unwrap().len(), 0);
    let err = parse("1 2").err().unwrap();
    assert_eq!(err.message_type, MessageType::MissingBlockSeparatorOrClosure);
    assert_eq!(err.details, "Expected a new line or '}'");
    assert_eq!(err.cursor.start.index, 2);
    assert_eq!(parse("\n1").err().unwrap().message_type, MessageType::MissingExpression);
    let err = parse("let x = 1\nlet z").err().unwrap();
    assert_eq!(err.message_type, MessageType::MissingMemberTypeOrValueAssignment);
    assert_eq!(err.cursor.start.line_num, 1);
}

#[test]
fn function_declarations() {
    let ast = parse("function f(a: int, b: int): int { let c = a + b\n c * 2\n}").ok().expect("a tree");
    match &ast[0] {
        Expression::FunctionDeclaration { name, parameters, return_type, body, cursor } => {
            assert_eq!(name, "f");
            assert_eq!(parameters.len(), 2);
            assert_eq!(parameters[1].name, "b");
            assert_eq!(parameters[1].type_.name, "int");
            assert_eq!(return_type.as_ref().unwrap().name, "int");
            assert_eq!(body.len(), 2);
            assert_eq!(cursor.start.index, 0);
            assert_eq!(cursor.end.index, 56);
        }
        other => panic!("unexpected node {:?}", other),
    }
    assert!(matches!(
        &parse("function g() {}").ok().unwrap()[0],
        Expression::FunctionDeclaration { body, .. } if body.is_empty()
    ));
    let cases = [
        ("function", MessageType::MissingMemberName, "Expected function name"),
        ("function f", MessageType::MissingCase, "Expected '(' to open parameter declaration"),
        ("function f(1", MessageType::MissingMemberName, "Expected parameter name"),
        ("function f(a b", MessageType::MissingMemberType, "Expected ':' to declare parameter type"),
        ("function f(a: 1", MessageType::MissingMemberType, "Expected parameter type"),
        ("function f(): 1", MessageType::MissingMemberType, "Expected return type"),
        ("function f() 1", MessageType::MissingBlock, "Expected '{' to open a block"),
        ("function f() { 1 2 }", MessageType::MissingBlockSeparatorOrClosure, "Expected a new line or '}'"),
        ("function f() { 1 \n let }", MessageType::MissingBlockSeparatorOrClosure, "Expected a new line or '}'"),
        ("function f() { let }", MessageType::MissingMemberName, "Expected variable name"),
    ];
    for (text, kind, details) in cases {
        let err = parse(text).err().expect(text);
        assert_eq!(err.message_type, kind, "{}", text);
        assert_eq!(err.details, details, "{}", text);
    }
}

#[test]
fn checks_that_fail_softly_or_hard() {
    let parser = Parser::new("<stdin>", "let name = @");
    assert!(matches!(parser.suspect(0, Token::Let), Ok(Some(Token::Let))));
    assert!(matches!(parser.suspect(0, Token::Raw), Ok(None)));
    assert_eq!(parser.suspect(3, Token::Let).err().unwrap().message_type, MessageType::IllegalCharacter);
    assert!(matches!(parser.suspect_and_advance(0, Token::Let), (Ok(Some(Token::Let)), 1)));
    assert!(matches!(parser.suspect_and_advance(0, Token::Raw), (Ok(None), 0)));
    assert!(matches!(parser.suspect_identifier(1), Ok(Some(name)) if name == "name"));
    assert!(matches!(parser.suspect_identifier(0), Ok(None)));
    assert!(matches!(parser.suspect_identifier_and_advance(1), (Ok(Some(name)), 2) if name == "name"));
    assert!(matches!(parser.suspect_identifier_and_advance(2), (Ok(None), 2)));
    let error = || parser.fail(2, MessageType::MissingCase, "wanted".to_string());
    assert!(matches!(parser.expect(2, Token::Assign, error()), Ok(Token::Assign)));
    let given = parser.expect(2, Token::Colon, error()).err().unwrap();
    assert_eq!((given.message_type, given.details.as_str()), (MessageType::MissingCase, "wanted"));
    let illegal = parser.expect(3, Token::Colon, error()).err().unwrap();
    assert_eq!(illegal.message_type, MessageType::IllegalCharacter);
    assert_eq!(illegal.details, "Character '@' is not allowed");
    assert!(matches!(parser.expect_and_advance(2, Token::Assign, error()), (Ok(Token::Assign), 3)));
    assert!(matches!(parser.expect_and_advance(2, Token::Colon, error()), (Err(_), 3)));
    assert!(matches!(parser.expect_identifier(1, error()), Ok(name) if name == "name"));
    assert!(matches!(parser.expect_identifier_and_advance(1, error()), (Ok(name), 2) if name == "name"));
    assert!(parser.expect_identifier(0, error()).is_err());
    assert_eq!(parser.kind(4), Token::EoF);
    assert_eq!(parser.kind(40), Token::EoF);
    let lines = Parser::new("<stdin>", "1\n\n\n2");
    assert_eq!(lines.skip_newlines(1), 4);
    assert_eq!(lines.skip_newlines(0), 0);
}

#[test]
fn blocks_end_where_no_statement_follows() {
    let ast = parse("function f() { function g() { 1\n\n2\n }\n\n g\n\n }\n3").ok().expect("a tree");
    assert_eq!(ast.len(), 2);
    match &ast[0] {
        Expression::FunctionDeclaration { body, .. } => {
            assert_eq!(body.len(), 2);
            assert!(matches!(&body[0], Expression::FunctionDeclaration { body: inner, .. } if inner.len() == 2));
            assert!(matches!(&body[1], Expression::VariableAccess(n, _) if n == "g"));
        }
        other => panic!("unexpected node {:?}", other),
    }
    let err = parse("function f() { 1\n 2 3 }").err().unwrap();
    assert_eq!(err.message_type, MessageType::MissingBlockSeparatorOrClosure);
    assert_eq!(err.cursor.start.index, 20);
    let err = parse("function f() { 1\n (2 }").err().unwrap();
    assert_eq!(err.message_type, MessageType::MissingBlockSeparatorOrClosure);
    assert_eq!(err.cursor.start.index, 18);
    assert_eq!(parse("function f() {\n 1 }").err().unwrap().message_type, MessageType::MissingExpression);
}

#[test]
fn other_statements_and_diagnostics() {
    assert!(matches!(
        &parse("raw \"say hi\"").ok().unwrap()[0],
        Expression::RawCode { string, .. } if string == "say hi"
    ));
    assert_eq!(parse("raw 5").err().unwrap().message_type, MessageType::MissingExpression);
    assert!(matches!(
        &parse("x = 1 + 2").ok().unwrap()[0],
        Expression::VariableAssign { name, .. } if name == "x"
    ));
    match &parse("f(1, x, 2 + 3)").ok().unwrap()[0] {
        Expression::FunctionCall { name, arguments, cursor } => {
            assert_eq!(name, "f");
            assert_eq!(arguments.len(), 3);
            assert_eq!((cursor.start.index, cursor.end.index), (0, 14));
        }
        other => panic!("unexpected node {:?}", other),
    }
    let err = parse("let x = @").err().unwrap();
    assert_eq!(err.message_type, MessageType::IllegalCharacter);
    assert_eq!(err.details, "Character '@' is not allowed");
    assert_eq!(parse("let 5").err().unwrap().message_type, MessageType::MissingMemberName);
    assert_eq!(parse("let @").err().unwrap().message_type, MessageType::IllegalCharacter);
    assert_eq!(parse("function f(a @").err().unwrap().message_type, MessageType::IllegalCharacter);
    assert_eq!(parse("function f() @").err().unwrap().message_type, MessageType::IllegalCharacter);
    assert_eq!(parse("(1 @").err().unwrap().message_type, MessageType::IllegalCharacter);
    assert_eq!(parse("let x: 5").err().unwrap().message_type, MessageType::MissingMemberType);
    assert_eq!(parse("let x: int @").err().unwrap().message_type, MessageType::IllegalCharacter);
    assert_eq!(parse("(1 + 2").err().unwrap().message_type, MessageType::MissingCaseClosure);
    assert_eq!(parse("1 +").err().unwrap().message_type, MessageType::MissingExpression);
    assert_eq!(
        parse("99999999999999999999").err().unwrap().message_type,
        MessageType::IntegerBoundsExceeded
    );
    let parser = Parser::new("main.es", "a\nbc");
    let c = parser.cursor_over(2, 2);
    assert_eq!(c.file_name, "main.es");
    assert_eq!((c.start.line_num, c.start.col, c.end.line_num, c.end.col), (1, 0, 1, 3));
}
