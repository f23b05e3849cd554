use ender_script::cursor::Cursor;
use ender_script::message::{Message, MessageType};
use ender_script::register::{
    BinFile, CompileRegister, CompileResult, Compiler, Path, SymbolTable, Type, Value,
};
use ender_script::util::Position;

fn error() -> Message {
    Message::error(MessageType::MissingExpression, "Expected any expression", Cursor::new("f", "x"))
}

fn step(result: Result<Value, Message>, advanced: usize) -> CompileResult {
    CompileResult {
        result,
        last_registered_advance_count: 0,
        advance_count: advanced,
        to_reverse_count: 0,
    }
}

#[test]
fn paths_and_files() {
    let p = Path::new("pack.functions.main");
    assert_eq!(p.segments, vec!["pack", "functions", "main"]);
    assert_eq!(p.namespace(), "pack");
    assert_eq!(p.to_string(), "pack:functions/main");
    assert_eq!(Path::new("solo").to_string(), "solo:");
    assert_eq!(Path::new("").segments, vec![""]);
    assert_eq!(Path::new("a.").segments, vec!["a", ""]);
    assert_eq!(Path::new(".b").segments, vec!["", "b"]);
    let mut f = BinFile::new(Path::new("a.b"));
    assert_eq!(f.text, "");
    f.push("say 1");
    assert_eq!(f.push("say 2").text, "say 1\nsay 2\n");
    assert_eq!(f.clone().path.to_string(), "a:b");
}

#[test]
fn values_and_their_positions() {
    let v = Value::new(Type::Int(4));
    assert!(v.start_pos.is_none());
    assert!(v.end_pos.is_none());
    let mut end = Position::new("f", "abc");
    end.advance();
    let v = v.set_pos(&Position::new("f", "abc"), &end);
    assert!(matches!(v.typ, Type::Int(4)));
    assert_eq!(v.start_pos.as_ref().unwrap().index, 0);
    assert_eq!(v.end_pos.as_ref().unwrap().index, 1);
}

#[test]
fn register_counts_and_results() {
    let mut reg = CompileRegister::new();
    assert!(!reg.failed());
    assert!(!reg.succeeded());
    reg.register_advancement();
    reg.register_advancement();
    assert_eq!((reg.last_registered_advance_count, reg.advance_count), (2, 2));
    let v = reg.register(&step(Ok(Value::new(Type::Int(1))), 3)).ok().unwrap();
    assert!(matches!(v.typ, Type::Int(1)));
    assert_eq!((reg.last_registered_advance_count, reg.advance_count), (3, 5));
    assert!(!reg.succeeded());
    assert!(reg.try_register(&step(Err(error()), 4)).is_err());
    assert_eq!((reg.advance_count, reg.to_reverse_count), (5, 4));
    assert!(!reg.failed());
    assert!(reg.try_register(&step(Ok(Value::new(Type::Int(2))), 1)).is_ok());
    assert_eq!((reg.last_registered_advance_count, reg.advance_count), (1, 6));
    let done = reg.success(Value::new(Type::IntPointer("x".to_string())));
    assert!(reg.succeeded());
    assert_eq!((done.advance_count, done.to_reverse_count), (6, 4));
    assert!(matches!(&done.result, Ok(v) if matches!(&v.typ, Type::IntPointer(n) if n == "x")));
    let packed = reg.pack();
    assert!(packed.result.is_ok());
    assert!(reg.register(&step(Err(error()), 0)).is_err());
    assert!(reg.failed());
    let failed = reg.failure(error());
    assert!(failed.result.is_err());
    let again = failed.to_register();
    assert!(again.failed());
    assert_eq!((again.advance_count, again.last_registered_advance_count, again.to_reverse_count), (6, 0, 4));
}

#[test]
fn sums_of_values() {
    let mut c = Compiler::new("pack.main");
    assert!(matches!(c.add_int_to_int(&2, &-5).typ, Type::Int(-3)));
    let r = c.add(&Value::new(Type::Int(2)), &Value::new(Type::Int(3)));
    assert!(matches!(&r.result, Ok(v) if matches!(v.typ, Type::Int(5))));
    assert_eq!(c.main_file.text, "");
    let r = c.add(&Value::new(Type::IntPointer("x".to_string())), &Value::new(Type::Int(7)));
    assert!(matches!(&r.result, Ok(v) if matches!(&v.typ, Type::IntPointer(n) if n == "x")));
    assert_eq!((r.advance_count, r.last_registered_advance_count, r.to_reverse_count), (0, 0, 0));
    let r = c.add(&Value::new(Type::Int(-1)), &Value::new(Type::IntPointer("y".to_string())));
    assert!(matches!(&r.result, Ok(v) if matches!(&v.typ, Type::IntPointer(n) if n == "y")));
    assert_eq!(
        c.main_file.text,
        "scoreboard players add .x .es-storage 7\nscoreboard players add .y .es-storage -1\n"
    );
    c.helper_files.push(BinFile::new(Path::new("pack.helper")));
    let files = c.bin_files();
    assert_eq!(files.len(), 2);
    assert_eq!(files[0].path.to_string(), "pack:helper");
    assert_eq!(files[1].path.to_string(), "pack:main");
    assert_eq!(files[1].text, c.main_file.text);
}

#[test]
fn symbol_tables() {
    let outer = SymbolTable::new(None);
    let mut inner = SymbolTable::new(Some(&outer));
    let v = inner.add("x".to_string(), Value::new(Type::Int(9)));
    assert!(matches!(v.typ, Type::Int(9)));
    assert_eq!(inner.symbols.len(), 1);
    assert_eq!(inner.symbols[0].0, "x");
    assert!(inner.parent.is_some());
}
