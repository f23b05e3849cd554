use ender_script::lexer::{
    advance, get_current_char, ExpectedCharacterError, IllegalCharacterError,
    InvalidEscapeSequenceError, Keyword,
};
use ender_script::util::{Position, DIGITS, VALID_CHARS};
use ender_script::variant::{MessageType, MessageVariant};

#[test]
fn reserved_words() {
    assert_eq!(Keyword::parse("and"), Some(Keyword::And));
    assert_eq!(Keyword::parse("or"), Some(Keyword::Or));
    assert_eq!(Keyword::parse("not"), Some(Keyword::Not));
    assert_eq!(Keyword::parse("if"), Some(Keyword::If));
    assert_eq!(Keyword::parse("else"), Some(Keyword::Else));
    assert_eq!(Keyword::parse("while"), Some(Keyword::While));
    assert_eq!(Keyword::parse("function"), Some(Keyword::Function));
    assert_eq!(Keyword::parse("functions"), None);
    assert_eq!(Keyword::parse(""), None);
    assert_eq!(Keyword::parse("If"), None);
}

#[test]
fn stepping_through_a_text() {
    let mut pos = Position::new("f.es", "a\nb");
    assert_eq!(get_current_char(&pos), Some('a'));
    pos.advance();
    assert_eq!((pos.index, pos.ln, pos.col), (1, 0, 1));
    assert_eq!(get_current_char(&pos), Some('\n'));
    {
        let stepped = advance(&mut pos).expect("inside the text");
        assert_eq!((stepped.index, stepped.ln, stepped.col), (2, 1, 0));
    }
    assert_eq!(get_current_char(&pos), Some('b'));
    assert!(advance(&mut pos).is_some());
    assert_eq!((pos.index, pos.ln, pos.col), (3, 1, 1));
    assert_eq!(get_current_char(&pos), None);
    assert!(advance(&mut pos).is_none());
    assert_eq!((pos.index, pos.ln, pos.col), (3, 1, 1));
    pos.forced_advance();
    assert_eq!((pos.index, pos.ln, pos.col), (4, 1, 2));
    let copy = pos.clone();
    assert_eq!((copy.index, copy.ln, copy.col), (4, 1, 2));
    assert_eq!(copy.file_name, "f.es");
    assert_eq!(copy.text, "a\nb");
    assert_eq!(DIGITS.len(), 10);
    assert_eq!(VALID_CHARS.len(), 63);
}

#[test]
fn errors_of_a_scan() {
    let at = Position::new("f.es", "&");
    let e = IllegalCharacterError("'&'".to_string(), at.clone(), at.clone());
    assert_eq!(e.name, "Illegal Character");
    assert_eq!(e.details, "'&'");
    assert_eq!(ExpectedCharacterError("'&'".to_string(), at.clone(), at.clone()).name, "Expected Character");
    assert_eq!(
        InvalidEscapeSequenceError("x".to_string(), at.clone(), at.clone()).name,
        "Invalid Escape Sequence"
    );
}

#[test]
fn catalogue_of_messages() {
    assert_eq!(
        MessageVariant::IllegalCharacter.parameters(),
        (MessageType::Error, "ES000E", "Illegal character")
    );
    assert_eq!(MessageVariant::UnexpectedEOF.code(), "ES100E");
    assert_eq!(MessageVariant::UnexpectedEOF.name(), "Unexpected end of file");
    assert_eq!(MessageVariant::MissingExpressionOrCodeblockOpening.code(), "ES111E");
    assert_eq!(MessageVariant::DivisionByZero.code(), "ES300E");
    assert_eq!(MessageVariant::DivisionByZero.name(), "Division by zero");
    assert!(MessageVariant::MissingTupleClosure.is_error());
}
