//! Tests of the pure token queries: canonical syntax, reverse lookup,
//! classification, precedence, and the position type.

use script_lexer::error::LexError;
use script_lexer::lexer::lex;
use script_lexer::model::TokenizeState;
use script_lexer::position::Position;
use script_lexer::scanner::get_next_token;
use script_lexer::settings::{CustomKeywords, LexConfig, SymbolSet};
use script_lexer::stream::MultiInputsStream;
use script_lexer::token::{is_valid_identifier, Token};

#[test]
fn syntax_renders_canonical_spellings() {
    assert_eq!(Token::LeftShiftAssign.syntax(), "<<=");
    assert_eq!(Token::PowerOf.syntax(), "~");
    assert_eq!(Token::While.syntax(), "while");
    assert_eq!(Token::IntegerConstant(-42).syntax(), "-42");
    assert_eq!(Token::IntegerConstant(i64::MIN).syntax(), "-9223372036854775808");
    assert_eq!(Token::CharConstant('x').syntax(), "x");
    assert_eq!(Token::StringConstant("any text".to_string()).syntax(), "any text");
    assert_eq!(Token::Identifier("foo".to_string()).syntax(), "foo");
    assert_eq!(Token::EOF.syntax(), "{EOF}");
    assert_eq!(
        Token::LexError(LexError::StringTooLong(17)).syntax(),
        "Length of string literal exceeds the maximum limit 17"
    );
}

#[test]
fn lookup_round_trips_fixed_spellings() {
    let fixed = [
        Token::LeftBrace,
        Token::MapStart,
        Token::Plus,
        Token::Minus,
        Token::LeftShift,
        Token::LeftShiftAssign,
        Token::EqualsTo,
        Token::NotEqualsTo,
        Token::True,
        Token::Let,
        Token::While,
        Token::In,
        Token::Fn,
        Token::Private,
        Token::Import,
        Token::Export,
        Token::As,
        Token::PowerOfAssign,
        Token::DoubleColon,
    ];
    for token in fixed {
        let spelling = token.syntax();
        assert_eq!(Token::lookup_from_syntax(&spelling), Some(token));
    }
}

#[test]
fn lookup_reserves_confusables_and_engine_names() {
    assert_eq!(
        Token::lookup_from_syntax("=>"),
        Some(Token::Reserved("=>".to_string()))
    );
    assert_eq!(
        Token::lookup_from_syntax("print"),
        Some(Token::Reserved("print".to_string()))
    );
    assert_eq!(
        Token::lookup_from_syntax("Fn"),
        Some(Token::Reserved("Fn".to_string()))
    );
    assert_eq!(Token::lookup_from_syntax("frobnicate"), None);
    assert_eq!(Token::lookup_from_syntax("{EOF}"), None);
}

#[test]
fn classification_queries() {
    assert!(Token::EOF.is_eof());
    assert!(!Token::Plus.is_eof());

    assert!(Token::Plus.is_operator());
    assert!(Token::MapStart.is_operator());
    assert!(!Token::Let.is_operator());

    assert!(Token::Let.is_keyword());
    assert!(Token::As.is_keyword());
    assert!(!Token::Plus.is_keyword());

    assert!(Token::Reserved("->".to_string()).is_reserved());
    assert!(Token::Custom("frob".to_string()).is_custom());

    assert!(Token::Plus.is_next_unary());
    assert!(Token::LeftParen.is_next_unary());
    assert!(!Token::IntegerConstant(1).is_next_unary());
    assert!(!Token::RightParen.is_next_unary());

    assert!(Token::Equals.is_bind_right());
    assert!(Token::Period.is_bind_right());
    assert!(!Token::Plus.is_bind_right());
}

#[test]
fn precedence_table() {
    assert_eq!(Token::Equals.precedence(None), 0);
    assert_eq!(Token::Or.precedence(None), 30);
    assert_eq!(Token::And.precedence(None), 60);
    assert_eq!(Token::EqualsTo.precedence(None), 90);
    assert_eq!(Token::LessThan.precedence(None), 110);
    assert_eq!(Token::In.precedence(None), 130);
    assert_eq!(Token::Plus.precedence(None), 150);
    assert_eq!(Token::Multiply.precedence(None), 180);
    assert_eq!(Token::LeftShift.precedence(None), 210);
    assert_eq!(Token::Period.precedence(None), 240);

    let mut custom = CustomKeywords::new();
    custom.insert("frob".to_string(), 45);
    assert_eq!(Token::Custom("frob".to_string()).precedence(Some(&custom)), 45);
    assert_eq!(Token::Custom("frob".to_string()).precedence(None), 0);
}

#[test]
fn custom_keyword_table_later_declaration_wins() {
    let mut custom = CustomKeywords::new();
    custom.insert("frob".to_string(), 45);
    custom.insert("frob".to_string(), 99);
    assert_eq!(custom.get("frob"), Some(99));
    assert_eq!(custom.get("other"), None);
    assert!(custom.contains_key("frob"));
}

#[test]
fn symbol_set_membership() {
    let mut set = SymbolSet::new();
    set.insert("+".to_string());
    assert!(set.contains("+"));
    assert!(!set.contains("-"));
}

#[test]
fn identifier_validity() {
    assert!(is_valid_identifier("abc"));
    assert!(is_valid_identifier("_abc"));
    assert!(is_valid_identifier("a1_b2"));
    assert!(is_valid_identifier("__a"));
    assert!(!is_valid_identifier("_"));
    assert!(!is_valid_identifier("___"));
    assert!(!is_valid_identifier("_1a"));
    assert!(!is_valid_identifier(""));
}

#[test]
fn positions_report_one_based_values() {
    let pos = Position::new(3, 7);
    assert_eq!(pos.line(), Some(3));
    assert_eq!(pos.position(), Some(7));
    assert!(!pos.is_none());

    let bol = Position::new(1, 0);
    assert_eq!(bol.line(), Some(1));
    assert_eq!(bol.position(), None);

    assert_eq!(Position::default(), Position::new(1, 0));
}

#[test]
fn comments_surface_when_requested() {
    let fragments = ["/* keep */ 1"];
    let mut stream = MultiInputsStream::new(&fragments);
    let mut state = TokenizeState::default();
    state.include_comments = true;
    let mut pos = Position::new(1, 0);

    let (token, at) = get_next_token(&mut stream, &mut state, &mut pos).unwrap();
    assert_eq!(token, Token::Comment("/* keep */".to_string()));
    assert_eq!(at, Position::new(1, 1));
    let (token, _) = get_next_token(&mut stream, &mut state, &mut pos).unwrap();
    assert_eq!(token, Token::IntegerConstant(1));
}

#[test]
fn line_comments_surface_when_requested() {
    let fragments = ["// note\n2"];
    let mut stream = MultiInputsStream::new(&fragments);
    let mut state = TokenizeState::default();
    state.include_comments = true;
    let mut pos = Position::new(1, 0);

    let (token, _) = get_next_token(&mut stream, &mut state, &mut pos).unwrap();
    assert_eq!(token, Token::Comment("// note".to_string()));
    let (token, _) = get_next_token(&mut stream, &mut state, &mut pos).unwrap();
    assert_eq!(token, Token::IntegerConstant(2));
}

#[test]
fn end_with_none_signals_plain_exhaustion() {
    let fragments = ["1"];
    let mut stream = MultiInputsStream::new(&fragments);
    let mut state = TokenizeState::default();
    state.end_with_none = true;
    let mut pos = Position::new(1, 0);

    let (token, _) = get_next_token(&mut stream, &mut state, &mut pos).unwrap();
    assert_eq!(token, Token::IntegerConstant(1));
    assert!(get_next_token(&mut stream, &mut state, &mut pos).is_none());
}

#[test]
fn unary_tracking_carries_across_tokens() {
    let config = LexConfig::new();
    let fragments = ["= -1"];
    let mut it = lex(&fragments, &config);
    let (t1, _) = it.next().unwrap();
    assert_eq!(t1, Token::Equals);
    // After `=`, the minus is unary and folds into the literal.
    let (t2, _) = it.next().unwrap();
    assert_eq!(t2, Token::IntegerConstant(-1));
}

#[test]
fn error_messages_render() {
    assert_eq!(
        LexError::UnexpectedInput("$".to_string()).message(),
        "Unexpected '$'"
    );
    assert_eq!(
        LexError::UnterminatedString.message(),
        "Open string is not terminated"
    );
    assert_eq!(
        LexError::MalformedNumber("0x".to_string()).message(),
        "Invalid number: '0x'"
    );
}
