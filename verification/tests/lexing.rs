//! End-to-end tests of the token stream: literals, comments, unary
//! disambiguation, string limits, and the override layer.

use script_lexer::error::LexError;
use script_lexer::lexer::lex;
use script_lexer::position::Position;
use script_lexer::settings::{CustomKeywords, LexConfig, SymbolSet};
use script_lexer::token::Token;

fn tokens_of(input: &str, config: &LexConfig) -> Vec<(Token, Position)> {
    let fragments = [input];
    let mut it = lex(&fragments, config);
    let mut out = Vec::new();
    for _ in 0..10_000 {
        match it.next() {
            Some((token, pos)) => {
                if token.is_eof() {
                    return out;
                }
                out.push((token, pos));
            }
            None => return out,
        }
    }
    panic!("token stream did not terminate");
}

fn plain_tokens(input: &str) -> Vec<Token> {
    let config = LexConfig::new();
    tokens_of(input, &config).into_iter().map(|(t, _)| t).collect()
}

#[test]
fn decimal_integer_lexes_to_exact_value() {
    assert_eq!(plain_tokens("42"), vec![Token::IntegerConstant(42)]);
    assert_eq!(plain_tokens("0"), vec![Token::IntegerConstant(0)]);
    assert_eq!(
        plain_tokens("9223372036854775807"),
        vec![Token::IntegerConstant(i64::MAX)]
    );
    assert_eq!(plain_tokens("1_000_000"), vec![Token::IntegerConstant(1_000_000)]);
}

#[test]
fn radix_literals_decode_to_base_ten_equivalents() {
    assert_eq!(plain_tokens("0x1F"), vec![Token::IntegerConstant(31)]);
    assert_eq!(plain_tokens("0o17"), vec![Token::IntegerConstant(15)]);
    assert_eq!(plain_tokens("0b101"), vec![Token::IntegerConstant(5)]);
    assert_eq!(plain_tokens("0X1f"), vec![Token::IntegerConstant(31)]);
}

#[test]
fn overflowing_number_is_malformed() {
    let tokens = plain_tokens("9223372036854775808");
    assert_eq!(tokens.len(), 1);
    assert_eq!(
        tokens[0],
        Token::LexError(LexError::MalformedNumber("9223372036854775808".to_string()))
    );
    // The most negative value still fits when the sign folds in.
    assert_eq!(
        plain_tokens("(-9223372036854775808)"),
        vec![
            Token::LeftParen,
            Token::IntegerConstant(i64::MIN),
            Token::RightParen,
        ]
    );
}

#[test]
fn empty_radix_literal_is_malformed() {
    assert_eq!(
        plain_tokens("0x"),
        vec![Token::LexError(LexError::MalformedNumber("0x".to_string()))]
    );
}

#[test]
fn string_escapes_round_trip() {
    assert_eq!(
        plain_tokens("\"a\\tb\\nc\""),
        vec![Token::StringConstant("a\tb\nc".to_string())]
    );
    assert_eq!(
        plain_tokens("\"back\\\\slash and \\\"quote\\\"\""),
        vec![Token::StringConstant("back\\slash and \"quote\"".to_string())]
    );
    assert_eq!(
        plain_tokens("\"\\x41\\u0042\\U00000043\""),
        vec![Token::StringConstant("ABC".to_string())]
    );
}

#[test]
fn malformed_escapes_error() {
    assert_eq!(
        plain_tokens("\"\\q\""),
        vec![
            Token::LexError(LexError::MalformedEscapeSequence("\\".to_string())),
            Token::LexError(LexError::UnterminatedString),
        ]
    );
    assert_eq!(
        plain_tokens("\"\\xZZ\""),
        vec![
            Token::LexError(LexError::MalformedEscapeSequence("\\xZ".to_string())),
            Token::Identifier("Z".to_string()),
            Token::LexError(LexError::UnterminatedString),
        ]
    );
    // A surrogate code point is not a Unicode scalar value.
    assert_eq!(
        plain_tokens("\"\\uD800\""),
        vec![
            Token::LexError(LexError::MalformedEscapeSequence("\\uD800".to_string())),
            Token::LexError(LexError::UnterminatedString),
        ]
    );
}

#[test]
fn string_too_long_and_unterminated() {
    let mut config = LexConfig::new();
    config.max_string_size = 3;
    let tokens = tokens_of("\"abcdefgh\"", &config);
    assert_eq!(tokens[0].0, Token::LexError(LexError::StringTooLong(3)));

    let config = LexConfig::new();
    let tokens = tokens_of("\"abc", &config);
    assert_eq!(tokens, vec![(Token::LexError(LexError::UnterminatedString), Position::new(1, 4))]);

    // A raw newline inside a string terminates it, pointing at the newline.
    let tokens = tokens_of("\"ab\ncd\"", &config);
    assert_eq!(tokens[0], (Token::LexError(LexError::UnterminatedString), Position::new(1, 3)));
}

#[test]
fn char_literals() {
    assert_eq!(plain_tokens("'x'"), vec![Token::CharConstant('x')]);
    assert_eq!(plain_tokens("'\\t'"), vec![Token::CharConstant('\t')]);
    let tokens = plain_tokens("'ab'");
    assert_eq!(tokens[0], Token::LexError(LexError::MalformedChar("ab".to_string())));
}

#[test]
fn empty_char_literal_is_malformed() {
    let tokens = plain_tokens("''");
    assert_eq!(tokens[0], Token::LexError(LexError::MalformedChar(String::new())));
}

#[test]
fn unary_minus_folds_into_literal() {
    assert_eq!(
        plain_tokens("(-5)"),
        vec![
            Token::LeftParen,
            Token::IntegerConstant(-5),
            Token::RightParen,
        ]
    );
}

#[test]
fn binary_minus_stays_split() {
    assert_eq!(
        plain_tokens("3-5"),
        vec![
            Token::IntegerConstant(3),
            Token::Minus,
            Token::IntegerConstant(5),
        ]
    );
}

#[test]
fn nested_block_comment_is_one_unit() {
    let config = LexConfig::new();
    let tokens = tokens_of("/* a /* b */ c */42", &config);
    assert_eq!(tokens, vec![(Token::IntegerConstant(42), Position::new(1, 18))]);
}

#[test]
fn line_comment_runs_to_end_of_line() {
    assert_eq!(
        plain_tokens("1 // two three\n4"),
        vec![Token::IntegerConstant(1), Token::IntegerConstant(4)]
    );
}

#[test]
fn unterminated_block_comment_is_silently_dropped() {
    assert_eq!(plain_tokens("1 /* open"), vec![Token::IntegerConstant(1)]);
}

#[test]
fn confusable_sequences_error_unless_custom() {
    for (text, hint) in [
        ("===", "'===' is not a valid operator. This is not JavaScript! Should it be '=='?"),
        ("->", "'->' is not a valid symbol. This is not C or C++!"),
        ("=>", "'=>' is not a valid symbol. This is not Rust! Should it be '>='?"),
        (":=", "':=' is not a valid assignment operator. This is not Go! Should it be simply '='?"),
    ] {
        let tokens = plain_tokens(text);
        assert_eq!(tokens, vec![Token::LexError(LexError::ImproperSymbol(hint.to_string()))]);
    }

    let mut custom = CustomKeywords::new();
    custom.insert("=>".to_string(), 160);
    let mut config = LexConfig::new();
    config.custom_keywords = Some(custom);
    let tokens = tokens_of("=>", &config);
    assert_eq!(tokens, vec![(Token::Custom("=>".to_string()), Position::new(1, 1))]);
}

#[test]
fn disabled_operator_errors_but_disabled_keyword_demotes() {
    let mut disabled = SymbolSet::new();
    disabled.insert("+".to_string());
    disabled.insert("while".to_string());
    let mut config = LexConfig::new();
    config.disabled_symbols = Some(disabled);

    let tokens = tokens_of("1+2", &config);
    assert_eq!(
        tokens,
        vec![
            (Token::IntegerConstant(1), Position::new(1, 1)),
            (
                Token::LexError(LexError::UnexpectedInput("+".to_string())),
                Position::new(1, 2)
            ),
            (Token::IntegerConstant(2), Position::new(1, 3)),
        ]
    );

    let tokens = tokens_of("while", &config);
    assert_eq!(tokens, vec![(Token::Reserved("while".to_string()), Position::new(1, 1))]);
}

#[test]
fn disabled_keyword_registered_as_custom_is_promoted() {
    let mut disabled = SymbolSet::new();
    disabled.insert("while".to_string());
    let mut custom = CustomKeywords::new();
    custom.insert("while".to_string(), 5);
    let mut config = LexConfig::new();
    config.disabled_symbols = Some(disabled);
    config.custom_keywords = Some(custom);

    let tokens = tokens_of("while", &config);
    assert_eq!(tokens, vec![(Token::Custom("while".to_string()), Position::new(1, 1))]);
}

#[test]
fn identifier_registered_as_custom_is_promoted() {
    let mut custom = CustomKeywords::new();
    custom.insert("swap".to_string(), 160);
    let mut config = LexConfig::new();
    config.custom_keywords = Some(custom);

    let tokens = tokens_of("swap other", &config);
    assert_eq!(tokens[0].0, Token::Custom("swap".to_string()));
    assert_eq!(tokens[1].0, Token::Identifier("other".to_string()));
}

#[test]
fn reserved_engine_names_pass_through_until_disabled() {
    let config = LexConfig::new();
    let tokens = tokens_of("print", &config);
    assert_eq!(tokens, vec![(Token::Reserved("print".to_string()), Position::new(1, 1))]);

    let mut disabled = SymbolSet::new();
    disabled.insert("print".to_string());
    let mut config = LexConfig::new();
    config.disabled_symbols = Some(disabled);
    let tokens = tokens_of("print", &config);
    assert_eq!(
        tokens,
        vec![(
            Token::LexError(LexError::ImproperSymbol(
                "reserved symbol 'print' is disabled".to_string()
            )),
            Position::new(1, 1)
        )]
    );
}

#[test]
fn non_identifier_reserved_symbol_errors() {
    let tokens = plain_tokens("@");
    assert_eq!(
        tokens,
        vec![Token::LexError(LexError::ImproperSymbol(
            "'@' is a reserved symbol".to_string()
        ))]
    );
}

#[test]
fn malformed_identifier_and_unexpected_input() {
    assert_eq!(
        plain_tokens("_1"),
        vec![Token::LexError(LexError::MalformedIdentifier("_1".to_string()))]
    );
    assert_eq!(
        plain_tokens("$"),
        vec![Token::LexError(LexError::UnexpectedInput("$".to_string()))]
    );
}

#[test]
fn keywords_operators_and_positions() {
    let config = LexConfig::new();
    let tokens = tokens_of("let x = y\nx <<= 2", &config);
    assert_eq!(
        tokens,
        vec![
            (Token::Let, Position::new(1, 1)),
            (Token::Identifier("x".to_string()), Position::new(1, 5)),
            (Token::Equals, Position::new(1, 7)),
            (Token::Identifier("y".to_string()), Position::new(1, 9)),
            (Token::Identifier("x".to_string()), Position::new(2, 1)),
            (Token::LeftShiftAssign, Position::new(2, 3)),
            (Token::IntegerConstant(2), Position::new(2, 7)),
        ]
    );
}

#[test]
fn fragments_concatenate_into_one_stream() {
    let config = LexConfig::new();
    let fragments = ["ab", "cd", " 12", "3"];
    let mut it = lex(&fragments, &config);
    let (t1, p1) = it.next().unwrap();
    assert_eq!(t1, Token::Identifier("abcd".to_string()));
    assert_eq!(p1, Position::new(1, 1));
    let (t2, _) = it.next().unwrap();
    assert_eq!(t2, Token::IntegerConstant(123));
    let (t3, _) = it.next().unwrap();
    assert!(t3.is_eof());
}

#[test]
fn empty_input_yields_end_of_stream_token() {
    let config = LexConfig::new();
    let fragments: [&str; 0] = [];
    let mut it = lex(&fragments, &config);
    let (t, _) = it.next().unwrap();
    assert!(t.is_eof());
}

#[test]
fn separators_work_inside_radix_literals() {
    assert_eq!(plain_tokens("0x1_2"), vec![Token::IntegerConstant(0x12)]);
    assert_eq!(plain_tokens("0b1010_1010"), vec![Token::IntegerConstant(170)]);
}

#[test]
fn longest_match_wins_for_multi_character_operators() {
    assert_eq!(
        plain_tokens("a<<=b>>c"),
        vec![
            Token::Identifier("a".to_string()),
            Token::LeftShiftAssign,
            Token::Identifier("b".to_string()),
            Token::RightShift,
            Token::Identifier("c".to_string()),
        ]
    );
}

#[test]
fn turbofish_shape_is_reserved() {
    let tokens = plain_tokens("::<");
    assert_eq!(
        tokens,
        vec![Token::LexError(LexError::ImproperSymbol(
            "'::<>' is not a valid symbol. This is not Rust! Should it be '::'?".to_string()
        ))]
    );
    assert_eq!(plain_tokens("::x"), vec![
        Token::DoubleColon,
        Token::Identifier("x".to_string()),
    ]);
}

#[test]
fn pascal_comment_shape_is_reserved() {
    let pascal_hint =
        "'(* .. *)' is not a valid comment format. This is not Pascal! Should it be '/* .. */'?";
    let tokens = plain_tokens("(*");
    assert_eq!(tokens, vec![Token::LexError(LexError::ImproperSymbol(pascal_hint.to_string()))]);
    let tokens = plain_tokens("x *) y");
    assert_eq!(tokens[1], Token::LexError(LexError::ImproperSymbol(pascal_hint.to_string())));
}

#[test]
fn newline_after_comment_pair_character_advances_line() {
    // The slash consumes the newline as its lookahead pair; the line
    // counter must still advance.
    let config = LexConfig::new();
    let tokens = tokens_of("/*ab/\ncd*/x", &config);
    assert_eq!(
        tokens,
        vec![(Token::Identifier("x".to_string()), Position::new(2, 5))]
    );
}

#[test]
fn line_saturates_but_column_still_resets() {
    let config = LexConfig::new();
    let many_lines = "\n".repeat(70_000) + "x";
    let tokens = tokens_of(&many_lines, &config);
    assert_eq!(
        tokens,
        vec![(Token::Identifier("x".to_string()), Position::new(65_535, 1))]
    );
}
