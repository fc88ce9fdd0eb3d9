//! The closed token tag set, its mathematical model, and the pure
//! classification queries the parser relies on.

use crate::chars::{chars_to_string, is_ascii_alphabetic, is_ascii_alphanumeric, str_eq};
use crate::error::{spec_error_message, LexError, LexErrorModel};
use crate::numbers::{i64_decimal_chars, spec_i64_decimal};
use crate::settings::CustomKeywords;
use vstd::prelude::*;
use vstd::string::StringExecFns;

verus! {

/// A token of the scripting language.
#[derive(Debug, PartialEq, Clone)]
pub enum Token {
    /// An integer constant.
    IntegerConstant(i64),
    /// An identifier.
    Identifier(String),
    /// A character constant.
    CharConstant(char),
    /// A string constant.
    StringConstant(String),
    /// `{`
    LeftBrace,
    /// `}`
    RightBrace,
    /// `(`
    LeftParen,
    /// `)`
    RightParen,
    /// `[`
    LeftBracket,
    /// `]`
    RightBracket,
    /// `+`
    Plus,
    /// `+` (unary)
    UnaryPlus,
    /// `-`
    Minus,
    /// `-` (unary)
    UnaryMinus,
    /// `*`
    Multiply,
    /// `/`
    Divide,
    /// `%`
    Modulo,
    /// `~`
    PowerOf,
    /// `<<`
    LeftShift,
    /// `>>`
    RightShift,
    /// `;`
    SemiColon,
    /// `:`
    Colon,
    /// `::`
    DoubleColon,
    /// `,`
    Comma,
    /// `.`
    Period,
    /// `#{`
    MapStart,
    /// `=`
    Equals,
    /// `true`
    True,
    /// `false`
    False,
    /// `let`
    Let,
    /// `const`
    Const,
    /// `if`
    If,
    /// `else`
    Else,
    /// `while`
    While,
    /// `loop`
    Loop,
    /// `for`
    For,
    /// `in`
    In,
    /// `<`
    LessThan,
    /// `>`
    GreaterThan,
    /// `<=`
    LessThanEqualsTo,
    /// `>=`
    GreaterThanEqualsTo,
    /// `==`
    EqualsTo,
    /// `!=`
    NotEqualsTo,
    /// `!`
    Bang,
    /// `|`
    Pipe,
    /// `||`
    Or,
    /// `^`
    XOr,
    /// `&`
    Ampersand,
    /// `&&`
    And,
    /// `fn`
    Fn,
    /// `continue`
    Continue,
    /// `break`
    Break,
    /// `return`
    Return,
    /// `throw`
    Throw,
    /// `+=`
    PlusAssign,
    /// `-=`
    MinusAssign,
    /// `*=`
    MultiplyAssign,
    /// `/=`
    DivideAssign,
    /// `<<=`
    LeftShiftAssign,
    /// `>>=`
    RightShiftAssign,
    /// `&=`
    AndAssign,
    /// `|=`
    OrAssign,
    /// `^=`
    XOrAssign,
    /// `%=`
    ModuloAssign,
    /// `~=`
    PowerOfAssign,
    /// `private`
    Private,
    /// `import`
    Import,
    /// `export`
    Export,
    /// `as`
    As,
    /// A lexer error.
    LexError(LexError),
    /// A comment block.
    Comment(String),
    /// A reserved symbol.
    Reserved(String),
    /// A custom keyword.
    Custom(String),
    /// End of the input stream.
    EOF,
}

/// The mathematical model of a `Token`: the same tags, with owned text
/// abstracted to sequences of characters.
pub enum TokenModel {
    IntegerConstant(i64),
    Identifier(Seq<char>),
    CharConstant(char),
    StringConstant(Seq<char>),
    LeftBrace,
    RightBrace,
    LeftParen,
    RightParen,
    LeftBracket,
    RightBracket,
    Plus,
    UnaryPlus,
    Minus,
    UnaryMinus,
    Multiply,
    Divide,
    Modulo,
    PowerOf,
    LeftShift,
    RightShift,
    SemiColon,
    Colon,
    DoubleColon,
    Comma,
    Period,
    MapStart,
    Equals,
    True,
    False,
    Let,
    Const,
    If,
    Else,
    While,
    Loop,
    For,
    In,
    LessThan,
    GreaterThan,
    LessThanEqualsTo,
    GreaterThanEqualsTo,
    EqualsTo,
    NotEqualsTo,
    Bang,
    Pipe,
    Or,
    XOr,
    Ampersand,
    And,
    Fn,
    Continue,
    Break,
    Return,
    Throw,
    PlusAssign,
    MinusAssign,
    MultiplyAssign,
    DivideAssign,
    LeftShiftAssign,
    RightShiftAssign,
    AndAssign,
    OrAssign,
    XOrAssign,
    ModuloAssign,
    PowerOfAssign,
    Private,
    Import,
    Export,
    As,
    LexError(LexErrorModel),
    Comment(Seq<char>),
    Reserved(Seq<char>),
    Custom(Seq<char>),
    EOF,
}

impl View for Token {
    type V = TokenModel;

    open spec fn view(&self) -> TokenModel {
        match self {
            Token::IntegerConstant(i) => TokenModel::IntegerConstant(*i),
            Token::Identifier(s) => TokenModel::Identifier(s@),
            Token::CharConstant(c) => TokenModel::CharConstant(*c),
            Token::StringConstant(s) => TokenModel::StringConstant(s@),
            Token::LeftBrace => TokenModel::LeftBrace,
            Token::RightBrace => TokenModel::RightBrace,
            Token::LeftParen => TokenModel::LeftParen,
            Token::RightParen => TokenModel::RightParen,
            Token::LeftBracket => TokenModel::LeftBracket,
            Token::RightBracket => TokenModel::RightBracket,
            Token::Plus => TokenModel::Plus,
            Token::UnaryPlus => TokenModel::UnaryPlus,
            Token::Minus => TokenModel::Minus,
            Token::UnaryMinus => TokenModel::UnaryMinus,
            Token::Multiply => TokenModel::Multiply,
            Token::Divide => TokenModel::Divide,
            Token::Modulo => TokenModel::Modulo,
            Token::PowerOf => TokenModel::PowerOf,
            Token::LeftShift => TokenModel::LeftShift,
            Token::RightShift => TokenModel::RightShift,
            Token::SemiColon => TokenModel::SemiColon,
            Token::Colon => TokenModel::Colon,
            Token::DoubleColon => TokenModel::DoubleColon,
            Token::Comma => TokenModel::Comma,
            Token::Period => TokenModel::Period,
            Token::MapStart => TokenModel::MapStart,
            Token::Equals => TokenModel::Equals,
            Token::True => TokenModel::True,
            Token::False => TokenModel::False,
            Token::Let => TokenModel::Let,
            Token::Const => TokenModel::Const,
            Token::If => TokenModel::If,
            Token::Else => TokenModel::Else,
            Token::While => TokenModel::While,
            Token::Loop => TokenModel::Loop,
            Token::For => TokenModel::For,
            Token::In => TokenModel::In,
            Token::LessThan => TokenModel::LessThan,
            Token::GreaterThan => TokenModel::GreaterThan,
            Token::LessThanEqualsTo => TokenModel::LessThanEqualsTo,
            Token::GreaterThanEqualsTo => TokenModel::GreaterThanEqualsTo,
            Token::EqualsTo => TokenModel::EqualsTo,
            Token::NotEqualsTo => TokenModel::NotEqualsTo,
            Token::Bang => TokenModel::Bang,
            Token::Pipe => TokenModel::Pipe,
            Token::Or => TokenModel::Or,
            Token::XOr => TokenModel::XOr,
            Token::Ampersand => TokenModel::Ampersand,
            Token::And => TokenModel::And,
            Token::Fn => TokenModel::Fn,
            Token::Continue => TokenModel::Continue,
            Token::Break => TokenModel::Break,
            Token::Return => TokenModel::Return,
            Token::Throw => TokenModel::Throw,
            Token::PlusAssign => TokenModel::PlusAssign,
            Token::MinusAssign => TokenModel::MinusAssign,
            Token::MultiplyAssign => TokenModel::MultiplyAssign,
            Token::DivideAssign => TokenModel::DivideAssign,
            Token::LeftShiftAssign => TokenModel::LeftShiftAssign,
            Token::RightShiftAssign => TokenModel::RightShiftAssign,
            Token::AndAssign => TokenModel::AndAssign,
            Token::OrAssign => TokenModel::OrAssign,
            Token::XOrAssign => TokenModel::XOrAssign,
            Token::ModuloAssign => TokenModel::ModuloAssign,
            Token::PowerOfAssign => TokenModel::PowerOfAssign,
            Token::Private => TokenModel::Private,
            Token::Import => TokenModel::Import,
            Token::Export => TokenModel::Export,
            Token::As => TokenModel::As,
            Token::LexError(e) => TokenModel::LexError(e@),
            Token::Comment(s) => TokenModel::Comment(s@),
            Token::Reserved(s) => TokenModel::Reserved(s@),
            Token::Custom(s) => TokenModel::Custom(s@),
            Token::EOF => TokenModel::EOF,
        }
    }
}

/// The canonical source text of a token. Literal and identifier tokens
/// render their stored text or value, an error renders its diagnostic
/// message, and every fixed-spelling tag renders its one spelling.
pub open spec fn spec_syntax(t: TokenModel) -> Seq<char> {
    match t {
        TokenModel::IntegerConstant(i) => spec_i64_decimal(i),
        TokenModel::Identifier(s) => s,
        TokenModel::CharConstant(c) => seq![c],
        TokenModel::StringConstant(s) => s,
        TokenModel::LeftBrace => "{"@,
        TokenModel::RightBrace => "}"@,
        TokenModel::LeftParen => "("@,
        TokenModel::RightParen => ")"@,
        TokenModel::LeftBracket => "["@,
        TokenModel::RightBracket => "]"@,
        TokenModel::Plus => "+"@,
        TokenModel::UnaryPlus => "+"@,
        TokenModel::Minus => "-"@,
        TokenModel::UnaryMinus => "-"@,
        TokenModel::Multiply => "*"@,
        TokenModel::Divide => "/"@,
        TokenModel::Modulo => "%"@,
        TokenModel::PowerOf => "~"@,
        TokenModel::LeftShift => "<<"@,
        TokenModel::RightShift => ">>"@,
        TokenModel::SemiColon => ";"@,
        TokenModel::Colon => ":"@,
        TokenModel::DoubleColon => "::"@,
        TokenModel::Comma => ","@,
        TokenModel::Period => "."@,
        TokenModel::MapStart => "#{"@,
        TokenModel::Equals => "="@,
        TokenModel::True => "true"@,
        TokenModel::False => "false"@,
        TokenModel::Let => "let"@,
        TokenModel::Const => "const"@,
        TokenModel::If => "if"@,
        TokenModel::Else => "else"@,
        TokenModel::While => "while"@,
        TokenModel::Loop => "loop"@,
        TokenModel::For => "for"@,
        TokenModel::In => "in"@,
        TokenModel::LessThan => "<"@,
        TokenModel::GreaterThan => ">"@,
        TokenModel::LessThanEqualsTo => "<="@,
        TokenModel::GreaterThanEqualsTo => ">="@,
        TokenModel::EqualsTo => "=="@,
        TokenModel::NotEqualsTo => "!="@,
        TokenModel::Bang => "!"@,
        TokenModel::Pipe => "|"@,
        TokenModel::Or => "||"@,
        TokenModel::XOr => "^"@,
        TokenModel::Ampersand => "&"@,
        TokenModel::And => "&&"@,
        TokenModel::Fn => "fn"@,
        TokenModel::Continue => "continue"@,
        TokenModel::Break => "break"@,
        TokenModel::Return => "return"@,
        TokenModel::Throw => "throw"@,
        TokenModel::PlusAssign => "+="@,
        TokenModel::MinusAssign => "-="@,
        TokenModel::MultiplyAssign => "*="@,
        TokenModel::DivideAssign => "/="@,
        TokenModel::LeftShiftAssign => "<<="@,
        TokenModel::RightShiftAssign => ">>="@,
        TokenModel::AndAssign => "&="@,
        TokenModel::OrAssign => "|="@,
        TokenModel::XOrAssign => "^="@,
        TokenModel::ModuloAssign => "%="@,
        TokenModel::PowerOfAssign => "~="@,
        TokenModel::Private => "private"@,
        TokenModel::Import => "import"@,
        TokenModel::Export => "export"@,
        TokenModel::As => "as"@,
        TokenModel::LexError(e) => spec_error_message(e),
        TokenModel::Comment(s) => s,
        TokenModel::Reserved(s) => s,
        TokenModel::Custom(s) => s,
        TokenModel::EOF => "{EOF}"@,
    }
}

/// The token a piece of syntax resolves to: a fixed-spelling tag for the
/// canonical spellings, a reserved symbol for the spellings set aside
/// (sequences confusable with other languages, and names reserved for the
/// engine), and nothing for anything else.
pub open spec fn spec_lookup(s: Seq<char>) -> Option<TokenModel> {
    if s == "{"@ {
        Some(TokenModel::LeftBrace)
    } else if s == "}"@ {
        Some(TokenModel::RightBrace)
    } else if s == "("@ {
        Some(TokenModel::LeftParen)
    } else if s == ")"@ {
        Some(TokenModel::RightParen)
    } else if s == "["@ {
        Some(TokenModel::LeftBracket)
    } else if s == "]"@ {
        Some(TokenModel::RightBracket)
    } else if s == "+"@ {
        Some(TokenModel::Plus)
    } else if s == "-"@ {
        Some(TokenModel::Minus)
    } else if s == "*"@ {
        Some(TokenModel::Multiply)
    } else if s == "/"@ {
        Some(TokenModel::Divide)
    } else if s == ";"@ {
        Some(TokenModel::SemiColon)
    } else if s == ":"@ {
        Some(TokenModel::Colon)
    } else if s == "::"@ {
        Some(TokenModel::DoubleColon)
    } else if s == ","@ {
        Some(TokenModel::Comma)
    } else if s == "."@ {
        Some(TokenModel::Period)
    } else if s == "#{"@ {
        Some(TokenModel::MapStart)
    } else if s == "="@ {
        Some(TokenModel::Equals)
    } else if s == "true"@ {
        Some(TokenModel::True)
    } else if s == "false"@ {
        Some(TokenModel::False)
    } else if s == "let"@ {
        Some(TokenModel::Let)
    } else if s == "const"@ {
        Some(TokenModel::Const)
    } else if s == "if"@ {
        Some(TokenModel::If)
    } else if s == "else"@ {
        Some(TokenModel::Else)
    } else if s == "while"@ {
        Some(TokenModel::While)
    } else if s == "loop"@ {
        Some(TokenModel::Loop)
    } else if s == "for"@ {
        Some(TokenModel::For)
    } else if s == "in"@ {
        Some(TokenModel::In)
    } else if s == "<"@ {
        Some(TokenModel::LessThan)
    } else if s == ">"@ {
        Some(TokenModel::GreaterThan)
    } else if s == "!"@ {
        Some(TokenModel::Bang)
    } else if s == "<="@ {
        Some(TokenModel::LessThanEqualsTo)
    } else if s == ">="@ {
        Some(TokenModel::GreaterThanEqualsTo)
    } else if s == "=="@ {
        Some(TokenModel::EqualsTo)
    } else if s == "!="@ {
        Some(TokenModel::NotEqualsTo)
    } else if s == "|"@ {
        Some(TokenModel::Pipe)
    } else if s == "||"@ {
        Some(TokenModel::Or)
    } else if s == "&"@ {
        Some(TokenModel::Ampersand)
    } else if s == "&&"@ {
        Some(TokenModel::And)
    } else if s == "continue"@ {
        Some(TokenModel::Continue)
    } else if s == "break"@ {
        Some(TokenModel::Break)
    } else if s == "return"@ {
        Some(TokenModel::Return)
    } else if s == "throw"@ {
        Some(TokenModel::Throw)
    } else if s == "+="@ {
        Some(TokenModel::PlusAssign)
    } else if s == "-="@ {
        Some(TokenModel::MinusAssign)
    } else if s == "*="@ {
        Some(TokenModel::MultiplyAssign)
    } else if s == "/="@ {
        Some(TokenModel::DivideAssign)
    } else if s == "<<="@ {
        Some(TokenModel::LeftShiftAssign)
    } else if s == ">>="@ {
        Some(TokenModel::RightShiftAssign)
    } else if s == "&="@ {
        Some(TokenModel::AndAssign)
    } else if s == "|="@ {
        Some(TokenModel::OrAssign)
    } else if s == "^="@ {
        Some(TokenModel::XOrAssign)
    } else if s == "<<"@ {
        Some(TokenModel::LeftShift)
    } else if s == ">>"@ {
        Some(TokenModel::RightShift)
    } else if s == "^"@ {
        Some(TokenModel::XOr)
    } else if s == "%"@ {
        Some(TokenModel::Modulo)
    } else if s == "%="@ {
        Some(TokenModel::ModuloAssign)
    } else if s == "~"@ {
        Some(TokenModel::PowerOf)
    } else if s == "~="@ {
        Some(TokenModel::PowerOfAssign)
    } else if s == "fn"@ {
        Some(TokenModel::Fn)
    } else if s == "private"@ {
        Some(TokenModel::Private)
    } else if s == "import"@ {
        Some(TokenModel::Import)
    } else if s == "export"@ {
        Some(TokenModel::Export)
    } else if s == "as"@ {
        Some(TokenModel::As)
    } else if spec_is_reserved_spelling(s) {
        Some(TokenModel::Reserved(s))
    } else {
        None
    }
}

/// The spellings the lexer sets aside as reserved: sequences confusable
/// with other languages' syntax, and names reserved for engine built-ins.
pub open spec fn spec_is_reserved_spelling(s: Seq<char>) -> bool {
    ||| s == "==="@
    ||| s == "!=="@
    ||| s == "->"@
    ||| s == "<-"@
    ||| s == "=>"@
    ||| s == ":="@
    ||| s == "::<"@
    ||| s == "(*"@
    ||| s == "*)"@
    ||| s == "#"@
    ||| s == "print"@
    ||| s == "debug"@
    ||| s == "type_of"@
    ||| s == "eval"@
    ||| s == "Fn"@
    ||| s == "call"@
    ||| s == "curry"@
    ||| s == "shared"@
    ||| s == "this"@
}

/// Is the token the end-of-stream marker?
pub open spec fn spec_is_eof(t: TokenModel) -> bool {
    t is EOF
}

/// May the token that follows this one be a unary operator?
pub open spec fn spec_is_next_unary(t: TokenModel) -> bool {
    match t {
        TokenModel::LexError(_) => true,
        TokenModel::LeftBrace => true,
        TokenModel::LeftParen => true,
        TokenModel::LeftBracket => true,
        TokenModel::Plus => true,
        TokenModel::UnaryPlus => true,
        TokenModel::Minus => true,
        TokenModel::UnaryMinus => true,
        TokenModel::Multiply => true,
        TokenModel::Divide => true,
        TokenModel::Comma => true,
        TokenModel::Period => true,
        TokenModel::Equals => true,
        TokenModel::LessThan => true,
        TokenModel::GreaterThan => true,
        TokenModel::Bang => true,
        TokenModel::LessThanEqualsTo => true,
        TokenModel::GreaterThanEqualsTo => true,
        TokenModel::EqualsTo => true,
        TokenModel::NotEqualsTo => true,
        TokenModel::Pipe => true,
        TokenModel::Or => true,
        TokenModel::Ampersand => true,
        TokenModel::And => true,
        TokenModel::If => true,
        TokenModel::While => true,
        TokenModel::PlusAssign => true,
        TokenModel::MinusAssign => true,
        TokenModel::MultiplyAssign => true,
        TokenModel::DivideAssign => true,
        TokenModel::LeftShiftAssign => true,
        TokenModel::RightShiftAssign => true,
        TokenModel::AndAssign => true,
        TokenModel::OrAssign => true,
        TokenModel::XOrAssign => true,
        TokenModel::LeftShift => true,
        TokenModel::RightShift => true,
        TokenModel::XOr => true,
        TokenModel::Modulo => true,
        TokenModel::ModuloAssign => true,
        TokenModel::Return => true,
        TokenModel::Throw => true,
        TokenModel::PowerOf => true,
        TokenModel::In => true,
        TokenModel::PowerOfAssign => true,
        _ => false,
    }
}

/// The precedence of a binary operator token (zero for assignments, which
/// are not expressions, and for anything that is not an operator). A
/// custom keyword takes the precedence its declaration gave it.
pub open spec fn spec_precedence(t: TokenModel, custom: Option<Map<Seq<char>, u8>>) -> u8 {
    match t {
        TokenModel::Equals
        | TokenModel::PlusAssign
        | TokenModel::MinusAssign
        | TokenModel::MultiplyAssign
        | TokenModel::DivideAssign
        | TokenModel::LeftShiftAssign
        | TokenModel::RightShiftAssign
        | TokenModel::AndAssign
        | TokenModel::OrAssign
        | TokenModel::XOrAssign
        | TokenModel::ModuloAssign
        | TokenModel::PowerOfAssign => 0,
        TokenModel::Or | TokenModel::XOr | TokenModel::Pipe => 30,
        TokenModel::And | TokenModel::Ampersand => 60,
        TokenModel::EqualsTo | TokenModel::NotEqualsTo => 90,
        TokenModel::LessThan
        | TokenModel::LessThanEqualsTo
        | TokenModel::GreaterThan
        | TokenModel::GreaterThanEqualsTo => 110,
        TokenModel::In => 130,
        TokenModel::Plus | TokenModel::Minus => 150,
        TokenModel::Divide | TokenModel::Multiply | TokenModel::PowerOf | TokenModel::Modulo => 180,
        TokenModel::LeftShift | TokenModel::RightShift => 210,
        TokenModel::Period => 240,
        TokenModel::Custom(s) => match custom {
            Some(m) => if m.contains_key(s) {
                m[s]
            } else {
                0
            },
            None => 0,
        },
        _ => 0,
    }
}

/// Does an expression bind to the right (instead of left)?
pub open spec fn spec_is_bind_right(t: TokenModel) -> bool {
    match t {
        TokenModel::Equals
        | TokenModel::PlusAssign
        | TokenModel::MinusAssign
        | TokenModel::MultiplyAssign
        | TokenModel::DivideAssign
        | TokenModel::LeftShiftAssign
        | TokenModel::RightShiftAssign
        | TokenModel::AndAssign
        | TokenModel::OrAssign
        | TokenModel::XOrAssign
        | TokenModel::ModuloAssign
        | TokenModel::PowerOfAssign => true,
        TokenModel::Period => true,
        _ => false,
    }
}

/// Is the token an operator or punctuation tag?
pub open spec fn spec_is_operator(t: TokenModel) -> bool {
    match t {
        TokenModel::LeftBrace
        | TokenModel::RightBrace
        | TokenModel::LeftParen
        | TokenModel::RightParen
        | TokenModel::LeftBracket
        | TokenModel::RightBracket
        | TokenModel::Plus
        | TokenModel::UnaryPlus
        | TokenModel::Minus
        | TokenModel::UnaryMinus
        | TokenModel::Multiply
        | TokenModel::Divide
        | TokenModel::Modulo
        | TokenModel::PowerOf
        | TokenModel::LeftShift
        | TokenModel::RightShift
        | TokenModel::SemiColon
        | TokenModel::Colon
        | TokenModel::DoubleColon
        | TokenModel::Comma
        | TokenModel::Period
        | TokenModel::MapStart
        | TokenModel::Equals
        | TokenModel::LessThan
        | TokenModel::GreaterThan
        | TokenModel::LessThanEqualsTo
        | TokenModel::GreaterThanEqualsTo
        | TokenModel::EqualsTo
        | TokenModel::NotEqualsTo
        | TokenModel::Bang
        | TokenModel::Pipe
        | TokenModel::Or
        | TokenModel::XOr
        | TokenModel::Ampersand
        | TokenModel::And
        | TokenModel::PlusAssign
        | TokenModel::MinusAssign
        | TokenModel::MultiplyAssign
        | TokenModel::DivideAssign
        | TokenModel::LeftShiftAssign
        | TokenModel::RightShiftAssign
        | TokenModel::AndAssign
        | TokenModel::OrAssign
        | TokenModel::XOrAssign
        | TokenModel::ModuloAssign
        | TokenModel::PowerOfAssign => true,
        _ => false,
    }
}

/// Is the token a standard keyword tag?
pub open spec fn spec_is_keyword(t: TokenModel) -> bool {
    match t {
        TokenModel::Fn | TokenModel::Private => true,
        TokenModel::Import | TokenModel::Export | TokenModel::As => true,
        TokenModel::True
        | TokenModel::False
        | TokenModel::Let
        | TokenModel::Const
        | TokenModel::If
        | TokenModel::Else
        | TokenModel::While
        | TokenModel::Loop
        | TokenModel::For
        | TokenModel::In
        | TokenModel::Continue
        | TokenModel::Break
        | TokenModel::Return
        | TokenModel::Throw => true,
        _ => false,
    }
}

impl Token {
    /// Get the canonical syntax of the token. A comment token has no
    /// canonical syntax and is excluded.
    pub fn syntax(&self) -> (r: String)
        requires
            !(self is Comment),
        ensures
            r@ == spec_syntax(self@),
    {
        match self {
            Token::IntegerConstant(i) => {
                let digits = i64_decimal_chars(*i);
                chars_to_string(&digits)
            },
            Token::Identifier(s) => s.clone(),
            Token::CharConstant(c) => {
                let mut r = String::new();
                r.push(*c);
                proof {
                    assert(r@ =~= seq![*c]);
                }
                r
            },
            Token::StringConstant(s) => s.clone(),
            Token::Reserved(s) => s.clone(),
            Token::Custom(s) => s.clone(),
            Token::LexError(e) => e.message(),
            Token::LeftBrace => String::from_str("{"),
            Token::RightBrace => String::from_str("}"),
            Token::LeftParen => String::from_str("("),
            Token::RightParen => String::from_str(")"),
            Token::LeftBracket => String::from_str("["),
            Token::RightBracket => String::from_str("]"),
            Token::Plus => String::from_str("+"),
            Token::UnaryPlus => String::from_str("+"),
            Token::Minus => String::from_str("-"),
            Token::UnaryMinus => String::from_str("-"),
            Token::Multiply => String::from_str("*"),
            Token::Divide => String::from_str("/"),
            Token::SemiColon => String::from_str(";"),
            Token::Colon => String::from_str(":"),
            Token::DoubleColon => String::from_str("::"),
            Token::Comma => String::from_str(","),
            Token::Period => String::from_str("."),
            Token::MapStart => String::from_str("#{"),
            Token::Equals => String::from_str("="),
            Token::True => String::from_str("true"),
            Token::False => String::from_str("false"),
            Token::Let => String::from_str("let"),
            Token::Const => String::from_str("const"),
            Token::If => String::from_str("if"),
            Token::Else => String::from_str("else"),
            Token::While => String::from_str("while"),
            Token::Loop => String::from_str("loop"),
            Token::For => String::from_str("for"),
            Token::In => String::from_str("in"),
            Token::LessThan => String::from_str("<"),
            Token::GreaterThan => String::from_str(">"),
            Token::Bang => String::from_str("!"),
            Token::LessThanEqualsTo => String::from_str("<="),
            Token::GreaterThanEqualsTo => String::from_str(">="),
            Token::EqualsTo => String::from_str("=="),
            Token::NotEqualsTo => String::from_str("!="),
            Token::Pipe => String::from_str("|"),
            Token::Or => String::from_str("||"),
            Token::Ampersand => String::from_str("&"),
            Token::And => String::from_str("&&"),
            Token::Continue => String::from_str("continue"),
            Token::Break => String::from_str("break"),
            Token::Return => String::from_str("return"),
            Token::Throw => String::from_str("throw"),
            Token::PlusAssign => String::from_str("+="),
            Token::MinusAssign => String::from_str("-="),
            Token::MultiplyAssign => String::from_str("*="),
            Token::DivideAssign => String::from_str("/="),
            Token::LeftShiftAssign => String::from_str("<<="),
            Token::RightShiftAssign => String::from_str(">>="),
            Token::AndAssign => String::from_str("&="),
            Token::OrAssign => String::from_str("|="),
            Token::XOrAssign => String::from_str("^="),
            Token::LeftShift => String::from_str("<<"),
            Token::RightShift => String::from_str(">>"),
            Token::XOr => String::from_str("^"),
            Token::Modulo => String::from_str("%"),
            Token::ModuloAssign => String::from_str("%="),
            Token::PowerOf => String::from_str("~"),
            Token::PowerOfAssign => String::from_str("~="),
            Token::Fn => String::from_str("fn"),
            Token::Private => String::from_str("private"),
            Token::Import => String::from_str("import"),
            Token::Export => String::from_str("export"),
            Token::As => String::from_str("as"),
            Token::EOF => String::from_str("{EOF}"),
            Token::Comment(_) => String::new(),
        }
    }

    /// Reverse lookup a token from a piece of syntax.
    pub fn lookup_from_syntax(syntax: &str) -> (r: Option<Token>)
        ensures
            match r {
                Some(t) => spec_lookup(syntax@) == Some(t@),
                None => spec_lookup(syntax@) is None,
            },
    {
        if str_eq(syntax, "{") {
            Some(Token::LeftBrace)
        } else if str_eq(syntax, "}") {
            Some(Token::RightBrace)
        } else if str_eq(syntax, "(") {
            Some(Token::LeftParen)
        } else if str_eq(syntax, ")") {
            Some(Token::RightParen)
        } else if str_eq(syntax, "[") {
            Some(Token::LeftBracket)
        } else if str_eq(syntax, "]") {
            Some(Token::RightBracket)
        } else if str_eq(syntax, "+") {
            Some(Token::Plus)
        } else if str_eq(syntax, "-") {
            Some(Token::Minus)
        } else if str_eq(syntax, "*") {
            Some(Token::Multiply)
        } else if str_eq(syntax, "/") {
            Some(Token::Divide)
        } else if str_eq(syntax, ";") {
            Some(Token::SemiColon)
        } else if str_eq(syntax, ":") {
            Some(Token::Colon)
        } else if str_eq(syntax, "::") {
            Some(Token::DoubleColon)
        } else if str_eq(syntax, ",") {
            Some(Token::Comma)
        } else if str_eq(syntax, ".") {
            Some(Token::Period)
        } else if str_eq(syntax, "#{") {
            Some(Token::MapStart)
        } else if str_eq(syntax, "=") {
            Some(Token::Equals)
        } else if str_eq(syntax, "true") {
            Some(Token::True)
        } else if str_eq(syntax, "false") {
            Some(Token::False)
        } else if str_eq(syntax, "let") {
            Some(Token::Let)
        } else if str_eq(syntax, "const") {
            Some(Token::Const)
        } else if str_eq(syntax, "if") {
            Some(Token::If)
        } else if str_eq(syntax, "else") {
            Some(Token::Else)
        } else if str_eq(syntax, "while") {
            Some(Token::While)
        } else if str_eq(syntax, "loop") {
            Some(Token::Loop)
        } else if str_eq(syntax, "for") {
            Some(Token::For)
        } else if str_eq(syntax, "in") {
            Some(Token::In)
        } else if str_eq(syntax, "<") {
            Some(Token::LessThan)
        } else if str_eq(syntax, ">") {
            Some(Token::GreaterThan)
        } else if str_eq(syntax, "!") {
            Some(Token::Bang)
        } else if str_eq(syntax, "<=") {
            Some(Token::LessThanEqualsTo)
        } else if str_eq(syntax, ">=") {
            Some(Token::GreaterThanEqualsTo)
        } else if str_eq(syntax, "==") {
            Some(Token::EqualsTo)
        } else if str_eq(syntax, "!=") {
            Some(Token::NotEqualsTo)
        } else if str_eq(syntax, "|") {
            Some(Token::Pipe)
        } else if str_eq(syntax, "||") {
            Some(Token::Or)
        } else if str_eq(syntax, "&") {
            Some(Token::Ampersand)
        } else if str_eq(syntax, "&&") {
            Some(Token::And)
        } else if str_eq(syntax, "continue") {
            Some(Token::Continue)
        } else if str_eq(syntax, "break") {
            Some(Token::Break)
        } else if str_eq(syntax, "return") {
            Some(Token::Return)
        } else if str_eq(syntax, "throw") {
            Some(Token::Throw)
        } else if str_eq(syntax, "+=") {
            Some(Token::PlusAssign)
        } else if str_eq(syntax, "-=") {
            Some(Token::MinusAssign)
        } else if str_eq(syntax, "*=") {
            Some(Token::MultiplyAssign)
        } else if str_eq(syntax, "/=") {
            Some(Token::DivideAssign)
        } else if str_eq(syntax, "<<=") {
            Some(Token::LeftShiftAssign)
        } else if str_eq(syntax, ">>=") {
            Some(Token::RightShiftAssign)
        } else if str_eq(syntax, "&=") {
            Some(Token::AndAssign)
        } else if str_eq(syntax, "|=") {
            Some(Token::OrAssign)
        } else if str_eq(syntax, "^=") {
            Some(Token::XOrAssign)
        } else if str_eq(syntax, "<<") {
            Some(Token::LeftShift)
        } else if str_eq(syntax, ">>") {
            Some(Token::RightShift)
        } else if str_eq(syntax, "^") {
            Some(Token::XOr)
        } else if str_eq(syntax, "%") {
            Some(Token::Modulo)
        } else if str_eq(syntax, "%=") {
            Some(Token::ModuloAssign)
        } else if str_eq(syntax, "~") {
            Some(Token::PowerOf)
        } else if str_eq(syntax, "~=") {
            Some(Token::PowerOfAssign)
        } else if str_eq(syntax, "fn") {
            Some(Token::Fn)
        } else if str_eq(syntax, "private") {
            Some(Token::Private)
        } else if str_eq(syntax, "import") {
            Some(Token::Import)
        } else if str_eq(syntax, "export") {
            Some(Token::Export)
        } else if str_eq(syntax, "as") {
            Some(Token::As)
        } else if is_reserved_spelling(syntax) {
            Some(Token::Reserved(String::from_str(syntax)))
        } else {
            None
        }
    }

    /// Is this token the end-of-stream marker?
    pub fn is_eof(&self) -> (r: bool)
        ensures
            r == spec_is_eof(self@),
    {
        match self {
            Token::EOF => true,
            _ => false,
        }
    }

    /// If another operator follows this token, is it probably unary?
    pub fn is_next_unary(&self) -> (r: bool)
        ensures
            r == spec_is_next_unary(self@),
    {
        match self {
            Token::LexError(_)
            | Token::LeftBrace
            | Token::LeftParen
            | Token::LeftBracket
            | Token::Plus
            | Token::UnaryPlus
            | Token::Minus
            | Token::UnaryMinus
            | Token::Multiply
            | Token::Divide
            | Token::Comma
            | Token::Period
            | Token::Equals
            | Token::LessThan
            | Token::GreaterThan
            | Token::Bang
            | Token::LessThanEqualsTo
            | Token::GreaterThanEqualsTo
            | Token::EqualsTo
            | Token::NotEqualsTo
            | Token::Pipe
            | Token::Or
            | Token::Ampersand
            | Token::And
            | Token::If
            | Token::While
            | Token::PlusAssign
            | Token::MinusAssign
            | Token::MultiplyAssign
            | Token::DivideAssign
            | Token::LeftShiftAssign
            | Token::RightShiftAssign
            | Token::AndAssign
            | Token::OrAssign
            | Token::XOrAssign
            | Token::LeftShift
            | Token::RightShift
            | Token::XOr
            | Token::Modulo
            | Token::ModuloAssign
            | Token::Return
            | Token::Throw
            | Token::PowerOf
            | Token::In
            | Token::PowerOfAssign => true,
            _ => false,
        }
    }

    /// Get the precedence number of the token against the configured
    /// custom keyword table. A custom keyword token must have a declared
    /// precedence whenever a table is given.
    pub fn precedence(&self, custom: Option<&CustomKeywords>) -> (r: u8)
        requires
            (self is Custom && custom is Some) ==> custom->0@.contains_key(self->Custom_0@),
        ensures
            r == spec_precedence(
                self@,
                match custom {
                    Some(c) => Some(c@),
                    None => None,
                },
            ),
    {
        match self {
            Token::Equals
            | Token::PlusAssign
            | Token::MinusAssign
            | Token::MultiplyAssign
            | Token::DivideAssign
            | Token::LeftShiftAssign
            | Token::RightShiftAssign
            | Token::AndAssign
            | Token::OrAssign
            | Token::XOrAssign
            | Token::ModuloAssign
            | Token::PowerOfAssign => 0,
            Token::Or | Token::XOr | Token::Pipe => 30,
            Token::And | Token::Ampersand => 60,
            Token::EqualsTo | Token::NotEqualsTo => 90,
            Token::LessThan
            | Token::LessThanEqualsTo
            | Token::GreaterThan
            | Token::GreaterThanEqualsTo => 110,
            Token::In => 130,
            Token::Plus | Token::Minus => 150,
            Token::Divide | Token::Multiply | Token::PowerOf | Token::Modulo => 180,
            Token::LeftShift | Token::RightShift => 210,
            Token::Period => 240,
            Token::Custom(s) => match custom {
                Some(c) => match c.get(s.as_str()) {
                    Some(p) => p,
                    None => 0,
                },
                None => 0,
            },
            _ => 0,
        }
    }

    /// Does an expression bind to the right (instead of left)?
    pub fn is_bind_right(&self) -> (r: bool)
        ensures
            r == spec_is_bind_right(self@),
    {
        match self {
            Token::Equals
            | Token::PlusAssign
            | Token::MinusAssign
            | Token::MultiplyAssign
            | Token::DivideAssign
            | Token::LeftShiftAssign
            | Token::RightShiftAssign
            | Token::AndAssign
            | Token::OrAssign
            | Token::XOrAssign
            | Token::ModuloAssign
            | Token::PowerOfAssign => true,
            Token::Period => true,
            _ => false,
        }
    }

    /// Is this token an operator?
    pub fn is_operator(&self) -> (r: bool)
        ensures
            r == spec_is_operator(self@),
    {
        match self {
            Token::LeftBrace
            | Token::RightBrace
            | Token::LeftParen
            | Token::RightParen
            | Token::LeftBracket
            | Token::RightBracket
            | Token::Plus
            | Token::UnaryPlus
            | Token::Minus
            | Token::UnaryMinus
            | Token::Multiply
            | Token::Divide
            | Token::Modulo
            | Token::PowerOf
            | Token::LeftShift
            | Token::RightShift
            | Token::SemiColon
            | Token::Colon
            | Token::DoubleColon
            | Token::Comma
            | Token::Period
            | Token::MapStart
            | Token::Equals
            | Token::LessThan
            | Token::GreaterThan
            | Token::LessThanEqualsTo
            | Token::GreaterThanEqualsTo
            | Token::EqualsTo
            | Token::NotEqualsTo
            | Token::Bang
            | Token::Pipe
            | Token::Or
            | Token::XOr
            | Token::Ampersand
            | Token::And
            | Token::PlusAssign
            | Token::MinusAssign
            | Token::MultiplyAssign
            | Token::DivideAssign
            | Token::LeftShiftAssign
            | Token::RightShiftAssign
            | Token::AndAssign
            | Token::OrAssign
            | Token::XOrAssign
            | Token::ModuloAssign
            | Token::PowerOfAssign => true,
            _ => false,
        }
    }

    /// Is this token a standard keyword?
    pub fn is_keyword(&self) -> (r: bool)
        ensures
            r == spec_is_keyword(self@),
    {
        match self {
            Token::Fn | Token::Private => true,
            Token::Import | Token::Export | Token::As => true,
            Token::True
            | Token::False
            | Token::Let
            | Token::Const
            | Token::If
            | Token::Else
            | Token::While
            | Token::Loop
            | Token::For
            | Token::In
            | Token::Continue
            | Token::Break
            | Token::Return
            | Token::Throw => true,
            _ => false,
        }
    }

    /// Is this token a reserved symbol?
    pub fn is_reserved(&self) -> (r: bool)
        ensures
            r == (self@ is Reserved),
    {
        match self {
            Token::Reserved(_) => true,
            _ => false,
        }
    }

    /// Is this token a custom keyword?
    pub fn is_custom(&self) -> (r: bool)
        ensures
            r == (self@ is Custom),
    {
        match self {
            Token::Custom(_) => true,
            _ => false,
        }
    }
}

/// Is the text one of the reserved spellings?
pub(crate) fn is_reserved_spelling(s: &str) -> (r: bool)
    ensures
        r == spec_is_reserved_spelling(s@),
{
    str_eq(s, "===") || str_eq(s, "!==") || str_eq(s, "->") || str_eq(s, "<-") || str_eq(s, "=>")
        || str_eq(s, ":=") || str_eq(s, "::<") || str_eq(s, "(*") || str_eq(s, "*)") || str_eq(
        s,
        "#",
    ) || str_eq(s, "print") || str_eq(s, "debug") || str_eq(s, "type_of") || str_eq(s, "eval")
        || str_eq(s, "Fn") || str_eq(s, "call") || str_eq(s, "curry") || str_eq(s, "shared")
        || str_eq(s, "this")
}

/// Does the token have one fixed canonical spelling that resolves back to
/// it? This holds of every marker tag except the unary plus and minus
/// (whose spellings resolve to the binary tags) and the end-of-stream
/// marker (whose rendering is not a spelling); tags carrying free-form
/// text have no fixed spelling.
pub open spec fn spec_fixed_spelling(t: TokenModel) -> bool {
    match t {
        TokenModel::IntegerConstant(_)
        | TokenModel::Identifier(_)
        | TokenModel::CharConstant(_)
        | TokenModel::StringConstant(_)
        | TokenModel::LexError(_)
        | TokenModel::Comment(_)
        | TokenModel::Reserved(_)
        | TokenModel::Custom(_) => false,
        TokenModel::UnaryPlus | TokenModel::UnaryMinus | TokenModel::EOF => false,
        _ => true,
    }
}

/// The length and characters of every canonical spelling the lexer
/// knows, pinned down so that distinct spellings can be told apart.
pub proof fn lemma_spelling_table()
    ensures
        ("{"@).len() == 1,
        ("{"@)[0] == '{',
        ("}"@).len() == 1,
        ("}"@)[0] == '}',
        ("("@).len() == 1,
        ("("@)[0] == '(',
        (")"@).len() == 1,
        (")"@)[0] == ')',
        ("["@).len() == 1,
        ("["@)[0] == '[',
        ("]"@).len() == 1,
        ("]"@)[0] == ']',
        ("+"@).len() == 1,
        ("+"@)[0] == '+',
        ("-"@).len() == 1,
        ("-"@)[0] == '-',
        ("*"@).len() == 1,
        ("*"@)[0] == '*',
        ("/"@).len() == 1,
        ("/"@)[0] == '/',
        (";"@).len() == 1,
        (";"@)[0] == ';',
        (":"@).len() == 1,
        (":"@)[0] == ':',
        ("::"@).len() == 2,
        ("::"@)[0] == ':',
        ("::"@)[1] == ':',
        (","@).len() == 1,
        (","@)[0] == ',',
        ("."@).len() == 1,
        ("."@)[0] == '.',
        ("#{"@).len() == 2,
        ("#{"@)[0] == '#',
        ("#{"@)[1] == '{',
        ("="@).len() == 1,
        ("="@)[0] == '=',
        ("true"@).len() == 4,
        ("true"@)[0] == 't',
        ("true"@)[1] == 'r',
        ("true"@)[2] == 'u',
        ("true"@)[3] == 'e',
        ("false"@).len() == 5,
        ("false"@)[0] == 'f',
        ("false"@)[1] == 'a',
        ("false"@)[2] == 'l',
        ("false"@)[3] == 's',
        ("false"@)[4] == 'e',
        ("let"@).len() == 3,
        ("let"@)[0] == 'l',
        ("let"@)[1] == 'e',
        ("let"@)[2] == 't',
        ("const"@).len() == 5,
        ("const"@)[0] == 'c',
        ("const"@)[1] == 'o',
        ("const"@)[2] == 'n',
        ("const"@)[3] == 's',
        ("const"@)[4] == 't',
        ("if"@).len() == 2,
        ("if"@)[0] == 'i',
        ("if"@)[1] == 'f',
        ("else"@).len() == 4,
        ("else"@)[0] == 'e',
        ("else"@)[1] == 'l',
        ("else"@)[2] == 's',
        ("else"@)[3] == 'e',
        ("while"@).len() == 5,
        ("while"@)[0] == 'w',
        ("while"@)[1] == 'h',
        ("while"@)[2] == 'i',
        ("while"@)[3] == 'l',
        ("while"@)[4] == 'e',
        ("loop"@).len() == 4,
        ("loop"@)[0] == 'l',
        ("loop"@)[1] == 'o',
        ("loop"@)[2] == 'o',
        ("loop"@)[3] == 'p',
        ("for"@).len() == 3,
        ("for"@)[0] == 'f',
        ("for"@)[1] == 'o',
        ("for"@)[2] == 'r',
        ("in"@).len() == 2,
        ("in"@)[0] == 'i',
        ("in"@)[1] == 'n',
        ("<"@).len() == 1,
        ("<"@)[0] == '<',
        (">"@).len() == 1,
        (">"@)[0] == '>',
        ("!"@).len() == 1,
        ("!"@)[0] == '!',
        ("<="@).len() == 2,
        ("<="@)[0] == '<',
        ("<="@)[1] == '=',
        (">="@).len() == 2,
        (">="@)[0] == '>',
        (">="@)[1] == '=',
        ("=="@).len() == 2,
        ("=="@)[0] == '=',
        ("=="@)[1] == '=',
        ("!="@).len() == 2,
        ("!="@)[0] == '!',
        ("!="@)[1] == '=',
        ("|"@).len() == 1,
        ("|"@)[0] == '|',
        ("||"@).len() == 2,
        ("||"@)[0] == '|',
        ("||"@)[1] == '|',
        ("&"@).len() == 1,
        ("&"@)[0] == '&',
        ("&&"@).len() == 2,
        ("&&"@)[0] == '&',
        ("&&"@)[1] == '&',
        ("continue"@).len() == 8,
        ("continue"@)[0] == 'c',
        ("continue"@)[1] == 'o',
        ("continue"@)[2] == 'n',
        ("continue"@)[3] == 't',
        ("continue"@)[4] == 'i',
        ("continue"@)[5] == 'n',
        ("continue"@)[6] == 'u',
        ("continue"@)[7] == 'e',
        ("break"@).len() == 5,
        ("break"@)[0] == 'b',
        ("break"@)[1] == 'r',
        ("break"@)[2] == 'e',
        ("break"@)[3] == 'a',
        ("break"@)[4] == 'k',
        ("return"@).len() == 6,
        ("return"@)[0] == 'r',
        ("return"@)[1] == 'e',
        ("return"@)[2] == 't',
        ("return"@)[3] == 'u',
        ("return"@)[4] == 'r',
        ("return"@)[5] == 'n',
        ("throw"@).len() == 5,
        ("throw"@)[0] == 't',
        ("throw"@)[1] == 'h',
        ("throw"@)[2] == 'r',
        ("throw"@)[3] == 'o',
        ("throw"@)[4] == 'w',
        ("+="@).len() == 2,
        ("+="@)[0] == '+',
        ("+="@)[1] == '=',
        ("-="@).len() == 2,
        ("-="@)[0] == '-',
        ("-="@)[1] == '=',
        ("*="@).len() == 2,
        ("*="@)[0] == '*',
        ("*="@)[1] == '=',
        ("/="@).len() == 2,
        ("/="@)[0] == '/',
        ("/="@)[1] == '=',
        ("<<="@).len() == 3,
        ("<<="@)[0] == '<',
        ("<<="@)[1] == '<',
        ("<<="@)[2] == '=',
        (">>="@).len() == 3,
        (">>="@)[0] == '>',
        (">>="@)[1] == '>',
        (">>="@)[2] == '=',
        ("&="@).len() == 2,
        ("&="@)[0] == '&',
        ("&="@)[1] == '=',
        ("|="@).len() == 2,
        ("|="@)[0] == '|',
        ("|="@)[1] == '=',
        ("^="@).len() == 2,
        ("^="@)[0] == '^',
        ("^="@)[1] == '=',
        ("<<"@).len() == 2,
        ("<<"@)[0] == '<',
        ("<<"@)[1] == '<',
        (">>"@).len() == 2,
        (">>"@)[0] == '>',
        (">>"@)[1] == '>',
        ("^"@).len() == 1,
        ("^"@)[0] == '^',
        ("%"@).len() == 1,
        ("%"@)[0] == '%',
        ("%="@).len() == 2,
        ("%="@)[0] == '%',
        ("%="@)[1] == '=',
        ("~"@).len() == 1,
        ("~"@)[0] == '~',
        ("~="@).len() == 2,
        ("~="@)[0] == '~',
        ("~="@)[1] == '=',
        ("fn"@).len() == 2,
        ("fn"@)[0] == 'f',
        ("fn"@)[1] == 'n',
        ("private"@).len() == 7,
        ("private"@)[0] == 'p',
        ("private"@)[1] == 'r',
        ("private"@)[2] == 'i',
        ("private"@)[3] == 'v',
        ("private"@)[4] == 'a',
        ("private"@)[5] == 't',
        ("private"@)[6] == 'e',
        ("import"@).len() == 6,
        ("import"@)[0] == 'i',
        ("import"@)[1] == 'm',
        ("import"@)[2] == 'p',
        ("import"@)[3] == 'o',
        ("import"@)[4] == 'r',
        ("import"@)[5] == 't',
        ("export"@).len() == 6,
        ("export"@)[0] == 'e',
        ("export"@)[1] == 'x',
        ("export"@)[2] == 'p',
        ("export"@)[3] == 'o',
        ("export"@)[4] == 'r',
        ("export"@)[5] == 't',
        ("as"@).len() == 2,
        ("as"@)[0] == 'a',
        ("as"@)[1] == 's',
        ("==="@).len() == 3,
        ("==="@)[0] == '=',
        ("==="@)[1] == '=',
        ("==="@)[2] == '=',
        ("!=="@).len() == 3,
        ("!=="@)[0] == '!',
        ("!=="@)[1] == '=',
        ("!=="@)[2] == '=',
        ("->"@).len() == 2,
        ("->"@)[0] == '-',
        ("->"@)[1] == '>',
        ("<-"@).len() == 2,
        ("<-"@)[0] == '<',
        ("<-"@)[1] == '-',
        ("=>"@).len() == 2,
        ("=>"@)[0] == '=',
        ("=>"@)[1] == '>',
        (":="@).len() == 2,
        (":="@)[0] == ':',
        (":="@)[1] == '=',
        ("::<"@).len() == 3,
        ("::<"@)[0] == ':',
        ("::<"@)[1] == ':',
        ("::<"@)[2] == '<',
        ("(*"@).len() == 2,
        ("(*"@)[0] == '(',
        ("(*"@)[1] == '*',
        ("*)"@).len() == 2,
        ("*)"@)[0] == '*',
        ("*)"@)[1] == ')',
        ("#"@).len() == 1,
        ("#"@)[0] == '#',
        ("print"@).len() == 5,
        ("print"@)[0] == 'p',
        ("print"@)[1] == 'r',
        ("print"@)[2] == 'i',
        ("print"@)[3] == 'n',
        ("print"@)[4] == 't',
        ("debug"@).len() == 5,
        ("debug"@)[0] == 'd',
        ("debug"@)[1] == 'e',
        ("debug"@)[2] == 'b',
        ("debug"@)[3] == 'u',
        ("debug"@)[4] == 'g',
        ("type_of"@).len() == 7,
        ("type_of"@)[0] == 't',
        ("type_of"@)[1] == 'y',
        ("type_of"@)[2] == 'p',
        ("type_of"@)[3] == 'e',
        ("type_of"@)[4] == '_',
        ("type_of"@)[5] == 'o',
        ("type_of"@)[6] == 'f',
        ("eval"@).len() == 4,
        ("eval"@)[0] == 'e',
        ("eval"@)[1] == 'v',
        ("eval"@)[2] == 'a',
        ("eval"@)[3] == 'l',
        ("Fn"@).len() == 2,
        ("Fn"@)[0] == 'F',
        ("Fn"@)[1] == 'n',
        ("call"@).len() == 4,
        ("call"@)[0] == 'c',
        ("call"@)[1] == 'a',
        ("call"@)[2] == 'l',
        ("call"@)[3] == 'l',
        ("curry"@).len() == 5,
        ("curry"@)[0] == 'c',
        ("curry"@)[1] == 'u',
        ("curry"@)[2] == 'r',
        ("curry"@)[3] == 'r',
        ("curry"@)[4] == 'y',
        ("shared"@).len() == 6,
        ("shared"@)[0] == 's',
        ("shared"@)[1] == 'h',
        ("shared"@)[2] == 'a',
        ("shared"@)[3] == 'r',
        ("shared"@)[4] == 'e',
        ("shared"@)[5] == 'd',
        ("this"@).len() == 4,
        ("this"@)[0] == 't',
        ("this"@)[1] == 'h',
        ("this"@)[2] == 'i',
        ("this"@)[3] == 's',
        ("{EOF}"@).len() == 5,
        ("{EOF}"@)[0] == '{',
        ("{EOF}"@)[1] == 'E',
        ("{EOF}"@)[2] == 'O',
        ("{EOF}"@)[3] == 'F',
        ("{EOF}"@)[4] == '}',
        ("string"@).len() == 6,
        ("string"@)[0] == 's',
        ("string"@)[1] == 't',
        ("string"@)[2] == 'r',
        ("string"@)[3] == 'i',
        ("string"@)[4] == 'n',
        ("string"@)[5] == 'g',
{
    reveal_strlit("{");
    reveal_strlit("}");
    reveal_strlit("(");
    reveal_strlit(")");
    reveal_strlit("[");
    reveal_strlit("]");
    reveal_strlit("+");
    reveal_strlit("-");
    reveal_strlit("*");
    reveal_strlit("/");
    reveal_strlit(";");
    reveal_strlit(":");
    reveal_strlit("::");
    reveal_strlit(",");
    reveal_strlit(".");
    reveal_strlit("#{");
    reveal_strlit("=");
    reveal_strlit("true");
    reveal_strlit("false");
    reveal_strlit("let");
    reveal_strlit("const");
    reveal_strlit("if");
    reveal_strlit("else");
    reveal_strlit("while");
    reveal_strlit("loop");
    reveal_strlit("for");
    reveal_strlit("in");
    reveal_strlit("<");
    reveal_strlit(">");
    reveal_strlit("!");
    reveal_strlit("<=");
    reveal_strlit(">=");
    reveal_strlit("==");
    reveal_strlit("!=");
    reveal_strlit("|");
    reveal_strlit("||");
    reveal_strlit("&");
    reveal_strlit("&&");
    reveal_strlit("continue");
    reveal_strlit("break");
    reveal_strlit("return");
    reveal_strlit("throw");
    reveal_strlit("+=");
    reveal_strlit("-=");
    reveal_strlit("*=");
    reveal_strlit("/=");
    reveal_strlit("<<=");
    reveal_strlit(">>=");
    reveal_strlit("&=");
    reveal_strlit("|=");
    reveal_strlit("^=");
    reveal_strlit("<<");
    reveal_strlit(">>");
    reveal_strlit("^");
    reveal_strlit("%");
    reveal_strlit("%=");
    reveal_strlit("~");
    reveal_strlit("~=");
    reveal_strlit("fn");
    reveal_strlit("private");
    reveal_strlit("import");
    reveal_strlit("export");
    reveal_strlit("as");
    reveal_strlit("===");
    reveal_strlit("!==");
    reveal_strlit("->");
    reveal_strlit("<-");
    reveal_strlit("=>");
    reveal_strlit(":=");
    reveal_strlit("::<");
    reveal_strlit("(*");
    reveal_strlit("*)");
    reveal_strlit("#");
    reveal_strlit("print");
    reveal_strlit("debug");
    reveal_strlit("type_of");
    reveal_strlit("eval");
    reveal_strlit("Fn");
    reveal_strlit("call");
    reveal_strlit("curry");
    reveal_strlit("shared");
    reveal_strlit("this");
    reveal_strlit("{EOF}");
    reveal_strlit("string");
}

/// Round-trip law: resolving the canonical spelling of any fixed-spelling
/// token through the spelling-to-token lookup yields that same token.
#[verifier::rlimit(100)]
#[verifier::spinoff_prover]
pub proof fn lemma_spelling_round_trip(t: TokenModel)
    requires
        spec_fixed_spelling(t),
    ensures
        spec_lookup(spec_syntax(t)) == Some(t),
{
    lemma_spelling_table();
    match t {
        TokenModel::LeftBrace => {
            assert(spec_lookup(spec_syntax(TokenModel::LeftBrace)) == Some(TokenModel::LeftBrace));
        },
        TokenModel::RightBrace => {
            assert(spec_lookup(spec_syntax(TokenModel::RightBrace)) == Some(TokenModel::RightBrace));
        },
        TokenModel::LeftParen => {
            assert(spec_lookup(spec_syntax(TokenModel::LeftParen)) == Some(TokenModel::LeftParen));
        },
        TokenModel::RightParen => {
            assert(spec_lookup(spec_syntax(TokenModel::RightParen)) == Some(TokenModel::RightParen));
        },
        TokenModel::LeftBracket => {
            assert(spec_lookup(spec_syntax(TokenModel::LeftBracket)) == Some(TokenModel::LeftBracket));
        },
        TokenModel::RightBracket => {
            assert(spec_lookup(spec_syntax(TokenModel::RightBracket)) == Some(TokenModel::RightBracket));
        },
        TokenModel::Plus => {
            assert(spec_lookup(spec_syntax(TokenModel::Plus)) == Some(TokenModel::Plus));
        },
        TokenModel::Minus => {
            assert(spec_lookup(spec_syntax(TokenModel::Minus)) == Some(TokenModel::Minus));
        },
        TokenModel::Multiply => {
            assert(spec_lookup(spec_syntax(TokenModel::Multiply)) == Some(TokenModel::Multiply));
        },
        TokenModel::Divide => {
            assert(spec_lookup(spec_syntax(TokenModel::Divide)) == Some(TokenModel::Divide));
        },
        TokenModel::Modulo => {
            assert(spec_lookup(spec_syntax(TokenModel::Modulo)) == Some(TokenModel::Modulo));
        },
        TokenModel::PowerOf => {
            assert(spec_lookup(spec_syntax(TokenModel::PowerOf)) == Some(TokenModel::PowerOf));
        },
        TokenModel::LeftShift => {
            assert(spec_lookup(spec_syntax(TokenModel::LeftShift)) == Some(TokenModel::LeftShift));
        },
        TokenModel::RightShift => {
            assert(spec_lookup(spec_syntax(TokenModel::RightShift)) == Some(TokenModel::RightShift));
        },
        TokenModel::SemiColon => {
            assert(spec_lookup(spec_syntax(TokenModel::SemiColon)) == Some(TokenModel::SemiColon));
        },
        TokenModel::Colon => {
            assert(spec_lookup(spec_syntax(TokenModel::Colon)) == Some(TokenModel::Colon));
        },
        TokenModel::DoubleColon => {
            assert(spec_lookup(spec_syntax(TokenModel::DoubleColon)) == Some(TokenModel::DoubleColon));
        },
        TokenModel::Comma => {
            assert(spec_lookup(spec_syntax(TokenModel::Comma)) == Some(TokenModel::Comma));
        },
        TokenModel::Period => {
            assert(spec_lookup(spec_syntax(TokenModel::Period)) == Some(TokenModel::Period));
        },
        TokenModel::MapStart => {
            assert(spec_lookup(spec_syntax(TokenModel::MapStart)) == Some(TokenModel::MapStart));
        },
        TokenModel::Equals => {
            assert(spec_lookup(spec_syntax(TokenModel::Equals)) == Some(TokenModel::Equals));
        },
        TokenModel::True => {
            assert(spec_lookup(spec_syntax(TokenModel::True)) == Some(TokenModel::True));
        },
        TokenModel::False => {
            assert(spec_lookup(spec_syntax(TokenModel::False)) == Some(TokenModel::False));
        },
        TokenModel::Let => {
            assert(spec_lookup(spec_syntax(TokenModel::Let)) == Some(TokenModel::Let));
        },
        TokenModel::Const => {
            assert(spec_lookup(spec_syntax(TokenModel::Const)) == Some(TokenModel::Const));
        },
        TokenModel::If => {
            assert(spec_lookup(spec_syntax(TokenModel::If)) == Some(TokenModel::If));
        },
        TokenModel::Else => {
            assert(spec_lookup(spec_syntax(TokenModel::Else)) == Some(TokenModel::Else));
        },
        TokenModel::While => {
            assert(spec_lookup(spec_syntax(TokenModel::While)) == Some(TokenModel::While));
        },
        TokenModel::Loop => {
            assert(spec_lookup(spec_syntax(TokenModel::Loop)) == Some(TokenModel::Loop));
        },
        TokenModel::For => {
            assert(spec_lookup(spec_syntax(TokenModel::For)) == Some(TokenModel::For));
        },
        TokenModel::In => {
            assert(spec_lookup(spec_syntax(TokenModel::In)) == Some(TokenModel::In));
        },
        TokenModel::LessThan => {
            assert(spec_lookup(spec_syntax(TokenModel::LessThan)) == Some(TokenModel::LessThan));
        },
        TokenModel::GreaterThan => {
            assert(spec_lookup(spec_syntax(TokenModel::GreaterThan)) == Some(TokenModel::GreaterThan));
        },
        TokenModel::LessThanEqualsTo => {
            assert(spec_lookup(spec_syntax(TokenModel::LessThanEqualsTo)) == Some(TokenModel::LessThanEqualsTo));
        },
        TokenModel::GreaterThanEqualsTo => {
            assert(spec_lookup(spec_syntax(TokenModel::GreaterThanEqualsTo)) == Some(TokenModel::GreaterThanEqualsTo));
        },
        TokenModel::EqualsTo => {
            assert(spec_lookup(spec_syntax(TokenModel::EqualsTo)) == Some(TokenModel::EqualsTo));
        },
        TokenModel::NotEqualsTo => {
            assert(spec_lookup(spec_syntax(TokenModel::NotEqualsTo)) == Some(TokenModel::NotEqualsTo));
        },
        TokenModel::Bang => {
            assert(spec_lookup(spec_syntax(TokenModel::Bang)) == Some(TokenModel::Bang));
        },
        TokenModel::Pipe => {
            assert(spec_lookup(spec_syntax(TokenModel::Pipe)) == Some(TokenModel::Pipe));
        },
        TokenModel::Or => {
            assert(spec_lookup(spec_syntax(TokenModel::Or)) == Some(TokenModel::Or));
        },
        TokenModel::XOr => {
            assert(spec_lookup(spec_syntax(TokenModel::XOr)) == Some(TokenModel::XOr));
        },
        TokenModel::Ampersand => {
            assert(spec_lookup(spec_syntax(TokenModel::Ampersand)) == Some(TokenModel::Ampersand));
        },
        TokenModel::And => {
            assert(spec_lookup(spec_syntax(TokenModel::And)) == Some(TokenModel::And));
        },
        TokenModel::Fn => {
            assert(spec_lookup(spec_syntax(TokenModel::Fn)) == Some(TokenModel::Fn));
        },
        TokenModel::Continue => {
            assert(spec_lookup(spec_syntax(TokenModel::Continue)) == Some(TokenModel::Continue));
        },
        TokenModel::Break => {
            assert(spec_lookup(spec_syntax(TokenModel::Break)) == Some(TokenModel::Break));
        },
        TokenModel::Return => {
            assert(spec_lookup(spec_syntax(TokenModel::Return)) == Some(TokenModel::Return));
        },
        TokenModel::Throw => {
            assert(spec_lookup(spec_syntax(TokenModel::Throw)) == Some(TokenModel::Throw));
        },
        TokenModel::PlusAssign => {
            assert(spec_lookup(spec_syntax(TokenModel::PlusAssign)) == Some(TokenModel::PlusAssign));
        },
        TokenModel::MinusAssign => {
            assert(spec_lookup(spec_syntax(TokenModel::MinusAssign)) == Some(TokenModel::MinusAssign));
        },
        TokenModel::MultiplyAssign => {
            assert(spec_lookup(spec_syntax(TokenModel::MultiplyAssign)) == Some(TokenModel::MultiplyAssign));
        },
        TokenModel::DivideAssign => {
            assert(spec_lookup(spec_syntax(TokenModel::DivideAssign)) == Some(TokenModel::DivideAssign));
        },
        TokenModel::LeftShiftAssign => {
            assert(spec_lookup(spec_syntax(TokenModel::LeftShiftAssign)) == Some(TokenModel::LeftShiftAssign));
        },
        TokenModel::RightShiftAssign => {
            assert(spec_lookup(spec_syntax(TokenModel::RightShiftAssign)) == Some(TokenModel::RightShiftAssign));
        },
        TokenModel::AndAssign => {
            assert(spec_lookup(spec_syntax(TokenModel::AndAssign)) == Some(TokenModel::AndAssign));
        },
        TokenModel::OrAssign => {
            assert(spec_lookup(spec_syntax(TokenModel::OrAssign)) == Some(TokenModel::OrAssign));
        },
        TokenModel::XOrAssign => {
            assert(spec_lookup(spec_syntax(TokenModel::XOrAssign)) == Some(TokenModel::XOrAssign));
        },
        TokenModel::ModuloAssign => {
            assert(spec_lookup(spec_syntax(TokenModel::ModuloAssign)) == Some(TokenModel::ModuloAssign));
        },
        TokenModel::PowerOfAssign => {
            assert(spec_lookup(spec_syntax(TokenModel::PowerOfAssign)) == Some(TokenModel::PowerOfAssign));
        },
        TokenModel::Private => {
            assert(spec_lookup(spec_syntax(TokenModel::Private)) == Some(TokenModel::Private));
        },
        TokenModel::Import => {
            assert(spec_lookup(spec_syntax(TokenModel::Import)) == Some(TokenModel::Import));
        },
        TokenModel::Export => {
            assert(spec_lookup(spec_syntax(TokenModel::Export)) == Some(TokenModel::Export));
        },
        TokenModel::As => {
            assert(spec_lookup(spec_syntax(TokenModel::As)) == Some(TokenModel::As));
        },
        _ => {},
    }
}

/// Does the character run have the shape of a legal identifier? At least
/// one ASCII letter must appear, every character must be a letter, digit
/// or underscore, and no digit may come before the first letter.
pub open spec fn spec_valid_identifier_from(s: Seq<char>, i: int, seen_alpha: bool) -> bool
    decreases s.len() - i,
{
    if i < 0 || i >= s.len() {
        seen_alpha
    } else if s[i] == '_' {
        spec_valid_identifier_from(s, i + 1, seen_alpha)
    } else if ('a' <= s[i] && s[i] <= 'z') || ('A' <= s[i] && s[i] <= 'Z') {
        spec_valid_identifier_from(s, i + 1, true)
    } else if !seen_alpha {
        false
    } else if '0' <= s[i] && s[i] <= '9' {
        spec_valid_identifier_from(s, i + 1, seen_alpha)
    } else {
        false
    }
}

/// Does the character run have the shape of a legal identifier?
pub open spec fn spec_is_valid_identifier(s: Seq<char>) -> bool {
    spec_valid_identifier_from(s, 0, false)
}

/// Is the text a legal identifier?
pub fn is_valid_identifier(name: &str) -> (r: bool)
    ensures
        r == spec_is_valid_identifier(name@),
{
    let len = name.unicode_len();
    let mut first_alphabetic = false;
    let mut i: usize = 0;
    while i < len
        invariant
            len == name@.len(),
            i <= len,
            spec_is_valid_identifier(name@) == spec_valid_identifier_from(
                name@,
                i as int,
                first_alphabetic,
            ),
        decreases len - i,
    {
        let ch = name.get_char(i);
        if ch == '_' {
        } else if is_ascii_alphabetic(ch) {
            first_alphabetic = true;
        } else if !first_alphabetic {
            return false;
        } else if is_ascii_alphanumeric(ch) {
        } else {
            return false;
        }
        i += 1;
    }
    first_alphabetic
}

/// Is the character run a legal identifier?
pub(crate) fn is_valid_identifier_chars(name: &Vec<char>) -> (r: bool)
    ensures
        r == spec_is_valid_identifier(name@),
{
    let mut first_alphabetic = false;
    let mut i: usize = 0;
    while i < name.len()
        invariant
            i <= name@.len(),
            spec_is_valid_identifier(name@) == spec_valid_identifier_from(
                name@,
                i as int,
                first_alphabetic,
            ),
        decreases name@.len() - i,
    {
        let ch = name[i];
        if ch == '_' {
        } else if is_ascii_alphabetic(ch) {
            first_alphabetic = true;
        } else if !first_alphabetic {
            return false;
        } else if is_ascii_alphanumeric(ch) {
        } else {
            return false;
        }
        i += 1;
    }
    first_alphabetic
}

} // verus!
