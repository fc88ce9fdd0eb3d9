//! The closed set of lexical error kinds. Errors are embedded in the token
//! stream as `Token::LexError` at the point of failure, so position
//! information is preserved and the consumer decides whether an error is
//! fatal or recoverable.

use crate::chars::chars_to_string;
use crate::numbers::{spec_u64_decimal, u64_decimal_chars};
use vstd::prelude::*;
use vstd::string::StringExecFns;

verus! {

/// An error encountered while lexing. The payload carries the offending
/// text (or the configured limit, for `StringTooLong`).
#[derive(Debug, PartialEq, Clone)]
pub enum LexError {
    /// An unexpected character or disabled operator spelling.
    UnexpectedInput(String),
    /// A string literal with no closing delimiter before end of input,
    /// or with a raw newline inside it.
    UnterminatedString,
    /// A string literal longer than the configured maximum length.
    StringTooLong(usize),
    /// An escape sequence with invalid or missing hex digits, a
    /// non-scalar code point, or an unrecognized escape character.
    MalformedEscapeSequence(String),
    /// Numeric literal text that does not parse to a value in range.
    MalformedNumber(String),
    /// A character literal that decodes to zero or to several characters.
    MalformedChar(String),
    /// An alphanumeric/underscore run with no alphabetic character, or
    /// with a digit before the first alphabetic character.
    MalformedIdentifier(String),
    /// A reserved symbol confusable with another language's syntax, or a
    /// disabled reserved symbol; the payload names the likely confusion.
    ImproperSymbol(String),
}

/// The mathematical model of a `LexError`: the same tags, with owned text
/// abstracted to a sequence of characters.
pub enum LexErrorModel {
    UnexpectedInput(Seq<char>),
    UnterminatedString,
    StringTooLong(usize),
    MalformedEscapeSequence(Seq<char>),
    MalformedNumber(Seq<char>),
    MalformedChar(Seq<char>),
    MalformedIdentifier(Seq<char>),
    ImproperSymbol(Seq<char>),
}

impl View for LexError {
    type V = LexErrorModel;

    open spec fn view(&self) -> LexErrorModel {
        match self {
            LexError::UnexpectedInput(s) => LexErrorModel::UnexpectedInput(s@),
            LexError::UnterminatedString => LexErrorModel::UnterminatedString,
            LexError::StringTooLong(n) => LexErrorModel::StringTooLong(*n),
            LexError::MalformedEscapeSequence(s) => LexErrorModel::MalformedEscapeSequence(s@),
            LexError::MalformedNumber(s) => LexErrorModel::MalformedNumber(s@),
            LexError::MalformedChar(s) => LexErrorModel::MalformedChar(s@),
            LexError::MalformedIdentifier(s) => LexErrorModel::MalformedIdentifier(s@),
            LexError::ImproperSymbol(s) => LexErrorModel::ImproperSymbol(s@),
        }
    }
}

/// The diagnostic text of a lexical error.
pub open spec fn spec_error_message(e: LexErrorModel) -> Seq<char> {
    match e {
        LexErrorModel::UnexpectedInput(s) => "Unexpected '"@ + s + "'"@,
        LexErrorModel::UnterminatedString => "Open string is not terminated"@,
        LexErrorModel::StringTooLong(n) => "Length of string literal exceeds the maximum limit "@
            + spec_u64_decimal(n as u64),
        LexErrorModel::MalformedEscapeSequence(s) => "Invalid escape sequence: '"@ + s + "'"@,
        LexErrorModel::MalformedNumber(s) => "Invalid number: '"@ + s + "'"@,
        LexErrorModel::MalformedChar(s) => "Invalid character: '"@ + s + "'"@,
        LexErrorModel::MalformedIdentifier(s) => "Variable name is not proper: '"@ + s + "'"@,
        LexErrorModel::ImproperSymbol(s) => s,
    }
}

impl LexError {
    /// Render the diagnostic text of this error.
    pub fn message(&self) -> (r: String)
        ensures
            r@ == spec_error_message(self@),
    {
        match self {
            LexError::UnexpectedInput(s) => {
                let mut r = String::from_str("Unexpected '");
                r.append(s.as_str());
                r.append("'");
                r
            },
            LexError::UnterminatedString => String::from_str("Open string is not terminated"),
            LexError::StringTooLong(n) => {
                let mut r = String::from_str(
                    "Length of string literal exceeds the maximum limit ",
                );
                let digits = u64_decimal_chars(*n as u64);
                let ds = chars_to_string(&digits);
                r.append(ds.as_str());
                r
            },
            LexError::MalformedEscapeSequence(s) => {
                let mut r = String::from_str("Invalid escape sequence: '");
                r.append(s.as_str());
                r.append("'");
                r
            },
            LexError::MalformedNumber(s) => {
                let mut r = String::from_str("Invalid number: '");
                r.append(s.as_str());
                r.append("'");
                r
            },
            LexError::MalformedChar(s) => {
                let mut r = String::from_str("Invalid character: '");
                r.append(s.as_str());
                r.append("'");
                r
            },
            LexError::MalformedIdentifier(s) => {
                let mut r = String::from_str("Variable name is not proper: '");
                r.append(s.as_str());
                r.append("'");
                r
            },
            LexError::ImproperSymbol(s) => s.clone(),
        }
    }
}

} // verus!
