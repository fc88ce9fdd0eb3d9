//! The mathematical model of the raw tokenizer: recursive functions over
//! the remaining character sequence that say exactly which token the next
//! pull produces, what input it consumes, and how the position and state
//! move. The executable scanner is proved equal to this model.

use crate::chars::spec_is_whitespace;
use crate::error::LexErrorModel;
use crate::numbers::{
    spec_digit_value, spec_is_digit, spec_is_hex_digit, spec_parse_decimal, spec_parse_radix,
    spec_radix_digit,
};
use crate::position::{spec_advance, spec_new_line, spec_rewind, Position};
use crate::token::{spec_is_valid_identifier, spec_lookup, TokenModel};
use vstd::prelude::*;

verus! {

/// State of the tokenizer carried across token boundaries within one lex
/// invocation.
#[derive(Debug, Clone, Eq, PartialEq, Structural)]
pub struct TokenizeState {
    /// Maximum length of a string (0 = unlimited).
    pub max_string_size: usize,
    /// Can the next token be a unary operator?
    pub non_unary: bool,
    /// Is the tokenizer currently inside a block comment, and how deep?
    pub comment_level: usize,
    /// Signal exhaustion at the end of the stream instead of an explicit
    /// end-of-stream token?
    pub end_with_none: bool,
    /// Surface comments as tokens?
    pub include_comments: bool,
}

impl Default for TokenizeState {
    /// The state a fresh lex invocation starts from: no limit, no
    /// overrides of the terminal signal, comments discarded.
    fn default() -> (r: Self)
        ensures
            r == (TokenizeState {
                max_string_size: 0,
                non_unary: false,
                comment_level: 0,
                end_with_none: false,
                include_comments: false,
            }),
    {
        TokenizeState {
            max_string_size: 0,
            non_unary: false,
            comment_level: 0,
            end_with_none: false,
            include_comments: false,
        }
    }
}

/// The position `n` characters further on the same line.
pub open spec fn advance_n(p: Position, n: nat) -> Position
    decreases n,
{
    if n == 0 {
        p
    } else {
        spec_advance(advance_n(p, (n - 1) as nat))
    }
}

/// What scanning a hex-coded escape sequence of `k` more digits yields:
/// the decoded character, or the malformed sequence with the position of
/// its end.
pub struct HexScan {
    /// The decoded character, or the error.
    pub result: Result<char, (LexErrorModel, Position)>,
    /// What remains of the input.
    pub rem: Seq<char>,
    /// The position after the consumed digits.
    pub pos: Position,
}

/// Scan `k` further hex digits of an escape sequence whose text so far is
/// `text` and whose value so far is `val`.
pub open spec fn spec_scan_hex(
    rem: Seq<char>,
    pos: Position,
    k: nat,
    text: Seq<char>,
    val: nat,
) -> HexScan
    decreases k,
{
    if k == 0 {
        if vstd::utf8::is_scalar(val as u32) {
            HexScan { result: Ok((val as u32) as char), rem, pos }
        } else {
            HexScan {
                result: Err((LexErrorModel::MalformedEscapeSequence(text), pos)),
                rem,
                pos,
            }
        }
    } else if rem.len() == 0 {
        HexScan { result: Err((LexErrorModel::MalformedEscapeSequence(text), pos)), rem, pos }
    } else {
        let c = rem[0];
        let text2 = text.push(c);
        let pos2 = spec_advance(pos);
        if !spec_is_hex_digit(c) {
            HexScan {
                result: Err((LexErrorModel::MalformedEscapeSequence(text2), pos2)),
                rem: rem.drop_first(),
                pos: pos2,
            }
        } else {
            spec_scan_hex(
                rem.drop_first(),
                pos2,
                (k - 1) as nat,
                text2,
                val * 16 + (spec_digit_value(c) as nat),
            )
        }
    }
}

/// The hex scan consumes no more input than there is.
pub proof fn lemma_hex_rem_le(rem: Seq<char>, pos: Position, k: nat, text: Seq<char>, val: nat)
    ensures
        spec_scan_hex(rem, pos, k, text, val).rem.len() <= rem.len(),
    decreases k,
{
    if k > 0 && rem.len() > 0 && spec_is_hex_digit(rem[0]) {
        lemma_hex_rem_le(
            rem.drop_first(),
            spec_advance(pos),
            (k - 1) as nat,
            text.push(rem[0]),
            val * 16 + (spec_digit_value(rem[0]) as nat),
        );
    }
}

/// What scanning the rest of a string or character literal yields.
pub struct StringScan {
    /// The decoded content, or the error with its position.
    pub result: Result<Seq<char>, (LexErrorModel, Position)>,
    /// What remains of the input.
    pub rem: Seq<char>,
    /// The position after the consumed characters.
    pub pos: Position,
}

/// Scan the rest of a literal enclosed by `delim`, with `esc` recording
/// whether a backslash is pending and `acc` the content decoded so far.
/// The length limit is checked against the decoded character count as
/// scanning goes, and against the encoded byte length at the end.
pub open spec fn spec_scan_string_at(
    rem: Seq<char>,
    max: usize,
    delim: char,
    pos: Position,
    esc: bool,
    acc: Seq<char>,
) -> StringScan
    decreases rem.len(),
{
    if rem.len() == 0 {
        StringScan { result: Err((LexErrorModel::UnterminatedString, pos)), rem, pos }
    } else {
        let c = rem[0];
        let rest = rem.drop_first();
        let pos1 = spec_advance(pos);
        if max > 0 && acc.len() > max {
            StringScan {
                result: Err((LexErrorModel::StringTooLong(max), pos1)),
                rem: rest,
                pos: pos1,
            }
        } else if c == '\\' && !esc {
            spec_scan_string_at(rest, max, delim, pos1, true, acc)
        } else if c == '\\' && esc {
            spec_scan_string_at(rest, max, delim, pos1, false, acc.push('\\'))
        } else if c == 't' && esc {
            spec_scan_string_at(rest, max, delim, pos1, false, acc.push('\t'))
        } else if c == 'n' && esc {
            spec_scan_string_at(rest, max, delim, pos1, false, acc.push('\n'))
        } else if c == 'r' && esc {
            spec_scan_string_at(rest, max, delim, pos1, false, acc.push('\r'))
        } else if (c == 'x' || c == 'u' || c == 'U') && esc {
            let k: nat = if c == 'x' {
                2
            } else if c == 'u' {
                4
            } else {
                8
            };
            let h = spec_scan_hex(rest, pos1, k, seq!['\\', c], 0);
            match h.result {
                Ok(ch) => {
                    proof {
                        lemma_hex_rem_le(rest, pos1, k, seq!['\\', c], 0);
                    }
                    spec_scan_string_at(h.rem, max, delim, h.pos, false, acc.push(ch))
                },
                Err(e) => StringScan { result: Err(e), rem: h.rem, pos: h.pos },
            }
        } else if c == delim && esc {
            spec_scan_string_at(rest, max, delim, pos1, false, acc.push(c))
        } else if c == delim && !esc {
            if max > 0 && (vstd::utf8::encode_utf8(acc).len() as usize) > max {
                StringScan {
                    result: Err((LexErrorModel::StringTooLong(max), pos1)),
                    rem: rest,
                    pos: pos1,
                }
            } else {
                StringScan { result: Ok(acc), rem: rest, pos: pos1 }
            }
        } else if esc {
            StringScan {
                result: Err((LexErrorModel::MalformedEscapeSequence(seq!['\\']), pos1)),
                rem: rest,
                pos: pos1,
            }
        } else if c == '\n' {
            StringScan {
                result: Err((LexErrorModel::UnterminatedString, spec_rewind(pos1))),
                rem: rest,
                pos: spec_rewind(pos1),
            }
        } else {
            spec_scan_string_at(rest, max, delim, pos1, false, acc.push(c))
        }
    }
}

/// Scan a string or character literal body from its opening delimiter.
pub open spec fn spec_scan_string(
    rem: Seq<char>,
    max: usize,
    delim: char,
    pos: Position,
) -> StringScan {
    spec_scan_string_at(rem, max, delim, pos, false, Seq::empty())
}

/// What scanning the inside of a block comment yields.
pub struct CommentScan {
    /// The comment text accumulated (only when comments are surfaced).
    pub text: Seq<char>,
    /// The comment nesting level when scanning stopped: zero when the
    /// comment closed, positive when input ran out first.
    pub level: usize,
    /// What remains of the input.
    pub rem: Seq<char>,
    /// The position after the consumed characters.
    pub pos: Position,
}

/// Scan the inside of a block comment at nesting depth `level`,
/// accumulating text onto `acc` when `emit` is set. Every `/*`
/// deepens and every `*/` closes one level; scanning stops when the
/// level reaches zero or input runs out, whichever is first. The depth
/// saturates silently at the machine maximum, in the same way positions
/// saturate. Newlines advance the line counter wherever they stand,
/// including right after a slash or star.
pub open spec fn spec_scan_comment(
    rem: Seq<char>,
    level: usize,
    emit: bool,
    pos: Position,
    acc: Seq<char>,
) -> CommentScan
    decreases rem.len(),
{
    if rem.len() == 0 {
        CommentScan { text: acc, level, rem, pos }
    } else {
        let c = rem[0];
        let pos1 = spec_advance(pos);
        let acc1 = if emit {
            acc.push(c)
        } else {
            acc
        };
        if c == '/' {
            if rem.len() >= 2 {
                let c2 = rem[1];
                let acc2 = if emit {
                    acc1.push(c2)
                } else {
                    acc1
                };
                let level2 = if c2 == '*' && level < usize::MAX {
                    (level + 1) as usize
                } else {
                    level
                };
                let pos2 = if c2 == '\n' {
                    spec_new_line(spec_advance(pos1))
                } else {
                    spec_advance(pos1)
                };
                if level2 == 0 {
                    CommentScan { text: acc2, level: level2, rem: rem.skip(2), pos: pos2 }
                } else {
                    spec_scan_comment(rem.skip(2), level2, emit, pos2, acc2)
                }
            } else {
                if level == 0 {
                    CommentScan { text: acc1, level, rem: rem.skip(1), pos: spec_advance(pos1) }
                } else {
                    spec_scan_comment(rem.skip(1), level, emit, spec_advance(pos1), acc1)
                }
            }
        } else if c == '*' {
            if rem.len() >= 2 {
                let c2 = rem[1];
                let acc2 = if emit {
                    acc1.push(c2)
                } else {
                    acc1
                };
                let level2 = if c2 == '/' && level >= 1 {
                    (level - 1) as usize
                } else {
                    level
                };
                let pos2 = if c2 == '\n' {
                    spec_new_line(spec_advance(pos1))
                } else {
                    spec_advance(pos1)
                };
                if level2 == 0 {
                    CommentScan { text: acc2, level: level2, rem: rem.skip(2), pos: pos2 }
                } else {
                    spec_scan_comment(rem.skip(2), level2, emit, pos2, acc2)
                }
            } else {
                if level == 0 {
                    CommentScan { text: acc1, level, rem: rem.skip(1), pos: spec_advance(pos1) }
                } else {
                    spec_scan_comment(rem.skip(1), level, emit, spec_advance(pos1), acc1)
                }
            }
        } else {
            let pos2 = if c == '\n' {
                spec_new_line(pos1)
            } else {
                pos1
            };
            if level == 0 {
                CommentScan { text: acc1, level, rem: rem.skip(1), pos: pos2 }
            } else {
                spec_scan_comment(rem.skip(1), level, emit, pos2, acc1)
            }
        }
    }
}

/// The comment scan consumes no more input than there is.
pub proof fn lemma_comment_rem_le(
    rem: Seq<char>,
    level: usize,
    emit: bool,
    pos: Position,
    acc: Seq<char>,
)
    ensures
        spec_scan_comment(rem, level, emit, pos, acc).rem.len() <= rem.len(),
    decreases rem.len(),
{
    if rem.len() == 0 {
    } else {
        let c = rem[0];
        let pos1 = spec_advance(pos);
        let acc1 = if emit {
            acc.push(c)
        } else {
            acc
        };
        if c == '/' || c == '*' {
            if rem.len() >= 2 {
                let c2 = rem[1];
                let acc2 = if emit {
                    acc1.push(c2)
                } else {
                    acc1
                };
                let level2 = if c == '/' && c2 == '*' && level < usize::MAX {
                    (level + 1) as usize
                } else if c == '*' && c2 == '/' && level >= 1 {
                    (level - 1) as usize
                } else {
                    level
                };
                let pos2 = if c2 == '\n' {
                    spec_new_line(spec_advance(pos1))
                } else {
                    spec_advance(pos1)
                };
                if level2 != 0 {
                    lemma_comment_rem_le(rem.skip(2), level2, emit, pos2, acc2);
                }
            } else {
                if level != 0 {
                    lemma_comment_rem_le(rem.skip(1), level, emit, spec_advance(pos1), acc1);
                }
            }
        } else {
            let pos2 = if c == '\n' {
                spec_new_line(pos1)
            } else {
                pos1
            };
            if level != 0 {
                lemma_comment_rem_le(rem.skip(1), level, emit, pos2, acc1);
            }
        }
    }
}

/// What scanning the body of a numeric literal yields.
pub struct NumScan {
    /// The accumulated literal text (digits, separators and radix
    /// markers, without any folded minus sign).
    pub chars: Seq<char>,
    /// The radix selected by the last radix marker, if any.
    pub radix: Option<u32>,
    /// What remains of the input.
    pub rem: Seq<char>,
    /// The position after the consumed characters.
    pub pos: Position,
}

/// Scan the continuation of a numeric literal. `zero_first` records
/// whether the literal's first character was `0` (only then do radix
/// markers apply); `run` is the radix of the digit run currently being
/// consumed, if any. A character that ends a radix digit run is
/// reconsidered by the outer rules, so separators may follow a run.
pub open spec fn spec_scan_number_at(
    rem: Seq<char>,
    zero_first: bool,
    acc: Seq<char>,
    radix: Option<u32>,
    run: Option<u32>,
    pos: Position,
) -> NumScan
    decreases rem.len(), (if run is Some { 1int } else { 0int }),
{
    if rem.len() == 0 {
        NumScan { chars: acc, radix, rem, pos }
    } else {
        let c = rem[0];
        match run {
            Some(r) => {
                if spec_radix_digit(c, r) {
                    spec_scan_number_at(
                        rem.drop_first(),
                        zero_first,
                        acc.push(c),
                        radix,
                        run,
                        spec_advance(pos),
                    )
                } else {
                    spec_scan_number_at(rem, zero_first, acc, radix, None, pos)
                }
            },
            None => {
                if spec_is_digit(c) || c == '_' {
                    spec_scan_number_at(
                        rem.drop_first(),
                        zero_first,
                        acc.push(c),
                        radix,
                        None,
                        spec_advance(pos),
                    )
                } else if zero_first && (c == 'x' || c == 'X') {
                    spec_scan_number_at(
                        rem.drop_first(),
                        zero_first,
                        acc.push(c),
                        Some(16),
                        Some(16),
                        spec_advance(pos),
                    )
                } else if zero_first && (c == 'o' || c == 'O') {
                    spec_scan_number_at(
                        rem.drop_first(),
                        zero_first,
                        acc.push(c),
                        Some(8),
                        Some(8),
                        spec_advance(pos),
                    )
                } else if zero_first && (c == 'b' || c == 'B') {
                    spec_scan_number_at(
                        rem.drop_first(),
                        zero_first,
                        acc.push(c),
                        Some(2),
                        Some(2),
                        spec_advance(pos),
                    )
                } else {
                    NumScan { chars: acc, radix, rem, pos }
                }
            },
        }
    }
}

/// Scan a numeric literal whose first (already consumed) character is
/// `first`.
pub open spec fn spec_scan_number(rem: Seq<char>, first: char, pos: Position) -> NumScan {
    spec_scan_number_at(rem, first == '0', seq![first], None, None, pos)
}

/// The token a completed numeric literal scan produces: the parsed value,
/// or a malformed-number error carrying the literal text (with the folded
/// minus sign put back in front). A radix-marked literal parses from the
/// text after its two-character prefix.
pub open spec fn spec_number_token(scanned: Seq<char>, radix: Option<u32>, negated: bool) -> TokenModel {
    let chars = if negated {
        seq!['-'] + scanned
    } else {
        scanned
    };
    match radix {
        Some(r) => match spec_parse_radix(chars.skip(2), r) {
            Some(v) => TokenModel::IntegerConstant(v),
            None => TokenModel::LexError(LexErrorModel::MalformedNumber(chars)),
        },
        None => match spec_parse_decimal(chars) {
            Some(v) => TokenModel::IntegerConstant(v),
            None => TokenModel::LexError(LexErrorModel::MalformedNumber(chars)),
        },
    }
}

/// The number scan only extends its text, and only ever selects the three
/// radixes; a selected radix means the text is at least two characters.
pub proof fn lemma_number_scan_shape(
    rem: Seq<char>,
    zero_first: bool,
    acc: Seq<char>,
    radix: Option<u32>,
    run: Option<u32>,
    pos: Position,
)
    requires
        radix is Some ==> acc.len() >= 2,
        radix is None ==> acc.len() >= 1,
        radix is Some ==> (radix->0 == 2 || radix->0 == 8 || radix->0 == 16),
    ensures
        ({
            let scan = spec_scan_number_at(rem, zero_first, acc, radix, run, pos);
            &&& scan.chars.len() >= acc.len()
            &&& (scan.radix is Some ==> scan.chars.len() >= 2)
            &&& (scan.radix is Some ==> (scan.radix->0 == 2 || scan.radix->0 == 8
                || scan.radix->0 == 16))
            &&& (scan.radix is None ==> radix is None)
        }),
    decreases rem.len(), (if run is Some { 1int } else { 0int }),
{
    if rem.len() == 0 {
    } else {
        let c = rem[0];
        match run {
            Some(r) => {
                if spec_radix_digit(c, r) {
                    lemma_number_scan_shape(
                        rem.drop_first(),
                        zero_first,
                        acc.push(c),
                        radix,
                        run,
                        spec_advance(pos),
                    );
                } else {
                    lemma_number_scan_shape(rem, zero_first, acc, radix, None, pos);
                }
            },
            None => {
                if spec_is_digit(c) || c == '_' {
                    lemma_number_scan_shape(
                        rem.drop_first(),
                        zero_first,
                        acc.push(c),
                        radix,
                        None,
                        spec_advance(pos),
                    );
                } else if zero_first && (c == 'x' || c == 'X') {
                    lemma_number_scan_shape(
                        rem.drop_first(),
                        zero_first,
                        acc.push(c),
                        Some(16),
                        Some(16),
                        spec_advance(pos),
                    );
                } else if zero_first && (c == 'o' || c == 'O') {
                    lemma_number_scan_shape(
                        rem.drop_first(),
                        zero_first,
                        acc.push(c),
                        Some(8),
                        Some(8),
                        spec_advance(pos),
                    );
                } else if zero_first && (c == 'b' || c == 'B') {
                    lemma_number_scan_shape(
                        rem.drop_first(),
                        zero_first,
                        acc.push(c),
                        Some(2),
                        Some(2),
                        spec_advance(pos),
                    );
                }
            },
        }
    }
}

/// The number of leading characters that continue an identifier (ASCII
/// letters, digits or underscores).
pub open spec fn spec_ident_run(rem: Seq<char>) -> nat
    decreases rem.len(),
{
    if rem.len() == 0 {
        0
    } else if ('a' <= rem[0] && rem[0] <= 'z') || ('A' <= rem[0] && rem[0] <= 'Z') || ('0'
        <= rem[0] && rem[0] <= '9') || rem[0] == '_' {
        1 + spec_ident_run(rem.drop_first())
    } else {
        0
    }
}

/// The identifier run is a prefix of the input.
pub proof fn lemma_ident_run_le(rem: Seq<char>)
    ensures
        spec_ident_run(rem) <= rem.len(),
    decreases rem.len(),
{
    if rem.len() > 0 {
        lemma_ident_run_le(rem.drop_first());
    }
}

/// The number of leading characters before the end of the line (or of the
/// input).
pub open spec fn spec_line_run(rem: Seq<char>) -> nat
    decreases rem.len(),
{
    if rem.len() == 0 {
        0
    } else if rem[0] == '\n' {
        0
    } else {
        1 + spec_line_run(rem.drop_first())
    }
}

/// The line run is a prefix of the input.
pub proof fn lemma_line_run_le(rem: Seq<char>)
    ensures
        spec_line_run(rem) <= rem.len(),
    decreases rem.len(),
{
    if rem.len() > 0 && rem[0] != '\n' {
        lemma_line_run_le(rem.drop_first());
    }
}

/// The token an identifier run produces: a malformed-identifier error for
/// an illegal shape, the keyword or reserved tag the text spells, or an
/// identifier.
pub open spec fn spec_ident_token(chars: Seq<char>) -> TokenModel {
    if !spec_is_valid_identifier(chars) {
        TokenModel::LexError(LexErrorModel::MalformedIdentifier(chars))
    } else {
        match spec_lookup(chars) {
            Some(t) => t,
            None => TokenModel::Identifier(chars),
        }
    }
}

/// One step of the raw tokenizer: the produced item (a token with the
/// position it starts at, or nothing when the stream is exhausted in the
/// exhaustion-signalling mode), what remains of the input, and the state
/// and position after the step. The unary flag is not updated here but by
/// the caller, from the produced token.
pub struct Step {
    /// The produced token and its position, if any.
    pub item: Option<(TokenModel, Position)>,
    /// What remains of the input.
    pub rem: Seq<char>,
    /// The tokenizer state after the step.
    pub st: TokenizeState,
    /// The position after the step.
    pub pos: Position,
}

/// The main scanning loop: skip whitespace, newlines and (unless they are
/// surfaced) comments, then classify one token from the current character
/// and one character of lookahead, longest match first.
pub open spec fn spec_scan(rem: Seq<char>, st: TokenizeState, pos: Position) -> Step
    decreases rem.len(),
{
    if rem.len() == 0 {
        let pos2 = spec_advance(pos);
        Step {
            item: if st.end_with_none {
                None
            } else {
                Some((TokenModel::EOF, pos2))
            },
            rem,
            st,
            pos: pos2,
        }
    } else {
        let c = rem[0];
        let peek = if rem.len() > 1 {
            rem[1]
        } else {
            '\0'
        };
        let pos1 = spec_advance(pos);
        if c == '\n' {
            spec_scan(rem.drop_first(), st, spec_new_line(pos1))
        } else if spec_is_digit(c) {
            let scan = spec_scan_number(rem.drop_first(), c, pos1);
            Step {
                item: Some((spec_number_token(scan.chars, scan.radix, false), pos1)),
                rem: scan.rem,
                st,
                pos: scan.pos,
            }
        } else if ('a' <= c && c <= 'z') || ('A' <= c && c <= 'Z') || c == '_' {
            let k = spec_ident_run(rem.drop_first());
            let chars = seq![c] + rem.drop_first().take(k as int);
            Step {
                item: Some((spec_ident_token(chars), pos1)),
                rem: rem.skip(1 + k as int),
                st,
                pos: advance_n(pos1, k),
            }
        } else if c == '"' {
            let scan = spec_scan_string(rem.drop_first(), st.max_string_size, '"', pos1);
            Step {
                item: Some(
                    match scan.result {
                        Ok(s) => (TokenModel::StringConstant(s), pos1),
                        Err((e, ep)) => (TokenModel::LexError(e), ep),
                    },
                ),
                rem: scan.rem,
                st,
                pos: scan.pos,
            }
        } else if c == '\'' && peek == '\'' {
            Step {
                item: Some(
                    (
                        TokenModel::LexError(LexErrorModel::MalformedChar(Seq::empty())),
                        pos1,
                    ),
                ),
                rem: rem.drop_first(),
                st,
                pos: pos1,
            }
        } else if c == '\'' {
            let scan = spec_scan_string(rem.drop_first(), st.max_string_size, '\'', pos1);
            Step {
                item: Some(
                    match scan.result {
                        Ok(s) => if s.len() == 1 {
                            (TokenModel::CharConstant(s[0]), pos1)
                        } else {
                            (TokenModel::LexError(LexErrorModel::MalformedChar(s)), pos1)
                        },
                        Err((e, ep)) => (TokenModel::LexError(e), ep),
                    },
                ),
                rem: scan.rem,
                st,
                pos: scan.pos,
            }
        } else if c == '{' {
            one_char_step(TokenModel::LeftBrace, rem, st, pos1)
        } else if c == '}' {
            one_char_step(TokenModel::RightBrace, rem, st, pos1)
        } else if c == '(' && peek == '*' {
            two_char_step(TokenModel::Reserved("(*"@), rem, st, pos1)
        } else if c == '(' {
            one_char_step(TokenModel::LeftParen, rem, st, pos1)
        } else if c == ')' {
            one_char_step(TokenModel::RightParen, rem, st, pos1)
        } else if c == '[' {
            one_char_step(TokenModel::LeftBracket, rem, st, pos1)
        } else if c == ']' {
            one_char_step(TokenModel::RightBracket, rem, st, pos1)
        } else if c == '#' && peek == '{' {
            two_char_step(TokenModel::MapStart, rem, st, pos1)
        } else if c == '#' {
            one_char_step(TokenModel::Reserved("#"@), rem, st, pos1)
        } else if c == '+' && peek == '=' {
            two_char_step(TokenModel::PlusAssign, rem, st, pos1)
        } else if c == '+' && !st.non_unary {
            one_char_step(TokenModel::UnaryPlus, rem, st, pos1)
        } else if c == '+' {
            one_char_step(TokenModel::Plus, rem, st, pos1)
        } else if c == '-' && spec_is_digit(peek) && !st.non_unary {
            let pos2 = spec_advance(pos1);
            let scan = spec_scan_number(rem.skip(2), peek, pos2);
            Step {
                item: Some((spec_number_token(scan.chars, scan.radix, true), pos2)),
                rem: scan.rem,
                st,
                pos: scan.pos,
            }
        } else if c == '-' && spec_is_digit(peek) {
            one_char_step(TokenModel::Minus, rem, st, pos1)
        } else if c == '-' && peek == '=' {
            two_char_step(TokenModel::MinusAssign, rem, st, pos1)
        } else if c == '-' && peek == '>' {
            two_char_step(TokenModel::Reserved("->"@), rem, st, pos1)
        } else if c == '-' && !st.non_unary {
            one_char_step(TokenModel::UnaryMinus, rem, st, pos1)
        } else if c == '-' {
            one_char_step(TokenModel::Minus, rem, st, pos1)
        } else if c == '*' && peek == ')' {
            two_char_step(TokenModel::Reserved("*)"@), rem, st, pos1)
        } else if c == '*' && peek == '=' {
            two_char_step(TokenModel::MultiplyAssign, rem, st, pos1)
        } else if c == '*' {
            one_char_step(TokenModel::Multiply, rem, st, pos1)
        } else if c == '/' && peek == '/' {
            let k = spec_line_run(rem.skip(2));
            proof {
                lemma_line_run_le(rem.skip(2));
            }
            let newline = k < rem.skip(2).len();
            let rem2 = rem.skip(2 + k as int + (if newline { 1int } else { 0int }));
            let posk = advance_n(pos1, 1 + k);
            let pos2 = if newline {
                spec_new_line(posk)
            } else {
                posk
            };
            if st.include_comments {
                Step {
                    item: Some(
                        (TokenModel::Comment("//"@ + rem.skip(2).take(k as int)), pos1),
                    ),
                    rem: rem2,
                    st,
                    pos: pos2,
                }
            } else {
                spec_scan(rem2, st, pos2)
            }
        } else if c == '/' && peek == '*' {
            let st1 = TokenizeState { comment_level: 1, ..st };
            let acc0: Seq<char> = if st.include_comments {
                "/*"@
            } else {
                Seq::empty()
            };
            let scan = spec_scan_comment(
                rem.skip(2),
                1,
                st.include_comments,
                spec_advance(pos1),
                acc0,
            );
            let st2 = TokenizeState { comment_level: scan.level, ..st1 };
            if st.include_comments {
                Step { item: Some((TokenModel::Comment(scan.text), pos1)), rem: scan.rem, st: st2, pos: scan.pos }
            } else {
                proof {
                    lemma_comment_rem_le(
                        rem.skip(2),
                        1,
                        st.include_comments,
                        spec_advance(pos1),
                        acc0,
                    );
                }
                spec_scan(scan.rem, st2, scan.pos)
            }
        } else if c == '/' && peek == '=' {
            two_char_step(TokenModel::DivideAssign, rem, st, pos1)
        } else if c == '/' {
            one_char_step(TokenModel::Divide, rem, st, pos1)
        } else if c == ';' {
            one_char_step(TokenModel::SemiColon, rem, st, pos1)
        } else if c == ',' {
            one_char_step(TokenModel::Comma, rem, st, pos1)
        } else if c == '.' {
            one_char_step(TokenModel::Period, rem, st, pos1)
        } else if c == '=' && peek == '=' {
            if rem.len() > 2 && rem[2] == '=' {
                three_char_step(TokenModel::Reserved("==="@), rem, st, pos1)
            } else {
                two_char_step(TokenModel::EqualsTo, rem, st, pos1)
            }
        } else if c == '=' && peek == '>' {
            two_char_step(TokenModel::Reserved("=>"@), rem, st, pos1)
        } else if c == '=' {
            one_char_step(TokenModel::Equals, rem, st, pos1)
        } else if c == ':' && peek == ':' {
            if rem.len() > 2 && rem[2] == '<' {
                three_char_step(TokenModel::Reserved("::<"@), rem, st, pos1)
            } else {
                two_char_step(TokenModel::DoubleColon, rem, st, pos1)
            }
        } else if c == ':' && peek == '=' {
            two_char_step(TokenModel::Reserved(":="@), rem, st, pos1)
        } else if c == ':' {
            one_char_step(TokenModel::Colon, rem, st, pos1)
        } else if c == '<' && peek == '=' {
            two_char_step(TokenModel::LessThanEqualsTo, rem, st, pos1)
        } else if c == '<' && peek == '-' {
            two_char_step(TokenModel::Reserved("<-"@), rem, st, pos1)
        } else if c == '<' && peek == '<' {
            if rem.len() > 2 && rem[2] == '=' {
                three_char_step(TokenModel::LeftShiftAssign, rem, st, pos1)
            } else {
                two_char_step(TokenModel::LeftShift, rem, st, pos1)
            }
        } else if c == '<' {
            one_char_step(TokenModel::LessThan, rem, st, pos1)
        } else if c == '>' && peek == '=' {
            two_char_step(TokenModel::GreaterThanEqualsTo, rem, st, pos1)
        } else if c == '>' && peek == '>' {
            if rem.len() > 2 && rem[2] == '=' {
                three_char_step(TokenModel::RightShiftAssign, rem, st, pos1)
            } else {
                two_char_step(TokenModel::RightShift, rem, st, pos1)
            }
        } else if c == '>' {
            one_char_step(TokenModel::GreaterThan, rem, st, pos1)
        } else if c == '!' && peek == '=' {
            if rem.len() > 2 && rem[2] == '=' {
                three_char_step(TokenModel::Reserved("!=="@), rem, st, pos1)
            } else {
                two_char_step(TokenModel::NotEqualsTo, rem, st, pos1)
            }
        } else if c == '!' {
            one_char_step(TokenModel::Bang, rem, st, pos1)
        } else if c == '|' && peek == '|' {
            two_char_step(TokenModel::Or, rem, st, pos1)
        } else if c == '|' && peek == '=' {
            two_char_step(TokenModel::OrAssign, rem, st, pos1)
        } else if c == '|' {
            one_char_step(TokenModel::Pipe, rem, st, pos1)
        } else if c == '&' && peek == '&' {
            two_char_step(TokenModel::And, rem, st, pos1)
        } else if c == '&' && peek == '=' {
            two_char_step(TokenModel::AndAssign, rem, st, pos1)
        } else if c == '&' {
            one_char_step(TokenModel::Ampersand, rem, st, pos1)
        } else if c == '^' && peek == '=' {
            two_char_step(TokenModel::XOrAssign, rem, st, pos1)
        } else if c == '^' {
            one_char_step(TokenModel::XOr, rem, st, pos1)
        } else if c == '%' && peek == '=' {
            two_char_step(TokenModel::ModuloAssign, rem, st, pos1)
        } else if c == '%' {
            one_char_step(TokenModel::Modulo, rem, st, pos1)
        } else if c == '~' && peek == '=' {
            two_char_step(TokenModel::PowerOfAssign, rem, st, pos1)
        } else if c == '~' {
            one_char_step(TokenModel::PowerOf, rem, st, pos1)
        } else if c == '@' {
            one_char_step(TokenModel::Reserved("@"@), rem, st, pos1)
        } else if spec_is_whitespace(c) {
            spec_scan(rem.drop_first(), st, pos1)
        } else {
            one_char_step(TokenModel::LexError(LexErrorModel::UnexpectedInput(seq![c])), rem, st, pos1)
        }
    }
}

/// A step that produced a token from one consumed character.
pub open spec fn one_char_step(t: TokenModel, rem: Seq<char>, st: TokenizeState, pos1: Position) -> Step {
    Step { item: Some((t, pos1)), rem: rem.skip(1), st, pos: pos1 }
}

/// A step that produced a token from two consumed characters.
pub open spec fn two_char_step(t: TokenModel, rem: Seq<char>, st: TokenizeState, pos1: Position) -> Step {
    Step { item: Some((t, pos1)), rem: rem.skip(2), st, pos: spec_advance(pos1) }
}

/// A step that produced a token from three consumed characters.
pub open spec fn three_char_step(t: TokenModel, rem: Seq<char>, st: TokenizeState, pos1: Position) -> Step {
    Step {
        item: Some((t, pos1)),
        rem: rem.skip(3),
        st,
        pos: spec_advance(spec_advance(pos1)),
    }
}

/// One pull of the raw tokenizer: finish a block comment left open by the
/// previous pull first (surfacing it when comments are included), then
/// scan the next token.
pub open spec fn spec_next(rem: Seq<char>, st: TokenizeState, pos: Position) -> Step {
    if st.comment_level > 0 {
        let scan = spec_scan_comment(rem, st.comment_level, st.include_comments, pos, Seq::empty());
        let st2 = TokenizeState { comment_level: scan.level, ..st };
        if st.include_comments {
            Step { item: Some((TokenModel::Comment(scan.text), pos)), rem: scan.rem, st: st2, pos: scan.pos }
        } else {
            spec_scan(scan.rem, st2, scan.pos)
        }
    } else {
        spec_scan(rem, st, pos)
    }
}


/// The identifier run length is exactly the count of leading identifier
/// characters.
pub proof fn lemma_ident_run_exact(rem: Seq<char>, j: nat)
    requires
        j <= rem.len(),
        forall|i: int|
            0 <= i < j ==> (('a' <= rem[i] && rem[i] <= 'z') || ('A' <= rem[i] && rem[i] <= 'Z')
                || ('0' <= rem[i] && rem[i] <= '9') || rem[i] == '_'),
        j == rem.len() || !(('a' <= rem[j as int] && rem[j as int] <= 'z') || ('A' <= rem[j as int]
            && rem[j as int] <= 'Z') || ('0' <= rem[j as int] && rem[j as int] <= '9')
            || rem[j as int] == '_'),
    ensures
        spec_ident_run(rem) == j,
    decreases j,
{
    if j == 0 {
    } else {
        assert(rem.drop_first().len() == rem.len() - 1);
        assert(forall|i: int| 0 <= i < j - 1 ==> rem.drop_first()[i] == rem[i + 1]);
        lemma_ident_run_exact(rem.drop_first(), (j - 1) as nat);
    }
}

/// The line run length is exactly the count of characters before the first
/// newline.
pub proof fn lemma_line_run_exact(rem: Seq<char>, j: nat)
    requires
        j <= rem.len(),
        forall|i: int| 0 <= i < j ==> rem[i] != '\n',
        j == rem.len() || rem[j as int] == '\n',
    ensures
        spec_line_run(rem) == j,
    decreases j,
{
    if j == 0 {
    } else {
        assert(forall|i: int| 0 <= i < j - 1 ==> rem.drop_first()[i] == rem[i + 1]);
        lemma_line_run_exact(rem.drop_first(), (j - 1) as nat);
    }
}


/// Advancing once and then `n` times is advancing `n + 1` times.
pub proof fn lemma_advance_n_shift(p: Position, n: nat)
    ensures
        advance_n(spec_advance(p), n) == advance_n(p, n + 1),
    decreases n,
{
    if n == 0 {
        assert(advance_n(p, 1) == spec_advance(advance_n(p, 0)));
    } else {
        lemma_advance_n_shift(p, (n - 1) as nat);
        assert(advance_n(p, n + 1) == spec_advance(advance_n(p, n)));
        assert(advance_n(spec_advance(p), n) == spec_advance(advance_n(spec_advance(p), (n - 1) as nat)));
    }
}

} // verus!
