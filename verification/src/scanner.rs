//! The executable raw tokenizer, proved equal to the model: character
//! stream + state in, one positioned token out.

use crate::chars::{chars_to_string, is_ascii_alphabetic, is_ascii_alphanumeric};
use crate::error::LexError;
use crate::model::{
    advance_n, lemma_ident_run_exact, lemma_line_run_exact, spec_ident_run, spec_ident_token,
    spec_line_run, spec_next, spec_number_token, spec_scan, spec_scan_comment, spec_scan_hex,
    spec_scan_number, spec_scan_number_at, spec_scan_string, spec_scan_string_at, StringScan,
    TokenizeState,
};
use crate::numbers::{is_radix_digit, parse_int_decimal, parse_int_radix, to_hex_digit};
use crate::position::Position;
use crate::stream::InputStream;
use crate::token::Token;
use vstd::prelude::*;

verus! {

/// Consume the next character.
fn eat_next<S: InputStream>(stream: &mut S, pos: &mut Position) -> (r: Option<char>)
    requires
        old(stream).wf(),
        old(pos).line != 0,
    ensures
        final(stream).wf(),
        final(pos).line != 0,
        *final(pos) == crate::position::spec_advance(*old(pos)),
        old(stream).remaining().len() > 0 ==> r == Some(old(stream).remaining()[0])
            && final(stream).remaining() == old(stream).remaining().drop_first(),
        old(stream).remaining().len() == 0 ==> r is None && final(stream).remaining()
            == old(stream).remaining(),
{
    pos.advance();
    stream.get_next()
}

/// Parse a string literal wrapped by `enclosing_char`, decoding escape
/// sequences, exactly as the model says.
pub fn parse_string_literal<S: InputStream>(
    stream: &mut S,
    state: &mut TokenizeState,
    pos: &mut Position,
    enclosing_char: char,
) -> (r: Result<String, (LexError, Position)>)
    requires
        old(stream).wf(),
        old(pos).line != 0,
    ensures
        final(stream).wf(),
        final(pos).line != 0,
        *final(state) == *old(state),
        final(stream).remaining().len() <= old(stream).remaining().len(),
        ({
            let scan = spec_scan_string(
                old(stream).remaining(),
                old(state).max_string_size,
                enclosing_char,
                *old(pos),
            );
            &&& final(stream).remaining() == scan.rem
            &&& *final(pos) == scan.pos
            &&& match (r, scan.result) {
                (Ok(s), Ok(m)) => s@ == m,
                (Err((e, p)), Err((em, pm))) => e@ == em && p == pm,
                _ => false,
            }
        }),
{
    let ghost target = spec_scan_string(
        old(stream).remaining(),
        old(state).max_string_size,
        enclosing_char,
        *old(pos),
    );
    let max = state.max_string_size;
    let mut result: Vec<char> = Vec::new();
    let mut escape_seen = false;

    loop
        invariant
            stream.wf(),
            pos.line != 0,
            max == state.max_string_size,
            *state == *old(state),
            stream.remaining().len() <= old(stream).remaining().len(),
            target == spec_scan_string(
                old(stream).remaining(),
                old(state).max_string_size,
                enclosing_char,
                *old(pos),
            ),
            target == spec_scan_string_at(
                stream.remaining(),
                max,
                enclosing_char,
                *pos,
                escape_seen,
                result@,
            ),
        decreases stream.remaining().len(),
    {
        let ghost rem_a = stream.remaining();
        let ghost pos_a = *pos;
        let ghost esc_a = escape_seen;
        let ghost acc_a = result@;
        let next_char = match stream.get_next() {
            Some(c) => c,
            None => {
                return Err((LexError::UnterminatedString, *pos));
            },
        };
        pos.advance();
        proof {
            assert(rem_a[0] == next_char);
            assert(stream.remaining() == rem_a.drop_first());
        }

        if max > 0 && result.len() > max {
            return Err((LexError::StringTooLong(max), *pos));
        }
        if next_char == '\\' && !escape_seen {
            escape_seen = true;
        } else if next_char == '\\' && escape_seen {
            escape_seen = false;
            result.push('\\');
        } else if next_char == 't' && escape_seen {
            escape_seen = false;
            result.push('\t');
        } else if next_char == 'n' && escape_seen {
            escape_seen = false;
            result.push('\n');
        } else if next_char == 'r' && escape_seen {
            escape_seen = false;
            result.push('\r');
        } else if (next_char == 'x' || next_char == 'u' || next_char == 'U') && escape_seen {
            escape_seen = false;
            let mut seq_chars: Vec<char> = Vec::new();
            seq_chars.push('\\');
            seq_chars.push(next_char);
            proof {
                assert(seq_chars@ =~= seq!['\\', next_char]);
            }
            let k: usize = if next_char == 'x' {
                2
            } else if next_char == 'u' {
                4
            } else {
                8
            };
            let ghost hex_target = spec_scan_hex(
                stream.remaining(),
                *pos,
                k as nat,
                seq!['\\', next_char],
                0,
            );
            proof {
                assert(target == (match hex_target.result {
                    Ok(ch) => spec_scan_string_at(
                        hex_target.rem,
                        max,
                        enclosing_char,
                        hex_target.pos,
                        false,
                        acc_a.push(ch),
                    ),
                    Err(e) => StringScan { result: Err(e), rem: hex_target.rem, pos: hex_target.pos },
                }));
            }
            let mut out_val: u32 = 0;
            let mut i: usize = 0;
            while i < k
                invariant
                    stream.wf(),
                    pos.line != 0,
                    i <= k,
                    k <= 8,
                    max == state.max_string_size,
                    *state == *old(state),
                    result@ == acc_a,
                    (out_val as nat) < pow16((i as nat)),
                    stream.remaining().len() < rem_a.len(),
                    rem_a.len() <= old(stream).remaining().len(),
                    target == spec_scan_string(
                        old(stream).remaining(),
                        old(state).max_string_size,
                        enclosing_char,
                        *old(pos),
                    ),
                    target == (match hex_target.result {
                        Ok(ch) => spec_scan_string_at(
                            hex_target.rem,
                            max,
                            enclosing_char,
                            hex_target.pos,
                            false,
                            acc_a.push(ch),
                        ),
                        Err(e) => StringScan {
                            result: Err(e),
                            rem: hex_target.rem,
                            pos: hex_target.pos,
                        },
                    }),
                    hex_target == spec_scan_hex(
                        stream.remaining(),
                        *pos,
                        (k - i) as nat,
                        seq_chars@,
                        out_val as nat,
                    ),
                decreases k - i,
            {
                proof {
                    lemma_pow16_bounds();
                    lemma_pow16_mono(i as nat, 7);
                }
                let c = match stream.get_next() {
                    Some(c) => c,
                    None => {
                        let text = chars_to_string(&seq_chars);
                        return Err((LexError::MalformedEscapeSequence(text), *pos));
                    },
                };
                seq_chars.push(c);
                pos.advance();
                let d = match to_hex_digit(c) {
                    Some(d) => d,
                    None => {
                        let text = chars_to_string(&seq_chars);
                        return Err((LexError::MalformedEscapeSequence(text), *pos));
                    },
                };
                out_val = out_val * 16 + d;
                i += 1;
            }
            proof {
                assert(hex_target == spec_scan_hex(
                    stream.remaining(),
                    *pos,
                    0,
                    seq_chars@,
                    out_val as nat,
                ));
            }
            match char::from_u32(out_val) {
                Some(decoded) => {
                    result.push(decoded);
                },
                None => {
                    let text = chars_to_string(&seq_chars);
                    return Err((LexError::MalformedEscapeSequence(text), *pos));
                },
            }
        } else if next_char == enclosing_char && escape_seen {
            escape_seen = false;
            result.push(next_char);
        } else if next_char == enclosing_char && !escape_seen {
            let s = chars_to_string(&result);
            if max > 0 && s.as_str().len() > max {
                return Err((LexError::StringTooLong(max), *pos));
            }
            proof {
                assert(s@ == result@);
                assert(!(max > 0 && (vstd::utf8::encode_utf8(result@).len() as usize) > max));
                assert(target == StringScan {
                    result: Ok(result@),
                    rem: stream.remaining(),
                    pos: *pos,
                });
            }
            return Ok(s);
        } else if escape_seen {
            let mut esc_text: Vec<char> = Vec::new();
            esc_text.push('\\');
            proof {
                assert(esc_text@ =~= seq!['\\']);
            }
            return Err((LexError::MalformedEscapeSequence(chars_to_string(&esc_text)), *pos));
        } else if next_char == '\n' {
            pos.rewind();
            return Err((LexError::UnterminatedString, *pos));
        } else {
            result.push(next_char);
        }
    }
}

/// Scan a block comment until its nesting closes or input runs out,
/// appending its text onto `comment` when comments are surfaced.
fn scan_comment<S: InputStream>(
    stream: &mut S,
    state: &mut TokenizeState,
    pos: &mut Position,
    comment: &mut String,
)
    requires
        old(stream).wf(),
        old(pos).line != 0,
        old(state).comment_level >= 1,
    ensures
        final(stream).wf(),
        final(pos).line != 0,
        ({
            let scan = spec_scan_comment(
                old(stream).remaining(),
                old(state).comment_level,
                old(state).include_comments,
                *old(pos),
                old(comment)@,
            );
            &&& final(stream).remaining() == scan.rem
            &&& *final(pos) == scan.pos
            &&& final(comment)@ == scan.text
            &&& *final(state) == (TokenizeState { comment_level: scan.level, ..*old(state) })
        }),
{
    let ghost target = spec_scan_comment(
        old(stream).remaining(),
        old(state).comment_level,
        old(state).include_comments,
        *old(pos),
        old(comment)@,
    );
    let emit = state.include_comments;
    loop
        invariant
            stream.wf(),
            pos.line != 0,
            state.comment_level >= 1,
            emit == state.include_comments,
            *state == (TokenizeState { comment_level: state.comment_level, ..*old(state) }),
            target == spec_scan_comment(
                old(stream).remaining(),
                old(state).comment_level,
                old(state).include_comments,
                *old(pos),
                old(comment)@,
            ),
            target == spec_scan_comment(
                stream.remaining(),
                state.comment_level,
                emit,
                *pos,
                comment@,
            ),
        decreases stream.remaining().len(),
    {
        let ghost rem_a = stream.remaining();
        let ghost pos_a = *pos;
        let ghost lvl_a = state.comment_level;
        let ghost acc_a = comment@;
        let c = match stream.get_next() {
            Some(c) => c,
            None => {
                return ;
            },
        };
        pos.advance();
        if emit {
            comment.push(c);
        }
        let mut second_newline = false;
        if c == '/' {
            match stream.get_next() {
                Some(c2) => {
                    if emit {
                        comment.push(c2);
                    }
                    if c2 == '*' && state.comment_level < usize::MAX {
                        state.comment_level = state.comment_level + 1;
                    }
                    if c2 == '\n' {
                        second_newline = true;
                    }
                },
                None => {},
            }
            pos.advance();
            if second_newline {
                pos.new_line();
            }
        } else if c == '*' {
            match stream.get_next() {
                Some(c2) => {
                    if emit {
                        comment.push(c2);
                    }
                    if c2 == '/' {
                        state.comment_level = state.comment_level - 1;
                    }
                    if c2 == '\n' {
                        second_newline = true;
                    }
                },
                None => {},
            }
            pos.advance();
            if second_newline {
                pos.new_line();
            }
        } else if c == '\n' {
            pos.new_line();
        }
        proof {
            assert(rem_a.drop_first() =~= rem_a.skip(1));
            assert(rem_a[0] == c);
            if rem_a.len() >= 2 {
                assert(rem_a.drop_first()[0] == rem_a[1]);
                assert(rem_a.drop_first().drop_first() =~= rem_a.skip(2));
            }
            assert(target == spec_scan_comment(rem_a, lvl_a, emit, pos_a, acc_a));
        }
        if state.comment_level == 0 {
            return ;
        }
        proof {
            assert(target == spec_scan_comment(
                stream.remaining(),
                state.comment_level,
                emit,
                *pos,
                comment@,
            ));
        }
    }
}

/// Scan the continuation of a numeric literal whose first (already
/// consumed) character is `first`: the literal text and the radix its
/// last radix marker selected, if any.
fn scan_number<S: InputStream>(stream: &mut S, pos: &mut Position, first: char) -> (r: (
    Vec<char>,
    Option<u32>,
))
    requires
        old(stream).wf(),
        old(pos).line != 0,
    ensures
        final(stream).wf(),
        final(pos).line != 0,
        final(stream).remaining().len() <= old(stream).remaining().len(),
        ({
            let scan = spec_scan_number(old(stream).remaining(), first, *old(pos));
            &&& r.0@ == scan.chars
            &&& r.1 == scan.radix
            &&& final(stream).remaining() == scan.rem
            &&& *final(pos) == scan.pos
        }),
{
    let ghost target = spec_scan_number(old(stream).remaining(), first, *old(pos));
    let zero_first = first == '0';
    let mut result: Vec<char> = Vec::new();
    result.push(first);
    let mut radix: Option<u32> = None;
    proof {
        assert(result@ =~= seq![first]);
    }
    loop
        invariant
            stream.wf(),
            pos.line != 0,
            stream.remaining().len() <= old(stream).remaining().len(),
            target == spec_scan_number(old(stream).remaining(), first, *old(pos)),
            target == spec_scan_number_at(
                stream.remaining(),
                zero_first,
                result@,
                radix,
                None,
                *pos,
            ),
        decreases stream.remaining().len(),
    {
        let ghost rem_a = stream.remaining();
        let next_char = match stream.peek_next() {
            Some(c) => c,
            None => {
                return (result, radix);
            },
        };
        if ('0' <= next_char && next_char <= '9') || next_char == '_' {
            result.push(next_char);
            eat_next(stream, pos);
        } else if zero_first && (next_char == 'x' || next_char == 'X' || next_char == 'o'
            || next_char == 'O' || next_char == 'b' || next_char == 'B') {
            let run_radix: u32 = if next_char == 'x' || next_char == 'X' {
                16
            } else if next_char == 'o' || next_char == 'O' {
                8
            } else {
                2
            };
            radix = Some(run_radix);
            result.push(next_char);
            eat_next(stream, pos);
            let ghost rem_b = stream.remaining();
            loop
                invariant
                    stream.wf(),
                    pos.line != 0,
                    stream.remaining().len() <= rem_b.len(),
                    rem_b.len() <= old(stream).remaining().len(),
                    radix == Some(run_radix),
                    target == spec_scan_number(old(stream).remaining(), first, *old(pos)),
                    target == spec_scan_number_at(
                        stream.remaining(),
                        zero_first,
                        result@,
                        radix,
                        Some(run_radix),
                        *pos,
                    ),
                ensures
                    stream.wf(),
                    pos.line != 0,
                    stream.remaining().len() <= rem_b.len(),
                    rem_b.len() <= old(stream).remaining().len(),
                    radix == Some(run_radix),
                    target == spec_scan_number(old(stream).remaining(), first, *old(pos)),
                    target == spec_scan_number_at(
                        stream.remaining(),
                        zero_first,
                        result@,
                        radix,
                        None,
                        *pos,
                    ),
                decreases stream.remaining().len(),
            {
                let c2 = match stream.peek_next() {
                    Some(c) => c,
                    None => {
                        break ;
                    },
                };
                if !is_radix_digit(c2, run_radix) {
                    break ;
                }
                result.push(c2);
                eat_next(stream, pos);
            }
        } else {
            return (result, radix);
        }
    }
}

/// Scan the continuation of an identifier whose first (already consumed)
/// character is `first`: the full run of letters, digits and underscores.
fn scan_identifier<S: InputStream>(stream: &mut S, pos: &mut Position, first: char) -> (r: Vec<
    char,
>)
    requires
        old(stream).wf(),
        old(pos).line != 0,
    ensures
        final(stream).wf(),
        final(pos).line != 0,
        ({
            let k = spec_ident_run(old(stream).remaining());
            &&& r@ == seq![first] + old(stream).remaining().take(k as int)
            &&& final(stream).remaining() == old(stream).remaining().skip(k as int)
            &&& *final(pos) == advance_n(*old(pos), k)
        }),
{
    let ghost rem0 = old(stream).remaining();
    let ghost pos0 = *old(pos);
    let mut result: Vec<char> = Vec::new();
    result.push(first);
    let ghost mut j: nat = 0;
    proof {
        assert(result@ =~= seq![first] + rem0.take(0));
        assert(rem0.skip(0) =~= rem0);
    }
    loop
        invariant
            stream.wf(),
            pos.line != 0,
            j <= rem0.len(),
            rem0 == old(stream).remaining(),
            pos0 == *old(pos),
            stream.remaining() == rem0.skip(j as int),
            result@ == seq![first] + rem0.take(j as int),
            *pos == advance_n(pos0, j),
            forall|i: int|
                0 <= i < j ==> (('a' <= rem0[i] && rem0[i] <= 'z') || ('A' <= rem0[i] && rem0[i]
                    <= 'Z') || ('0' <= rem0[i] && rem0[i] <= '9') || rem0[i] == '_'),
        decreases rem0.len() - j,
    {
        let next_char = match stream.peek_next() {
            Some(c) => c,
            None => {
                proof {
                    lemma_ident_run_exact(rem0, j);
                }
                return result;
            },
        };
        proof {
            assert(rem0.skip(j as int)[0] == rem0[j as int]);
        }
        if is_ascii_alphanumeric(next_char) || next_char == '_' {
            result.push(next_char);
            eat_next(stream, pos);
            proof {
                assert(rem0.skip(j as int).drop_first() =~= rem0.skip(j as int + 1));
                assert(rem0.take(j as int).push(rem0[j as int]) =~= rem0.take(j as int + 1));
                j = j + 1;
            }
        } else {
            proof {
                lemma_ident_run_exact(rem0, j);
            }
            return result;
        }
    }
}

/// Scan the rest of a line comment: the characters before the end of the
/// line, consuming the newline too when one is found.
fn scan_line_comment<S: InputStream>(stream: &mut S, pos: &mut Position) -> (r: Vec<char>)
    requires
        old(stream).wf(),
        old(pos).line != 0,
    ensures
        final(stream).wf(),
        final(pos).line != 0,
        ({
            let k = spec_line_run(old(stream).remaining());
            let newline = k < old(stream).remaining().len();
            &&& r@ == old(stream).remaining().take(k as int)
            &&& final(stream).remaining() == old(stream).remaining().skip(
                k as int + (if newline { 1int } else { 0int }),
            )
            &&& *final(pos) == (if newline {
                crate::position::spec_new_line(advance_n(*old(pos), k))
            } else {
                advance_n(*old(pos), k)
            })
        }),
{
    let ghost rem0 = old(stream).remaining();
    let ghost pos0 = *old(pos);
    let mut result: Vec<char> = Vec::new();
    let ghost mut j: nat = 0;
    proof {
        assert(result@ =~= rem0.take(0));
        assert(rem0.skip(0) =~= rem0);
    }
    loop
        invariant
            stream.wf(),
            pos.line != 0,
            j <= rem0.len(),
            rem0 == old(stream).remaining(),
            pos0 == *old(pos),
            stream.remaining() == rem0.skip(j as int),
            result@ == rem0.take(j as int),
            *pos == advance_n(pos0, j),
            forall|i: int| 0 <= i < j ==> rem0[i] != '\n',
        decreases rem0.len() - j,
    {
        let c = match stream.get_next() {
            Some(c) => c,
            None => {
                proof {
                    lemma_line_run_exact(rem0, j);
                }
                return result;
            },
        };
        proof {
            assert(rem0.skip(j as int)[0] == rem0[j as int]);
            assert(rem0.skip(j as int).drop_first() =~= rem0.skip(j as int + 1));
        }
        if c == '\n' {
            pos.new_line();
            proof {
                lemma_line_run_exact(rem0, j);
            }
            return result;
        }
        result.push(c);
        pos.advance();
        proof {
            assert(rem0.take(j as int).push(rem0[j as int]) =~= rem0.take(j as int + 1));
            j = j + 1;
        }
    }
}

/// Turn a completed numeric literal scan into its token: the parsed value,
/// or a malformed-number error carrying the literal text.
fn make_number_token(digits: Vec<char>, radix: Option<u32>, negated: bool) -> (t: Token)
    requires
        radix is Some ==> digits@.len() >= 2 && (radix->0 == 2 || radix->0 == 8 || radix->0
            == 16),
    ensures
        t@ == spec_number_token(digits@, radix, negated),
{
    let ghost digits0 = digits@;
    let mut full = digits;
    if negated {
        full.insert(0, '-');
        proof {
            assert(full@ =~= seq!['-'] + digits0);
        }
    }
    let parsed: Option<i64> = match radix {
        Some(r) => {
            proof {
                assert(full@.skip(2) =~= full@.skip(2));
            }
            parse_int_radix(&full, 2, r)
        },
        None => parse_int_decimal(&full),
    };
    match parsed {
        Some(v) => Token::IntegerConstant(v),
        None => Token::LexError(LexError::MalformedNumber(chars_to_string(&full))),
    }
}

/// Get the next token from the `InputStream`, exactly as the model says,
/// and record in the state whether the token after it may be unary.
pub fn get_next_token<S: InputStream>(
    stream: &mut S,
    state: &mut TokenizeState,
    pos: &mut Position,
) -> (r: Option<(Token, Position)>)
    requires
        old(stream).wf(),
        old(pos).line != 0,
    ensures
        final(stream).wf(),
        final(pos).line != 0,
        ({
            let step = spec_next(old(stream).remaining(), *old(state), *old(pos));
            &&& final(stream).remaining() == step.rem
            &&& *final(pos) == step.pos
            &&& match (r, step.item) {
                (Some((t, p)), Some((tm, pm))) => t@ == tm && p == pm && *final(state)
                    == (TokenizeState {
                    non_unary: !crate::token::spec_is_next_unary(tm),
                    ..step.st
                }),
                (None, None) => *final(state) == step.st,
                _ => false,
            }
        }),
{
    let result = get_next_token_inner(stream, state, pos);

    // Save the last token's state.
    if let Some((token, _)) = &result {
        state.non_unary = !token.is_next_unary();
    }

    result
}

/// Get the next token: finish an open block comment first, then skip
/// whitespace and discarded comments, then classify one token from the
/// current character and one character of lookahead.
#[verifier::rlimit(100)]
#[verifier::spinoff_prover]
fn get_next_token_inner<S: InputStream>(
    stream: &mut S,
    state: &mut TokenizeState,
    pos: &mut Position,
) -> (r: Option<(Token, Position)>)
    requires
        old(stream).wf(),
        old(pos).line != 0,
    ensures
        final(stream).wf(),
        final(pos).line != 0,
        ({
            let step = spec_next(old(stream).remaining(), *old(state), *old(pos));
            &&& final(stream).remaining() == step.rem
            &&& *final(pos) == step.pos
            &&& *final(state) == step.st
            &&& match (r, step.item) {
                (Some((t, p)), Some((tm, pm))) => t@ == tm && p == pm,
                (None, None) => true,
                _ => false,
            }
        }),
{
    let ghost step = spec_next(old(stream).remaining(), *old(state), *old(pos));

    // Still inside a comment?
    if state.comment_level > 0 {
        let start_pos = *pos;
        let mut comment = String::new();
        scan_comment(stream, state, pos, &mut comment);

        if state.include_comments {
            return Some((Token::Comment(comment), start_pos));
        }
    }
    proof {
        assert(step == spec_scan(stream.remaining(), *state, *pos));
    }

    loop
        invariant
            stream.wf(),
            pos.line != 0,
            step == spec_next(old(stream).remaining(), *old(state), *old(pos)),
            step == spec_scan(stream.remaining(), *state, *pos),
        decreases stream.remaining().len(),
    {
        let ghost rem_a = stream.remaining();
        let ghost pos_a = *pos;
        let ghost st_a = *state;
        let c = match stream.get_next() {
            Some(c) => c,
            None => {
                pos.advance();
                if state.end_with_none {
                    return None;
                } else {
                    return Some((Token::EOF, *pos));
                }
            },
        };
        pos.advance();
        let peek = match stream.peek_next() {
            Some(p) => p,
            None => '\0',
        };
        let start_pos = *pos;
        proof {
            assert(rem_a[0] == c);
            assert(rem_a.drop_first() =~= rem_a.skip(1));
            if rem_a.len() >= 2 {
                assert(rem_a.drop_first()[0] == rem_a[1]);
                assert(rem_a.drop_first().drop_first() =~= rem_a.skip(2));
            }
            assert(step == spec_scan(rem_a, st_a, pos_a));
        }

        if c == '\n' {
            pos.new_line();
        } else if '0' <= c && c <= '9' {
            let (digits, radix) = scan_number(stream, pos, c);
            proof {
                crate::model::lemma_number_scan_shape(
                    rem_a.drop_first(),
                    c == '0',
                    seq![c],
                    None,
                    None,
                    crate::position::spec_advance(pos_a),
                );
            }
            let token = make_number_token(digits, radix, false);
            return Some((token, start_pos));
        } else if is_ascii_alphabetic(c) || c == '_' {
            let chars = scan_identifier(stream, pos, c);
            proof {
                crate::model::lemma_ident_run_le(rem_a.drop_first());
                let k = spec_ident_run(rem_a.drop_first());
                assert(rem_a.drop_first().skip(k as int) =~= rem_a.skip(1 + k as int));
            }
            let token = make_identifier_token(chars);
            return Some((token, start_pos));
        } else if c == '"' {
            return match parse_string_literal(stream, state, pos, '"') {
                Ok(out) => Some((Token::StringConstant(out), start_pos)),
                Err((err, err_pos)) => Some((Token::LexError(err), err_pos)),
            };
        } else if c == '\'' && peek == '\'' {
            return Some((Token::LexError(LexError::MalformedChar(String::new())), start_pos));
        } else if c == '\'' {
            return match parse_string_literal(stream, state, pos, '\'') {
                Ok(out) => {
                    let n = out.as_str().unicode_len();
                    if n == 1 {
                        Some((Token::CharConstant(out.as_str().get_char(0)), start_pos))
                    } else {
                        Some((Token::LexError(LexError::MalformedChar(out)), start_pos))
                    }
                },
                Err((err, err_pos)) => Some((Token::LexError(err), err_pos)),
            };
        } else if c == '/' && peek == '/' {
            eat_next(stream, pos);
            let run = scan_line_comment(stream, pos);
            proof {
                crate::model::lemma_line_run_le(rem_a.skip(2));
                let k = spec_line_run(rem_a.skip(2));
                let consumed: int = k as int + (if (k as int) < rem_a.skip(2).len() {
                    1int
                } else {
                    0int
                });
                assert(rem_a.skip(2).skip(consumed) =~= rem_a.skip(2 + consumed));
                crate::model::lemma_advance_n_shift(
                    crate::position::spec_advance(pos_a),
                    k,
                );
            }
            if state.include_comments {
                let ghost run_view = run@;
                let mut text_chars: Vec<char> = Vec::new();
                text_chars.push('/');
                text_chars.push('/');
                let mut run = run;
                text_chars.append(&mut run);
                proof {
                    reveal_strlit("//");
                    assert(text_chars@ =~= "//"@ + run_view);
                }
                let text = chars_to_string(&text_chars);
                return Some((Token::Comment(text), start_pos));
            }
        } else if c == '/' && peek == '*' {
            state.comment_level = 1;
            eat_next(stream, pos);
            let mut comment = if state.include_comments {
                String::from_str("/*")
            } else {
                String::new()
            };
            scan_comment(stream, state, pos, &mut comment);
            proof {
                crate::model::lemma_comment_rem_le(
                    rem_a.skip(2),
                    1,
                    st_a.include_comments,
                    crate::position::spec_advance(crate::position::spec_advance(pos_a)),
                    if st_a.include_comments {
                        "/*"@
                    } else {
                        Seq::empty()
                    },
                );
            }
            if state.include_comments {
                return Some((Token::Comment(comment), start_pos));
            }
        } else if c == '-' && ('0' <= peek && peek <= '9') && !state.non_unary {
            // A minus sign in unary position folds into the literal.
            let digit = match eat_next(stream, pos) {
                Some(d) => d,
                None => {
                    // The lookahead saw a digit, so the stream cannot be
                    // exhausted here.
                    proof {
                        assert(false);
                    }
                    '0'
                },
            };
            let start_pos2 = *pos;
            let (digits, radix) = scan_number(stream, pos, digit);
            proof {
                crate::model::lemma_number_scan_shape(
                    rem_a.skip(2),
                    digit == '0',
                    seq![digit],
                    None,
                    None,
                    crate::position::spec_advance(crate::position::spec_advance(pos_a)),
                );
            }
            let token = make_number_token(digits, radix, true);
            return Some((token, start_pos2));
        } else if c.is_whitespace() {
        } else {
            let item = scan_symbol(stream, state, pos, c, peek, Ghost(rem_a), Ghost(pos_a));
            return Some(item);
        }
    }
}

/// Classify an operator, bracket, reserved sequence or unexpected
/// character from the current character and one of lookahead, longest
/// match first.
#[verifier::rlimit(100)]
#[verifier::spinoff_prover]
fn scan_symbol<S: InputStream>(
    stream: &mut S,
    state: &TokenizeState,
    pos: &mut Position,
    c: char,
    peek: char,
    rem_before: Ghost<Seq<char>>,
    pos_before: Ghost<Position>,
) -> (r: (Token, Position))
    requires
        old(stream).wf(),
        old(pos).line != 0,
        rem_before@.len() > 0,
        rem_before@[0] == c,
        old(stream).remaining() == rem_before@.drop_first(),
        *old(pos) == crate::position::spec_advance(pos_before@),
        peek == (if rem_before@.len() > 1 {
            rem_before@[1]
        } else {
            '\0'
        }),
        c != '\n' && !('0' <= c && c <= '9') && !(('a' <= c && c <= 'z') || ('A' <= c && c
            <= 'Z')) && c != '_' && c != '"' && c != '\'',
        !(c == '/' && (peek == '/' || peek == '*')),
        !(c == '-' && ('0' <= peek && peek <= '9') && !state.non_unary),
        !crate::chars::spec_is_whitespace(c),
    ensures
        final(stream).wf(),
        final(pos).line != 0,
        ({
            let s = spec_scan(rem_before@, *state, pos_before@);
            &&& s.item == Some((r.0@, r.1))
            &&& s.rem == final(stream).remaining()
            &&& s.pos == *final(pos)
            &&& s.st == *state
            &&& final(stream).remaining().len() < rem_before@.len()
        }),
{
    let ghost rem_a = rem_before@;
    let start_pos = *pos;
    proof {
        assert(rem_a.drop_first() =~= rem_a.skip(1));
        if rem_a.len() >= 2 {
            assert(rem_a.drop_first()[0] == rem_a[1]);
            assert(rem_a.drop_first().drop_first() =~= rem_a.skip(2));
        }
        if rem_a.len() >= 3 {
            assert(rem_a.drop_first().drop_first()[0] == rem_a[2]);
            assert(rem_a.drop_first().drop_first().drop_first() =~= rem_a.skip(3));
        }
    }
    if c == '{' {
        (Token::LeftBrace, start_pos)
    } else if c == '}' {
        (Token::RightBrace, start_pos)
    } else if c == '(' && peek == '*' {
        eat_next(stream, pos);
        (Token::Reserved(String::from_str("(*")), start_pos)
    } else if c == '(' {
        (Token::LeftParen, start_pos)
    } else if c == ')' {
        (Token::RightParen, start_pos)
    } else if c == '[' {
        (Token::LeftBracket, start_pos)
    } else if c == ']' {
        (Token::RightBracket, start_pos)
    } else if c == '#' && peek == '{' {
        eat_next(stream, pos);
        (Token::MapStart, start_pos)
    } else if c == '#' {
        (Token::Reserved(String::from_str("#")), start_pos)
    } else if c == '+' && peek == '=' {
        eat_next(stream, pos);
        (Token::PlusAssign, start_pos)
    } else if c == '+' && !state.non_unary {
        (Token::UnaryPlus, start_pos)
    } else if c == '+' {
        (Token::Plus, start_pos)
    } else if c == '-' && ('0' <= peek && peek <= '9') {
        (Token::Minus, start_pos)
    } else if c == '-' && peek == '=' {
        eat_next(stream, pos);
        (Token::MinusAssign, start_pos)
    } else if c == '-' && peek == '>' {
        eat_next(stream, pos);
        (Token::Reserved(String::from_str("->")), start_pos)
    } else if c == '-' && !state.non_unary {
        (Token::UnaryMinus, start_pos)
    } else if c == '-' {
        (Token::Minus, start_pos)
    } else if c == '*' && peek == ')' {
        eat_next(stream, pos);
        (Token::Reserved(String::from_str("*)")), start_pos)
    } else if c == '*' && peek == '=' {
        eat_next(stream, pos);
        (Token::MultiplyAssign, start_pos)
    } else if c == '*' {
        (Token::Multiply, start_pos)
    } else if c == '/' && peek == '=' {
        eat_next(stream, pos);
        (Token::DivideAssign, start_pos)
    } else if c == '/' {
        (Token::Divide, start_pos)
    } else if c == ';' {
        (Token::SemiColon, start_pos)
    } else if c == ',' {
        (Token::Comma, start_pos)
    } else if c == '.' {
        (Token::Period, start_pos)
    } else if c == '=' && peek == '=' {
        eat_next(stream, pos);
        let third = match stream.peek_next() {
            Some(p) => p == '=',
            None => false,
        };
        if third {
            eat_next(stream, pos);
            (Token::Reserved(String::from_str("===")), start_pos)
        } else {
            (Token::EqualsTo, start_pos)
        }
    } else if c == '=' && peek == '>' {
        eat_next(stream, pos);
        (Token::Reserved(String::from_str("=>")), start_pos)
    } else if c == '=' {
        (Token::Equals, start_pos)
    } else if c == ':' && peek == ':' {
        eat_next(stream, pos);
        let third = match stream.peek_next() {
            Some(p) => p == '<',
            None => false,
        };
        if third {
            eat_next(stream, pos);
            (Token::Reserved(String::from_str("::<")), start_pos)
        } else {
            (Token::DoubleColon, start_pos)
        }
    } else if c == ':' && peek == '=' {
        eat_next(stream, pos);
        (Token::Reserved(String::from_str(":=")), start_pos)
    } else if c == ':' {
        (Token::Colon, start_pos)
    } else if c == '<' && peek == '=' {
        eat_next(stream, pos);
        (Token::LessThanEqualsTo, start_pos)
    } else if c == '<' && peek == '-' {
        eat_next(stream, pos);
        (Token::Reserved(String::from_str("<-")), start_pos)
    } else if c == '<' && peek == '<' {
        eat_next(stream, pos);
        let third = match stream.peek_next() {
            Some(p) => p == '=',
            None => false,
        };
        if third {
            eat_next(stream, pos);
            (Token::LeftShiftAssign, start_pos)
        } else {
            (Token::LeftShift, start_pos)
        }
    } else if c == '<' {
        (Token::LessThan, start_pos)
    } else if c == '>' && peek == '=' {
        eat_next(stream, pos);
        (Token::GreaterThanEqualsTo, start_pos)
    } else if c == '>' && peek == '>' {
        eat_next(stream, pos);
        let third = match stream.peek_next() {
            Some(p) => p == '=',
            None => false,
        };
        if third {
            eat_next(stream, pos);
            (Token::RightShiftAssign, start_pos)
        } else {
            (Token::RightShift, start_pos)
        }
    } else if c == '>' {
        (Token::GreaterThan, start_pos)
    } else if c == '!' && peek == '=' {
        eat_next(stream, pos);
        let third = match stream.peek_next() {
            Some(p) => p == '=',
            None => false,
        };
        if third {
            eat_next(stream, pos);
            (Token::Reserved(String::from_str("!==")), start_pos)
        } else {
            (Token::NotEqualsTo, start_pos)
        }
    } else if c == '!' {
        (Token::Bang, start_pos)
    } else if c == '|' && peek == '|' {
        eat_next(stream, pos);
        (Token::Or, start_pos)
    } else if c == '|' && peek == '=' {
        eat_next(stream, pos);
        (Token::OrAssign, start_pos)
    } else if c == '|' {
        (Token::Pipe, start_pos)
    } else if c == '&' && peek == '&' {
        eat_next(stream, pos);
        (Token::And, start_pos)
    } else if c == '&' && peek == '=' {
        eat_next(stream, pos);
        (Token::AndAssign, start_pos)
    } else if c == '&' {
        (Token::Ampersand, start_pos)
    } else if c == '^' && peek == '=' {
        eat_next(stream, pos);
        (Token::XOrAssign, start_pos)
    } else if c == '^' {
        (Token::XOr, start_pos)
    } else if c == '%' && peek == '=' {
        eat_next(stream, pos);
        (Token::ModuloAssign, start_pos)
    } else if c == '%' {
        (Token::Modulo, start_pos)
    } else if c == '~' && peek == '=' {
        eat_next(stream, pos);
        (Token::PowerOfAssign, start_pos)
    } else if c == '~' {
        (Token::PowerOf, start_pos)
    } else if c == '@' {
        (Token::Reserved(String::from_str("@")), start_pos)
    } else {
        let mut text = String::new();
        text.push(c);
        proof {
            assert(text@ =~= seq![c]);
        }
        (Token::LexError(LexError::UnexpectedInput(text)), start_pos)
    }
}

/// Turn a scanned identifier run into its token: a malformed-identifier
/// error for an illegal shape, the keyword or reserved tag the text
/// spells, or an identifier.
fn make_identifier_token(chars: Vec<char>) -> (t: Token)
    ensures
        t@ == spec_ident_token(chars@),
{
    if !crate::token::is_valid_identifier_chars(&chars) {
        return Token::LexError(LexError::MalformedIdentifier(chars_to_string(&chars)));
    }
    let identifier = chars_to_string(&chars);
    match Token::lookup_from_syntax(identifier.as_str()) {
        Some(t) => t,
        None => Token::Identifier(identifier),
    }
}

/// Sixteen to the given power (the number of values a run of hex digits
/// can take).
pub open spec fn pow16(n: nat) -> nat
    decreases n,
{
    if n == 0 {
        1
    } else {
        16 * pow16((n - 1) as nat)
    }
}

/// The concrete powers of sixteen a hex escape can need.
proof fn lemma_pow16_bounds()
    ensures
        pow16(0) == 1,
        pow16(1) == 0x10,
        pow16(2) == 0x100,
        pow16(3) == 0x1000,
        pow16(4) == 0x10000,
        pow16(5) == 0x100000,
        pow16(6) == 0x1000000,
        pow16(7) == 0x10000000,
        pow16(8) == 0x100000000,
{
    assert(pow16(0) == 1);
    assert(pow16(1) == 16 * pow16(0));
    assert(pow16(2) == 16 * pow16(1));
    assert(pow16(3) == 16 * pow16(2));
    assert(pow16(4) == 16 * pow16(3));
    assert(pow16(5) == 16 * pow16(4));
    assert(pow16(6) == 16 * pow16(5));
    assert(pow16(7) == 16 * pow16(6));
    assert(pow16(8) == 16 * pow16(7));
}

/// Powers of sixteen grow with the exponent.
proof fn lemma_pow16_mono(a: nat, b: nat)
    requires
        a <= b,
    ensures
        pow16(a) <= pow16(b),
    decreases b,
{
    if a < b {
        lemma_pow16_mono(a, (b - 1) as nat);
        assert(pow16(b) == 16 * pow16((b - 1) as nat));
    }
}

} // verus!
