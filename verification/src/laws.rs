//! The laws the library states of itself, each proved against the
//! tokenizer's model: exact values for numeric literals, the folding of a
//! unary minus, the round trip of escaped string content, the two string
//! length failures and the bound on every accepted string, the balancing
//! of nested block comments, the treatment of confusable reserved
//! sequences, and the two distinct effects of disabling an operator
//! versus a keyword.

use crate::error::LexErrorModel;
use crate::lexer::{spec_is_custom, spec_is_disabled, spec_override};
use crate::model::{
    advance_n, spec_scan, spec_scan_comment, spec_scan_number_at, spec_scan_string,
    spec_scan_string_at, spec_number_token, NumScan, TokenizeState,
};
use crate::numbers::{
    spec_digits_value, spec_is_digit, spec_parse_decimal, spec_parse_digits, spec_radix_digit,
    strip_underscores,
};
use crate::position::{spec_advance, Position};
use crate::token::{
    lemma_spelling_table, spec_is_keyword, spec_is_operator, spec_syntax, TokenModel,
};
use vstd::prelude::*;

verus! {

/// A run of digits with no separators strips to itself.
proof fn lemma_strip_plain(ds: Seq<char>)
    requires
        forall|i: int| 0 <= i < ds.len() ==> ds[i] != '_',
    ensures
        strip_underscores(ds) == ds,
    decreases ds.len(),
{
    if ds.len() == 0 {
        assert(strip_underscores(ds) =~= ds);
    } else {
        lemma_strip_plain(ds.drop_first());
        assert(strip_underscores(ds) =~= seq![ds[0]] + ds.drop_first());
        assert(seq![ds[0]] + ds.drop_first() =~= ds);
    }
}

/// Scanning a run made only of digits valid for the pending radix run
/// consumes it whole.
proof fn lemma_scan_digit_run(
    rem: Seq<char>,
    zero_first: bool,
    acc: Seq<char>,
    radix: Option<u32>,
    run: u32,
    pos: Position,
)
    requires
        forall|i: int| 0 <= i < rem.len() ==> spec_radix_digit(rem[i], run),
    ensures
        spec_scan_number_at(rem, zero_first, acc, radix, Some(run), pos) == (NumScan {
            chars: acc + rem,
            radix,
            rem: Seq::<char>::empty(),
            pos: advance_n(pos, rem.len()),
        }),
    decreases rem.len(),
{
    if rem.len() == 0 {
        assert(acc + rem =~= acc);
        assert(rem =~= Seq::<char>::empty());
    } else {
        lemma_scan_digit_run(
            rem.drop_first(),
            zero_first,
            acc.push(rem[0]),
            radix,
            run,
            spec_advance(pos),
        );
        assert(acc.push(rem[0]) + rem.drop_first() =~= acc + rem);
        crate::model::lemma_advance_n_shift(pos, (rem.len() - 1) as nat);
    }
}

/// Scanning a run made only of decimal digits and separators (outside
/// any radix run) consumes it whole.
proof fn lemma_scan_decimal_run(
    rem: Seq<char>,
    zero_first: bool,
    acc: Seq<char>,
    radix: Option<u32>,
    pos: Position,
)
    requires
        forall|i: int| 0 <= i < rem.len() ==> spec_is_digit(rem[i]) || rem[i] == '_',
    ensures
        spec_scan_number_at(rem, zero_first, acc, radix, None, pos) == (NumScan {
            chars: acc + rem,
            radix,
            rem: Seq::<char>::empty(),
            pos: advance_n(pos, rem.len()),
        }),
    decreases rem.len(),
{
    if rem.len() == 0 {
        assert(acc + rem =~= acc);
        assert(rem =~= Seq::<char>::empty());
    } else {
        lemma_scan_decimal_run(
            rem.drop_first(),
            zero_first,
            acc.push(rem[0]),
            radix,
            spec_advance(pos),
        );
        assert(acc.push(rem[0]) + rem.drop_first() =~= acc + rem);
        crate::model::lemma_advance_n_shift(pos, (rem.len() - 1) as nat);
    }
}

/// Stripping separators from a run of digits and separators leaves only
/// digits, keeps a leading digit, and keeps the first character.
proof fn lemma_strip_digit_run(ds: Seq<char>)
    requires
        forall|i: int| 0 <= i < ds.len() ==> spec_is_digit(ds[i]) || ds[i] == '_',
    ensures
        forall|j: int|
            0 <= j < strip_underscores(ds).len() ==> spec_is_digit(strip_underscores(ds)[j]),
        ds.len() > 0 && ds[0] != '_' ==> strip_underscores(ds).len() > 0,
    decreases ds.len(),
{
    if ds.len() > 0 {
        lemma_strip_digit_run(ds.drop_first());
        if ds[0] != '_' {
            assert(strip_underscores(ds) == seq![ds[0]] + strip_underscores(ds.drop_first()));
        }
    }
}

/// Law: a run of decimal digits and separators standing alone lexes to an
/// integer token of the exact value of its digits when that value is in
/// range, and to a malformed-number error carrying the run's text when it
/// is not.
#[verifier::rlimit(100)]
#[verifier::spinoff_prover]
pub proof fn lemma_decimal_literal_value(ds: Seq<char>, st: TokenizeState, pos: Position)
    requires
        ds.len() > 0,
        spec_is_digit(ds[0]),
        forall|i: int| 0 <= i < ds.len() ==> spec_is_digit(ds[i]) || ds[i] == '_',
        st.comment_level == 0,
    ensures
        spec_digits_value(strip_underscores(ds), 10) <= i64::MAX ==> spec_scan(
            ds,
            st,
            pos,
        ).item == Some(
            (
                TokenModel::IntegerConstant(
                    spec_digits_value(strip_underscores(ds), 10) as i64,
                ),
                spec_advance(pos),
            ),
        ),
        spec_digits_value(strip_underscores(ds), 10) > i64::MAX ==> spec_scan(
            ds,
            st,
            pos,
        ).item == Some(
            (
                TokenModel::LexError(LexErrorModel::MalformedNumber(ds)),
                spec_advance(pos),
            ),
        ),
        spec_scan(ds, st, pos).rem == Seq::<char>::empty(),
{
    let c = ds[0];
    assert(spec_is_digit(c));
    lemma_scan_decimal_run(ds.drop_first(), c == '0', seq![c], None, spec_advance(pos));
    assert(seq![c] + ds.drop_first() =~= ds);
    lemma_strip_digit_run(ds);
    let stripped = strip_underscores(ds);
    if spec_digits_value(stripped, 10) <= i64::MAX {
        assert(spec_parse_digits(stripped, 10, i64::MAX as u64) == Some(
            spec_digits_value(stripped, 10) as u64,
        ));
        assert(spec_parse_decimal(ds) == Some(spec_digits_value(stripped, 10) as i64));
    } else {
        assert(spec_parse_digits(stripped, 10, i64::MAX as u64) is None);
        assert(spec_parse_decimal(ds) is None);
    }
}

/// Law: for every radix-marked literal (`0x`, `0o`, `0b`, upper or lower
/// case) whose digit run is valid for the radix and whose value is in
/// range, the literal lexes to an integer token of the exact value.
#[verifier::rlimit(100)]
#[verifier::spinoff_prover]
pub proof fn lemma_radix_literal_value(
    marker: char,
    radix: u32,
    ds: Seq<char>,
    st: TokenizeState,
    pos: Position,
)
    requires
        (marker == 'x' || marker == 'X') && radix == 16 || (marker == 'o' || marker == 'O')
            && radix == 8 || (marker == 'b' || marker == 'B') && radix == 2,
        ds.len() > 0,
        forall|i: int| 0 <= i < ds.len() ==> spec_radix_digit(ds[i], radix),
        spec_digits_value(ds, radix) <= i64::MAX,
        st.comment_level == 0,
    ensures
        spec_scan(seq!['0', marker] + ds, st, pos).item == Some(
            (
                TokenModel::IntegerConstant(spec_digits_value(ds, radix) as i64),
                spec_advance(pos),
            ),
        ),
        spec_scan(seq!['0', marker] + ds, st, pos).rem == Seq::<char>::empty(),
{
    let input = seq!['0', marker] + ds;
    assert(input[0] == '0');
    assert(input[1] == marker);
    assert(input.drop_first() =~= seq![marker] + ds);
    assert((seq![marker] + ds).drop_first() =~= ds);
    assert((seq![marker] + ds)[0] == marker);
    assert(seq!['0'].push(marker) =~= seq!['0', marker]);
    lemma_scan_digit_run(
        ds,
        true,
        seq!['0', marker],
        Some(radix),
        radix,
        spec_advance(spec_advance(pos)),
    );
    let scan = crate::model::spec_scan_number(input.drop_first(), '0', spec_advance(pos));
    assert(scan.chars =~= seq!['0', marker] + ds);
    assert(scan.chars.skip(2) =~= ds);
    lemma_strip_plain(ds);
    assert(spec_parse_digits(ds, radix, i64::MAX as u64) == Some(
        spec_digits_value(ds, radix) as u64,
    ));
    assert(spec_number_token(scan.chars, scan.radix, false) == TokenModel::IntegerConstant(
        spec_digits_value(ds, radix) as i64,
    ));
}

/// Law: a minus sign in unary position immediately before a digit folds
/// into the literal, producing a single negative-valued integer token.
#[verifier::rlimit(100)]
#[verifier::spinoff_prover]
pub proof fn lemma_unary_minus_folds(ds: Seq<char>, st: TokenizeState, pos: Position)
    requires
        ds.len() > 0,
        forall|i: int| 0 <= i < ds.len() ==> spec_is_digit(ds[i]),
        spec_digits_value(ds, 10) <= 0x8000_0000_0000_0000,
        st.comment_level == 0,
        !st.non_unary,
    ensures
        spec_scan(seq!['-'] + ds, st, pos).item == Some(
            (
                TokenModel::IntegerConstant((-(spec_digits_value(ds, 10) as int)) as i64),
                spec_advance(spec_advance(pos)),
            ),
        ),
        spec_scan(seq!['-'] + ds, st, pos).rem == Seq::<char>::empty(),
{
    let input = seq!['-'] + ds;
    assert(input[0] == '-');
    assert(input[1] == ds[0]);
    assert(input.skip(2) =~= ds.drop_first());
    lemma_scan_decimal_run(
        ds.drop_first(),
        ds[0] == '0',
        seq![ds[0]],
        None,
        spec_advance(spec_advance(pos)),
    );
    assert(seq![ds[0]] + ds.drop_first() =~= ds);
    let full = seq!['-'] + ds;
    assert(full.drop_first() =~= ds);
    lemma_strip_plain(ds);
    assert(spec_parse_digits(ds, 10, 0x8000_0000_0000_0000) == Some(
        spec_digits_value(ds, 10) as u64,
    ));
}

/// Law: the same minus-digit sequence in binary position stays split: the
/// minus is its own token and the digits are left in the stream.
#[verifier::rlimit(100)]
#[verifier::spinoff_prover]
pub proof fn lemma_binary_minus_splits(ds: Seq<char>, st: TokenizeState, pos: Position)
    requires
        ds.len() > 0,
        spec_is_digit(ds[0]),
        st.comment_level == 0,
        st.non_unary,
    ensures
        spec_scan(seq!['-'] + ds, st, pos).item == Some(
            (TokenModel::Minus, spec_advance(pos)),
        ),
        spec_scan(seq!['-'] + ds, st, pos).rem == ds,
{
    let input = seq!['-'] + ds;
    assert(input[0] == '-');
    assert(input[1] == ds[0]);
    assert(input.skip(1) =~= ds);
}

/// Law: the confusable reserved sequences always yield an error token
/// naming the likely confusion, unless that exact spelling is registered
/// as a custom keyword, in which case they yield a custom-keyword token.
pub proof fn lemma_confusable_reserved(
    s: Seq<char>,
    disabled: Option<Set<Seq<char>>>,
    custom: Option<Map<Seq<char>, u8>>,
)
    requires
        s == "==="@ || s == "!=="@ || s == "->"@ || s == "<-"@ || s == "=>"@ || s == ":="@
            || s == "::<"@ || s == "(*"@ || s == "*)"@ || s == "#"@,
    ensures
        spec_is_custom(s, custom) ==> spec_override(TokenModel::Reserved(s), disabled, custom)
            == TokenModel::Custom(s),
        !spec_is_custom(s, custom) ==> spec_override(TokenModel::Reserved(s), disabled, custom)
            matches TokenModel::LexError(LexErrorModel::ImproperSymbol(_)),
        !spec_is_custom(s, custom) && s == "==="@ ==> spec_override(
            TokenModel::Reserved(s),
            disabled,
            custom,
        ) == TokenModel::LexError(LexErrorModel::ImproperSymbol(
            "'===' is not a valid operator. This is not JavaScript! Should it be '=='?"@,
        )),
        !spec_is_custom(s, custom) && s == "->"@ ==> spec_override(
            TokenModel::Reserved(s),
            disabled,
            custom,
        ) == TokenModel::LexError(LexErrorModel::ImproperSymbol(
            "'->' is not a valid symbol. This is not C or C++!"@,
        )),
        !spec_is_custom(s, custom) && s == "=>"@ ==> spec_override(
            TokenModel::Reserved(s),
            disabled,
            custom,
        ) == TokenModel::LexError(LexErrorModel::ImproperSymbol(
            "'=>' is not a valid symbol. This is not Rust! Should it be '>='?"@,
        )),
        !spec_is_custom(s, custom) && s == ":="@ ==> spec_override(
            TokenModel::Reserved(s),
            disabled,
            custom,
        ) == TokenModel::LexError(LexErrorModel::ImproperSymbol(
            "':=' is not a valid assignment operator. This is not Go! Should it be simply '='?"@,
        )),
        !spec_is_custom(s, custom) && s == "!=="@ ==> spec_override(
            TokenModel::Reserved(s),
            disabled,
            custom,
        ) == TokenModel::LexError(LexErrorModel::ImproperSymbol(
            "'!==' is not a valid operator. This is not JavaScript! Should it be '!='?"@,
        )),
        !spec_is_custom(s, custom) && s == "<-"@ ==> spec_override(
            TokenModel::Reserved(s),
            disabled,
            custom,
        ) == TokenModel::LexError(LexErrorModel::ImproperSymbol(
            "'<-' is not a valid symbol. This is not Go! Should it be '<='?"@,
        )),
        !spec_is_custom(s, custom) && s == "::<"@ ==> spec_override(
            TokenModel::Reserved(s),
            disabled,
            custom,
        ) == TokenModel::LexError(LexErrorModel::ImproperSymbol(
            "'::<>' is not a valid symbol. This is not Rust! Should it be '::'?"@,
        )),
        !spec_is_custom(s, custom) && (s == "(*"@ || s == "*)"@) ==> spec_override(
            TokenModel::Reserved(s),
            disabled,
            custom,
        ) == TokenModel::LexError(LexErrorModel::ImproperSymbol(
            "'(* .. *)' is not a valid comment format. This is not Pascal! Should it be '/* .. */'?"@,
        )),
        !spec_is_custom(s, custom) && s == "#"@ ==> spec_override(
            TokenModel::Reserved(s),
            disabled,
            custom,
        ) == TokenModel::LexError(LexErrorModel::ImproperSymbol(
            "'#' is not a valid symbol. Should it be '#{'?"@,
        )),
{
    lemma_spelling_table();
}

/// Law: disabling a built-in operator's spelling makes a later occurrence
/// a hard unexpected-input error.
pub proof fn lemma_disabled_operator_errors(
    t: TokenModel,
    disabled: Option<Set<Seq<char>>>,
    custom: Option<Map<Seq<char>, u8>>,
)
    requires
        spec_is_operator(t),
        disabled is Some,
        spec_is_disabled(spec_syntax(t), disabled),
    ensures
        spec_override(t, disabled, custom) == TokenModel::LexError(
            LexErrorModel::UnexpectedInput(spec_syntax(t)),
        ),
{
}

/// Law: disabling a keyword's spelling demotes a later occurrence to a
/// soft reserved-symbol token instead of erroring, as long as the spelling
/// is not simultaneously a custom keyword.
pub proof fn lemma_disabled_keyword_demotes(
    t: TokenModel,
    disabled: Option<Set<Seq<char>>>,
    custom: Option<Map<Seq<char>, u8>>,
)
    requires
        spec_is_keyword(t),
        disabled is Some,
        spec_is_disabled(spec_syntax(t), disabled),
        !spec_is_custom(spec_syntax(t), custom),
    ensures
        spec_override(t, disabled, custom) == TokenModel::Reserved(spec_syntax(t)),
{
}


/// Two single advances are an advance by two.
proof fn lemma_advance_two(p: Position)
    ensures
        advance_n(p, 2) == spec_advance(spec_advance(p)),
{
    assert(advance_n(p, 0) == p);
    assert(advance_n(p, 1) == spec_advance(advance_n(p, 0)));
    assert(advance_n(p, 2) == spec_advance(advance_n(p, 1)));
}

/// Advancing `m` times and then `n` times is advancing `m + n` times.
proof fn lemma_advance_n_add(p: Position, m: nat, n: nat)
    ensures
        advance_n(advance_n(p, m), n) == advance_n(p, m + n),
    decreases n,
{
    if n > 0 {
        lemma_advance_n_add(p, m, (n - 1) as nat);
    }
}

/// Is the character plain inside a string literal body: not the closing
/// delimiter, not a backslash, and not a newline?
pub open spec fn spec_plain_in_string(c: char, delim: char) -> bool {
    c != delim && c != '\\' && c != '\n'
}

/// Scanning an exhausted-before-the-delimiter literal made of plain
/// characters fails as unterminated, at the position after the last
/// character.
proof fn lemma_unterminated_at(
    rem: Seq<char>,
    delim: char,
    pos: Position,
    acc: Seq<char>,
)
    requires
        forall|i: int| 0 <= i < rem.len() ==> spec_plain_in_string(rem[i], delim),
    ensures
        spec_scan_string_at(rem, 0, delim, pos, false, acc).result == Err::<
            Seq<char>,
            (LexErrorModel, Position),
        >((LexErrorModel::UnterminatedString, advance_n(pos, rem.len()))),
        spec_scan_string_at(rem, 0, delim, pos, false, acc).rem == Seq::<char>::empty(),
    decreases rem.len(),
{
    if rem.len() == 0 {
        assert(rem =~= Seq::<char>::empty());
    } else {
        lemma_unterminated_at(
            rem.drop_first(),
            delim,
            spec_advance(pos),
            acc.push(rem[0]),
        );
        crate::model::lemma_advance_n_shift(pos, (rem.len() - 1) as nat);
    }
}

/// Law: a string with no closing delimiter before input ends (and no
/// escapes or raw newlines, which fail on their own) fails with the
/// unterminated-string error, with no length limit configured.
pub proof fn lemma_unterminated_string(rem: Seq<char>, delim: char, pos: Position)
    requires
        forall|i: int| 0 <= i < rem.len() ==> spec_plain_in_string(rem[i], delim),
    ensures
        spec_scan_string(rem, 0, delim, pos).result == Err::<
            Seq<char>,
            (LexErrorModel, Position),
        >((LexErrorModel::UnterminatedString, advance_n(pos, rem.len()))),
{
    lemma_unterminated_at(rem, delim, pos, Seq::empty());
}

/// Scanning plain characters past a configured maximum fails as too long,
/// as soon as the running length exceeds the limit.
proof fn lemma_too_long_at(
    rem: Seq<char>,
    delim: char,
    max: usize,
    pos: Position,
    acc: Seq<char>,
)
    requires
        max > 0,
        acc.len() <= max + 1,
        rem.len() >= max + 2 - acc.len(),
        forall|i: int| 0 <= i < max + 1 - acc.len() ==> spec_plain_in_string(rem[i], delim),
    ensures
        spec_scan_string_at(rem, max, delim, pos, false, acc).result == Err::<
            Seq<char>,
            (LexErrorModel, Position),
        >((
            LexErrorModel::StringTooLong(max),
            advance_n(pos, (max + 2 - acc.len()) as nat),
        )),
    decreases rem.len(),
{
    if acc.len() > max {
        assert(advance_n(pos, 1) == spec_advance(advance_n(pos, 0)));
    } else {
        lemma_too_long_at(
            rem.drop_first(),
            delim,
            max,
            spec_advance(pos),
            acc.push(rem[0]),
        );
        crate::model::lemma_advance_n_shift(pos, (max + 1 - acc.len()) as nat);
    }
}

/// Law: a string of plain characters running past a configured maximum
/// length fails with the too-long error carrying the limit, as soon as
/// the running length exceeds it.
pub proof fn lemma_string_too_long(rem: Seq<char>, delim: char, max: usize, pos: Position)
    requires
        max > 0,
        rem.len() >= max + 2,
        forall|i: int| 0 <= i < max + 1 ==> spec_plain_in_string(rem[i], delim),
    ensures
        spec_scan_string(rem, max, delim, pos).result == Err::<
            Seq<char>,
            (LexErrorModel, Position),
        >((LexErrorModel::StringTooLong(max), advance_n(pos, (max + 2) as nat))),
{
    lemma_too_long_at(rem, delim, max, pos, Seq::empty());
}

/// The escaped source form of string content: backslash, tab, newline,
/// carriage return and the delimiter take a backslash escape, and every
/// other character stands for itself.
pub open spec fn spec_escape(content: Seq<char>, delim: char) -> Seq<char>
    decreases content.len(),
{
    if content.len() == 0 {
        Seq::empty()
    } else {
        let c = content[0];
        let head: Seq<char> = if c == '\\' {
            seq!['\\', '\\']
        } else if c == '\t' {
            seq!['\\', 't']
        } else if c == '\n' {
            seq!['\\', 'n']
        } else if c == '\r' {
            seq!['\\', 'r']
        } else if c == delim {
            seq!['\\', c]
        } else {
            seq![c]
        };
        head + spec_escape(content.drop_first(), delim)
    }
}

/// Scanning the escaped form of any content, followed by the closing
/// delimiter, decodes back to exactly that content.
proof fn lemma_round_trip_at(
    content: Seq<char>,
    delim: char,
    pos: Position,
    acc: Seq<char>,
)
    requires
        delim == '"' || delim == '\'',
    ensures
        ({
            let scan = spec_scan_string_at(
                spec_escape(content, delim) + seq![delim],
                0,
                delim,
                pos,
                false,
                acc,
            );
            &&& scan.result == Ok::<Seq<char>, (LexErrorModel, Position)>(acc + content)
            &&& scan.rem == Seq::<char>::empty()
        }),
    decreases content.len(),
{
    let input = spec_escape(content, delim) + seq![delim];
    if content.len() == 0 {
        assert(input =~= seq![delim]);
        assert(input[0] == delim);
        assert(input.drop_first() =~= Seq::<char>::empty());
        assert(acc + content =~= acc);
    } else {
        let c = content[0];
        let tail = spec_escape(content.drop_first(), delim) + seq![delim];
        if c == '\\' || c == '\t' || c == '\n' || c == '\r' || c == delim {
            let e: char = if c == '\\' {
                '\\'
            } else if c == '\t' {
                't'
            } else if c == '\n' {
                'n'
            } else if c == '\r' {
                'r'
            } else {
                delim
            };
            assert(input =~= seq!['\\', e] + tail);
            assert(input[0] == '\\');
            assert(input.drop_first() =~= seq![e] + tail);
            assert((seq![e] + tail)[0] == e);
            assert((seq![e] + tail).drop_first() =~= tail);
            assert(spec_scan_string_at(input, 0, delim, pos, false, acc)
                == spec_scan_string_at(seq![e] + tail, 0, delim, spec_advance(pos), true, acc));
            lemma_round_trip_at(
                content.drop_first(),
                delim,
                spec_advance(spec_advance(pos)),
                acc.push(c),
            );
            assert(acc.push(c) + content.drop_first() =~= acc + content);
        } else {
            assert(input =~= seq![c] + tail);
            assert(input[0] == c);
            assert(input.drop_first() =~= tail);
            lemma_round_trip_at(
                content.drop_first(),
                delim,
                spec_advance(pos),
                acc.push(c),
            );
            assert(acc.push(c) + content.drop_first() =~= acc + content);
        }
    }
}

/// Law: for strings written with only the supported single-character
/// escapes, scanning round-trips exactly: the escaped source form of any
/// content decodes back to that content, with no length limit configured.
pub proof fn lemma_string_escape_round_trip(content: Seq<char>, delim: char, pos: Position)
    requires
        delim == '"' || delim == '\'',
    ensures
        spec_scan_string(
            spec_escape(content, delim) + seq![delim],
            0,
            delim,
            pos,
        ).result == Ok::<Seq<char>, (LexErrorModel, Position)>(content),
        spec_scan_string(spec_escape(content, delim) + seq![delim], 0, delim, pos).rem
            == Seq::<char>::empty(),
{
    lemma_round_trip_at(content, delim, pos, Seq::empty());
    assert(Seq::<char>::empty() + content =~= content);
}

/// Scanning characters that are not slashes, stars or newlines inside a
/// block comment consumes them without changing the nesting level.
proof fn lemma_comment_plain_run(
    seg: Seq<char>,
    rest: Seq<char>,
    level: usize,
    pos: Position,
    acc: Seq<char>,
)
    requires
        level >= 1,
        forall|i: int| 0 <= i < seg.len() ==> seg[i] != '/' && seg[i] != '*' && seg[i] != '\n',
    ensures
        spec_scan_comment(seg + rest, level, false, pos, acc) == spec_scan_comment(
            rest,
            level,
            false,
            advance_n(pos, seg.len()),
            acc,
        ),
    decreases seg.len(),
{
    if seg.len() == 0 {
        assert(seg + rest =~= rest);
    } else {
        assert((seg + rest)[0] == seg[0]);
        assert((seg + rest).skip(1) =~= seg.drop_first() + rest);
        lemma_comment_plain_run(seg.drop_first(), rest, level, spec_advance(pos), acc);
        crate::model::lemma_advance_n_shift(pos, (seg.len() - 1) as nat);
    }
}

/// Law: nested block comments balance. A comment of the shape
/// `/* a /* b */ c */` (with no slashes, stars or newlines inside the
/// three segments) is consumed as a single unit, and scanning continues
/// exactly at the input after the final closing marker.
pub proof fn lemma_nested_comment_single_unit(
    a: Seq<char>,
    b: Seq<char>,
    c: Seq<char>,
    rest: Seq<char>,
    st: TokenizeState,
    pos: Position,
)
    requires
        forall|i: int| 0 <= i < a.len() ==> a[i] != '/' && a[i] != '*' && a[i] != '\n',
        forall|i: int| 0 <= i < b.len() ==> b[i] != '/' && b[i] != '*' && b[i] != '\n',
        forall|i: int| 0 <= i < c.len() ==> c[i] != '/' && c[i] != '*' && c[i] != '\n',
        st.comment_level == 0,
        !st.include_comments,
    ensures
        ({
            let input = "/*"@ + a + "/*"@ + b + "*/"@ + c + "*/"@ + rest;
            spec_scan(input, st, pos) == spec_scan(
                rest,
                st,
                advance_n(pos, a.len() + b.len() + c.len() + 8),
            )
        }),
{
    reveal_strlit("/*");
    reveal_strlit("*/");
    let input = "/*"@ + a + "/*"@ + b + "*/"@ + c + "*/"@ + rest;
    assert(("/*"@).len() == 2 && ("/*"@)[0] == '/' && ("/*"@)[1] == '*');
    assert(("*/"@).len() == 2 && ("*/"@)[0] == '*' && ("*/"@)[1] == '/');
    assert(input[0] == '/');
    assert(input[1] == '*');
    let inner = a + ("/*"@ + b + "*/"@ + c + "*/"@ + rest);
    assert(input.skip(2) =~= inner);
    let p2 = advance_n(pos, 2);
    lemma_advance_two(pos);
    assert(p2 == spec_advance(spec_advance(pos)));

    // The first segment is consumed at level 1.
    lemma_comment_plain_run(
        a,
        "/*"@ + b + "*/"@ + c + "*/"@ + rest,
        1,
        p2,
        Seq::empty(),
    );
    let pa = advance_n(p2, a.len());

    // The inner opener deepens to level 2.
    let after_open = b + ("*/"@ + c + "*/"@ + rest);
    assert(("/*"@ + b + "*/"@ + c + "*/"@ + rest)[0] == '/');
    assert(("/*"@ + b + "*/"@ + c + "*/"@ + rest)[1] == '*');
    assert(("/*"@ + b + "*/"@ + c + "*/"@ + rest).skip(2) =~= after_open);
    let pb0 = spec_advance(spec_advance(pa));

    // The second segment is consumed at level 2.
    lemma_comment_plain_run(b, "*/"@ + c + "*/"@ + rest, 2, pb0, Seq::empty());
    let pb = advance_n(pb0, b.len());

    // The inner closer returns to level 1.
    let after_close = c + ("*/"@ + rest);
    assert(("*/"@ + c + "*/"@ + rest)[0] == '*');
    assert(("*/"@ + c + "*/"@ + rest)[1] == '/');
    assert(("*/"@ + c + "*/"@ + rest).skip(2) =~= after_close);
    let pc0 = spec_advance(spec_advance(pb));

    // The third segment is consumed at level 1.
    lemma_comment_plain_run(c, "*/"@ + rest, 1, pc0, Seq::empty());
    let pc = advance_n(pc0, c.len());

    // The final closer returns to level 0 and scanning stops.
    assert(("*/"@ + rest)[0] == '*');
    assert(("*/"@ + rest)[1] == '/');
    assert(("*/"@ + rest).skip(2) =~= rest);
    let pend = spec_advance(spec_advance(pc));
    assert(spec_scan_comment(inner, 1, false, p2, Seq::empty()) == (crate::model::CommentScan {
        text: Seq::<char>::empty(),
        level: 0,
        rem: rest,
        pos: pend,
    }));

    // Put the position arithmetic together.
    lemma_advance_n_add(pos, 2, a.len());
    lemma_advance_n_add(pos, 2 + a.len(), 2);
    lemma_advance_n_add(pos, 4 + a.len(), b.len());
    lemma_advance_n_add(pos, 4 + a.len() + b.len(), 2);
    lemma_advance_n_add(pos, 6 + a.len() + b.len(), c.len());
    lemma_advance_n_add(pos, 6 + a.len() + b.len() + c.len(), 2);
    lemma_advance_two(pa);
    lemma_advance_two(pb);
    lemma_advance_two(pc);
    assert(pend == advance_n(pos, a.len() + b.len() + c.len() + 8));

    let st1 = TokenizeState { comment_level: 1, ..st };
    let st2 = TokenizeState { comment_level: 0, ..st1 };
    assert(st2 == st);
}

/// The accepted-string direction of the length limit, for any content
/// including escapes: when a limit is configured, a scan never returns a
/// literal whose encoded length exceeds it.
pub proof fn lemma_accepted_string_within_limit(
    rem: Seq<char>,
    max: usize,
    delim: char,
    pos: Position,
    esc: bool,
    acc: Seq<char>,
)
    ensures
        max > 0 ==> (match spec_scan_string_at(rem, max, delim, pos, esc, acc).result {
            Ok(s) => (vstd::utf8::encode_utf8(s).len() as usize) <= max,
            Err(_) => true,
        }),
    decreases rem.len(),
{
    if rem.len() == 0 {
    } else {
        let c = rem[0];
        let rest = rem.drop_first();
        let pos1 = spec_advance(pos);
        if max > 0 && acc.len() > max {
        } else if c == '\\' && !esc {
            lemma_accepted_string_within_limit(rest, max, delim, pos1, true, acc);
        } else if c == '\\' && esc {
            lemma_accepted_string_within_limit(rest, max, delim, pos1, false, acc.push('\\'));
        } else if c == 't' && esc {
            lemma_accepted_string_within_limit(rest, max, delim, pos1, false, acc.push('\t'));
        } else if c == 'n' && esc {
            lemma_accepted_string_within_limit(rest, max, delim, pos1, false, acc.push('\n'));
        } else if c == 'r' && esc {
            lemma_accepted_string_within_limit(rest, max, delim, pos1, false, acc.push('\r'));
        } else if (c == 'x' || c == 'u' || c == 'U') && esc {
            let k: nat = if c == 'x' {
                2
            } else if c == 'u' {
                4
            } else {
                8
            };
            let h = crate::model::spec_scan_hex(rest, pos1, k, seq!['\\', c], 0);
            match h.result {
                Ok(ch) => {
                    crate::model::lemma_hex_rem_le(rest, pos1, k, seq!['\\', c], 0);
                    lemma_accepted_string_within_limit(
                        h.rem,
                        max,
                        delim,
                        h.pos,
                        false,
                        acc.push(ch),
                    );
                },
                Err(_) => {},
            }
        } else if c == delim && esc {
            lemma_accepted_string_within_limit(rest, max, delim, pos1, false, acc.push(c));
        } else if c == delim && !esc {
        } else if esc {
        } else if c == '\n' {
        } else {
            lemma_accepted_string_within_limit(rest, max, delim, pos1, false, acc.push(c));
        }
    }
}

/// Law, composed through the whole pipeline: the spelling `=>` standing
/// alone in the input comes out of one pull, for every configuration that
/// does not register it as a custom keyword, as an error naming the Rust
/// confusion; when it is registered, it comes out as a custom keyword.
#[verifier::rlimit(100)]
#[verifier::spinoff_prover]
pub proof fn lemma_confusable_through_pipeline(
    st: TokenizeState,
    pos: Position,
    disabled: Option<Set<Seq<char>>>,
    custom: Option<Map<Seq<char>, u8>>,
)
    requires
        st.comment_level == 0,
    ensures
        ({
            let step = crate::model::spec_next(seq!['=', '>'], st, pos);
            match step.item {
                Some((raw, at)) => {
                    let out = spec_override(raw, disabled, custom);
                    &&& at == spec_advance(pos)
                    &&& (!spec_is_custom("=>"@, custom) ==> out == TokenModel::LexError(
                        LexErrorModel::ImproperSymbol(
                            "'=>' is not a valid symbol. This is not Rust! Should it be '>='?"@,
                        ),
                    ))
                    &&& (spec_is_custom("=>"@, custom) ==> out == TokenModel::Custom("=>"@))
                },
                None => false,
            }
        }),
{
    lemma_spelling_table();
    let input = seq!['=', '>'];
    assert(input[0] == '=');
    assert(input[1] == '>');
    assert(crate::model::spec_next(input, st, pos).item == Some(
        (TokenModel::Reserved("=>"@), spec_advance(pos)),
    ));
    lemma_confusable_reserved("=>"@, disabled, custom);
}

} // verus!
