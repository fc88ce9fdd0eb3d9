//! Numeric literal support: digit character classes, the positional value
//! of a digit run, verified integer parsing with exact overflow behaviour,
//! and decimal rendering of values for `Token::syntax`.

use vstd::prelude::*;

verus! {

/// Is the character a decimal digit?
pub open spec fn spec_is_digit(c: char) -> bool {
    '0' <= c && c <= '9'
}

/// Is the character a hexadecimal digit?
pub open spec fn spec_is_hex_digit(c: char) -> bool {
    spec_is_digit(c) || ('a' <= c && c <= 'f') || ('A' <= c && c <= 'F')
}

/// Is the character an octal digit?
pub open spec fn spec_is_octal_digit(c: char) -> bool {
    '0' <= c && c <= '7'
}

/// Is the character a binary digit?
pub open spec fn spec_is_binary_digit(c: char) -> bool {
    c == '0' || c == '1'
}

/// Is the character a valid digit in the given radix (2, 8, 10 or 16)?
pub open spec fn spec_radix_digit(c: char, radix: u32) -> bool {
    if radix == 16 {
        spec_is_hex_digit(c)
    } else if radix == 10 {
        spec_is_digit(c)
    } else if radix == 8 {
        spec_is_octal_digit(c)
    } else {
        spec_is_binary_digit(c)
    }
}

/// The numeric value of a single digit character (hexadecimal covers all
/// the radixes used here).
pub open spec fn spec_digit_value(c: char) -> u32 {
    if 'a' <= c && c <= 'f' {
        (c as u32 - 'a' as u32 + 10) as u32
    } else if 'A' <= c && c <= 'F' {
        (c as u32 - 'A' as u32 + 10) as u32
    } else {
        (c as u32 - '0' as u32) as u32
    }
}

/// The positional value of a digit run in the given radix.
pub open spec fn spec_digits_value(ds: Seq<char>, radix: u32) -> nat
    decreases ds.len(),
{
    if ds.len() == 0 {
        0
    } else {
        spec_digits_value(ds.drop_last(), radix) * (radix as nat) + (spec_digit_value(ds.last()) as nat)
    }
}

/// The digit run with its grouping underscores removed.
pub open spec fn strip_underscores(s: Seq<char>) -> Seq<char>
    decreases s.len(),
{
    if s.len() == 0 {
        Seq::empty()
    } else if s[0] == '_' {
        strip_underscores(s.drop_first())
    } else {
        seq![s[0]] + strip_underscores(s.drop_first())
    }
}

/// The value of a digit run, if it is non-empty, made of valid digits
/// for the radix, and no larger than `cap`.
pub open spec fn spec_parse_digits(t: Seq<char>, radix: u32, cap: u64) -> Option<u64> {
    if t.len() == 0 {
        None
    } else if !(forall|i: int| 0 <= i < t.len() ==> spec_radix_digit(t[i], radix)) {
        None
    } else if spec_digits_value(t, radix) > cap {
        None
    } else {
        Some(spec_digits_value(t, radix) as u64)
    }
}

/// What a radix-prefixed literal's digit text parses to: the value if the
/// run (with underscores stripped) is non-empty, all valid digits, and in
/// range for a signed 64-bit integer; nothing otherwise.
pub open spec fn spec_parse_radix(ds: Seq<char>, radix: u32) -> Option<i64> {
    match spec_parse_digits(strip_underscores(ds), radix, i64::MAX as u64) {
        Some(v) => Some(v as i64),
        None => None,
    }
}

/// What a decimal literal's text (with an optional leading minus sign)
/// parses to, with the exact signed 64-bit overflow behaviour.
pub open spec fn spec_parse_decimal(ds: Seq<char>) -> Option<i64> {
    if ds.len() > 0 && ds[0] == '-' {
        match spec_parse_digits(strip_underscores(ds.drop_first()), 10, 0x8000_0000_0000_0000) {
            Some(v) => Some((-(v as int)) as i64),
            None => None,
        }
    } else {
        match spec_parse_digits(strip_underscores(ds), 10, i64::MAX as u64) {
            Some(v) => Some(v as i64),
            None => None,
        }
    }
}

/// Test if the given character is a hex character.
pub(crate) fn is_hex_char(c: char) -> (r: bool)
    ensures
        r == spec_is_hex_digit(c),
{
    ('0' <= c && c <= '9') || ('a' <= c && c <= 'f') || ('A' <= c && c <= 'F')
}

/// Test if the given character is an octal character.
pub(crate) fn is_octal_char(c: char) -> (r: bool)
    ensures
        r == spec_is_octal_digit(c),
{
    '0' <= c && c <= '7'
}

/// Test if the given character is a binary character.
pub(crate) fn is_binary_char(c: char) -> (r: bool)
    ensures
        r == spec_is_binary_digit(c),
{
    c == '0' || c == '1'
}

/// Is the character a valid digit in the given radix?
pub(crate) fn is_radix_digit(c: char, radix: u32) -> (r: bool)
    ensures
        r == spec_radix_digit(c, radix),
{
    if radix == 16 {
        is_hex_char(c)
    } else if radix == 10 {
        '0' <= c && c <= '9'
    } else if radix == 8 {
        is_octal_char(c)
    } else {
        is_binary_char(c)
    }
}

/// The numeric value of a hexadecimal digit character, or nothing for any
/// other character.
pub(crate) fn to_hex_digit(c: char) -> (r: Option<u32>)
    ensures
        r == if spec_is_hex_digit(c) {
            Option::<u32>::Some(spec_digit_value(c))
        } else {
            Option::<u32>::None
        },
{
    if '0' <= c && c <= '9' {
        Some(c as u32 - '0' as u32)
    } else if 'a' <= c && c <= 'f' {
        Some(c as u32 - 'a' as u32 + 10)
    } else if 'A' <= c && c <= 'F' {
        Some(c as u32 - 'A' as u32 + 10)
    } else {
        None
    }
}

/// Appending digits to a run never shrinks its value.
proof fn lemma_digits_value_grows(a: Seq<char>, b: Seq<char>, radix: u32)
    requires
        radix >= 2,
    ensures
        spec_digits_value(a + b, radix) >= spec_digits_value(a, radix),
    decreases b.len(),
{
    if b.len() == 0 {
        assert(a + b =~= a);
    } else {
        lemma_digits_value_grows(a, b.drop_last(), radix);
        assert((a + b).drop_last() =~= a + b.drop_last());
        let v = spec_digits_value(a + b.drop_last(), radix);
        assert(spec_digits_value(a + b, radix) == v * radix + spec_digit_value((a + b).last()));
        assert(v * radix >= v) by (nonlinear_arith)
            requires radix >= 2, v >= 0;
    }
}

/// One step of stripping underscores from the front of a run.
proof fn lemma_strip_step(s: Seq<char>, i: int)
    requires
        0 <= i < s.len(),
    ensures
        s[i] == '_' ==> strip_underscores(s.skip(i)) == strip_underscores(s.skip(i + 1)),
        s[i] != '_' ==> strip_underscores(s.skip(i)) == seq![s[i]] + strip_underscores(s.skip(i + 1)),
{
    assert(s.skip(i).len() > 0);
    assert(s.skip(i)[0] == s[i]);
    assert(s.skip(i).drop_first() =~= s.skip(i + 1));
}

/// Parse a run of digit characters (skipping grouping underscores) in the
/// given radix, refusing an empty run, an invalid digit, or a value above
/// `cap`.
fn parse_digits(digits: &Vec<char>, from: usize, radix: u32, cap: u64) -> (r: Option<u64>)
    requires
        radix == 2 || radix == 8 || radix == 10 || radix == 16,
        from <= digits@.len(),
        15 <= cap <= 0x8000_0000_0000_0000,
    ensures
        r == spec_parse_digits(strip_underscores(digits@.skip(from as int)), radix, cap),
{
    let ghost target = strip_underscores(digits@.skip(from as int));
    let mut acc: u64 = 0;
    let mut any = false;
    let mut i = from;
    let ghost mut stripped: Seq<char> = Seq::empty();

    while i < digits.len()
        invariant
            from <= i <= digits@.len(),
            radix == 2 || radix == 8 || radix == 10 || radix == 16,
            15 <= cap <= 0x8000_0000_0000_0000,
            target == strip_underscores(digits@.skip(from as int)),
            target == stripped + strip_underscores(digits@.skip(i as int)),
            forall|j: int| 0 <= j < stripped.len() ==> spec_radix_digit(stripped[j], radix),
            acc == spec_digits_value(stripped, radix),
            acc <= cap,
            any == (stripped.len() > 0),
        decreases digits@.len() - i,
    {
        let c = digits[i];
        proof {
            lemma_strip_step(digits@, i as int);
        }
        if c != '_' {
            if !is_radix_digit(c, radix) {
                proof {
                    assert(target[stripped.len() as int] == c);
                }
                return None;
            }
            let d = match to_hex_digit(c) {
                Some(d) => d,
                None => {
                    // A digit valid for any of the radixes is a hex digit.
                    proof {
                        assert(false);
                    }
                    return None;
                },
            };
            proof {
                assert(d < radix);
            }
            let ghost swith = stripped.push(c);
            proof {
                assert(swith.drop_last() =~= stripped);
                assert(spec_digits_value(swith, radix) == acc as nat * radix + d);
                assert(target == swith + strip_underscores(digits@.skip(i as int + 1)));
            }
            if acc > (cap - d as u64) / (radix as u64) {
                // The run so far already exceeds the cap, so the whole run
                // does too.
                proof {
                    let q: int = (cap as int - d as int) / (radix as int);
                    let cd: int = cap as int - d as int;
                    let rx = radix as int;
                    vstd::arithmetic::div_mod::lemma_fundamental_div_mod(cd, rx);
                    vstd::arithmetic::div_mod::lemma_mod_division_less_than_divisor(cd, rx);
                    vstd::arithmetic::mul::lemma_mul_inequality(q + 1, acc as int, rx);
                    assert(acc as int * rx >= (q + 1) * rx);
                    assert(acc as nat * radix + d > cap);
                    lemma_digits_value_grows(swith, strip_underscores(digits@.skip(i as int + 1)), radix);
                    assert(spec_digits_value(target, radix) > cap);
                }
                return None;
            }
            proof {
                let q: int = (cap as int - d as int) / (radix as int);
                let cd: int = cap as int - d as int;
                let rx = radix as int;
                vstd::arithmetic::div_mod::lemma_fundamental_div_mod(cd, rx);
                vstd::arithmetic::div_mod::lemma_mod_division_less_than_divisor(cd, rx);
                vstd::arithmetic::mul::lemma_mul_inequality(acc as int, q, rx);
                assert(acc as int * rx <= q * rx);
                assert(acc as nat * radix + d <= cap);
            }
            let new_acc = acc * (radix as u64) + d as u64;
            acc = new_acc;
            any = true;
            proof {
                stripped = swith;
            }
        }
        i += 1;
    }
    proof {
        assert(digits@.skip(i as int).len() == 0);
        assert(strip_underscores(digits@.skip(i as int)) =~= Seq::<char>::empty());
        assert(target =~= stripped);
    }
    if !any {
        None
    } else {
        Some(acc)
    }
}

/// Parse the digit text of a radix-prefixed literal (everything after the
/// two-character prefix), in the exact manner of signed 64-bit parsing:
/// the value if the run is non-empty, valid and in range, else nothing.
pub(crate) fn parse_int_radix(digits: &Vec<char>, from: usize, radix: u32) -> (r: Option<i64>)
    requires
        radix == 2 || radix == 8 || radix == 16,
        from <= digits@.len(),
    ensures
        r == spec_parse_radix(digits@.skip(from as int), radix),
{
    match parse_digits(digits, from, radix, i64::MAX as u64) {
        Some(v) => Some(v as i64),
        None => None,
    }
}

/// Parse decimal literal text with an optional leading minus sign, in the
/// exact manner of signed 64-bit parsing: the value if the digit run is
/// non-empty, valid and in range for the sign, else nothing.
pub(crate) fn parse_int_decimal(digits: &Vec<char>) -> (r: Option<i64>)
    ensures
        r == spec_parse_decimal(digits@),
{
    if digits.len() > 0 && digits[0] == '-' {
        match parse_digits(digits, 1, 10, 0x8000_0000_0000_0000) {
            Some(v) => {
                proof {
                    assert(digits@.skip(1) =~= digits@.drop_first());
                }
                if v == 0x8000_0000_0000_0000 {
                    Some(i64::MIN)
                } else {
                    Some(-(v as i64))
                }
            },
            None => {
                proof {
                    assert(digits@.skip(1) =~= digits@.drop_first());
                }
                None
            },
        }
    } else {
        proof {
            assert(digits@.skip(0) =~= digits@);
        }
        match parse_digits(digits, 0, 10, i64::MAX as u64) {
            Some(v) => Some(v as i64),
            None => None,
        }
    }
}

/// The decimal rendering of an unsigned value.
pub open spec fn spec_u64_decimal(n: u64) -> Seq<char>
    decreases n,
{
    if n < 10 {
        seq![(('0' as u32 + n as u32) as u32) as char]
    } else {
        spec_u64_decimal(n / 10) + seq![(('0' as u32 + (n % 10) as u32) as u32) as char]
    }
}

/// The decimal rendering of a signed value: a minus sign followed by the
/// rendering of the magnitude, or just the magnitude.
pub open spec fn spec_i64_decimal(v: i64) -> Seq<char> {
    if v >= 0 {
        spec_u64_decimal(v as u64)
    } else {
        seq!['-'] + spec_u64_decimal((-(v as int)) as u64)
    }
}

/// Append the decimal rendering of an unsigned value.
fn push_u64_decimal(out: &mut Vec<char>, n: u64)
    ensures
        final(out)@ == old(out)@ + spec_u64_decimal(n),
    decreases n,
{
    if n < 10 {
        out.push((('0' as u32 + n as u32) as u8) as char);
    } else {
        push_u64_decimal(out, n / 10);
        out.push((('0' as u32 + (n % 10) as u32) as u8) as char);
        proof {
            assert(final(out)@ =~= old(out)@ + spec_u64_decimal(n));
        }
    }
}

/// The decimal rendering of an unsigned value, as characters.
pub(crate) fn u64_decimal_chars(n: u64) -> (r: Vec<char>)
    ensures
        r@ == spec_u64_decimal(n),
{
    let mut out: Vec<char> = Vec::new();
    push_u64_decimal(&mut out, n);
    proof {
        assert(out@ =~= spec_u64_decimal(n));
    }
    out
}

/// The decimal rendering of a signed value, as characters.
pub(crate) fn i64_decimal_chars(v: i64) -> (r: Vec<char>)
    ensures
        r@ == spec_i64_decimal(v),
{
    let mut out: Vec<char> = Vec::new();
    if v >= 0 {
        push_u64_decimal(&mut out, v as u64);
    } else {
        out.push('-');
        let mag: u64 = if v == i64::MIN {
            0x8000_0000_0000_0000
        } else {
            (-v) as u64
        };
        push_u64_decimal(&mut out, mag);
        proof {
            assert(out@ =~= seq!['-'] + spec_u64_decimal(mag));
        }
    }
    out
}

} // verus!
