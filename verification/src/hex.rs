//! Base-16 integers as they travel in trace headers: parsing with the rules
//! of `from_str_radix(s, 16)` and formatting with the rules of `{:x}`.
use vstd::prelude::*;

verus! {

/// Why a string is not an integer of the wanted width.
#[derive(Debug, Clone, Copy, PartialEq, Eq, Structural)]
pub enum IntErrorKind {
    /// The string is empty.
    Empty,
    /// A character is not a digit of the radix (or a sign stands alone).
    InvalidDigit,
    /// The value is larger than the type's maximum.
    PosOverflow,
}

/// A failed integer parse.
#[derive(Debug, Clone, Copy, PartialEq, Eq, Structural)]
pub struct ParseIntError {
    pub kind: IntErrorKind,
}

pub open spec fn is_hex_byte(b: u8) -> bool {
    (48 <= b <= 57) || (97 <= b <= 102) || (65 <= b <= 70)
}

pub open spec fn hex_byte_value(b: u8) -> nat {
    if 48 <= b <= 57 {
        (b - 48) as nat
    } else if 97 <= b <= 102 {
        (b - 87) as nat
    } else {
        (b - 55) as nat
    }
}

/// Digits read from the left; the first byte that is no digit, or the
/// first digit after which the value exceeds `max`, decides the error.
pub open spec fn hex_digits_result(d: Seq<u8>, max: nat) -> Result<nat, IntErrorKind>
    decreases d.len(),
{
    if d.len() == 0 {
        Ok(0)
    } else {
        match hex_digits_result(d.drop_last(), max) {
            Err(e) => Err(e),
            Ok(v) => if !is_hex_byte(d.last()) {
                Err(IntErrorKind::InvalidDigit)
            } else if v * 16 + hex_byte_value(d.last()) > max {
                Err(IntErrorKind::PosOverflow)
            } else {
                Ok(v * 16 + hex_byte_value(d.last()))
            },
        }
    }
}

/// What `from_str_radix(s, 16)` gives for an unsigned type whose maximum
/// is `max`: empty input is refused, a lone sign is an invalid digit, one
/// leading `+` is skipped.
pub open spec fn radix16_result(s: Seq<u8>, max: nat) -> Result<nat, IntErrorKind> {
    if s.len() == 0 {
        Err(IntErrorKind::Empty)
    } else if (s[0] == 43u8 || s[0] == 45u8) && s.len() == 1 {
        Err(IntErrorKind::InvalidDigit)
    } else if s[0] == 43u8 {
        hex_digits_result(s.skip(1), max)
    } else {
        hex_digits_result(s, max)
    }
}

pub proof fn lemma_hex_digits_bounded(d: Seq<u8>, max: nat)
    ensures
        hex_digits_result(d, max) matches Ok(v) ==> v <= max,
    decreases d.len(),
{
    if d.len() > 0 {
        lemma_hex_digits_bounded(d.drop_last(), max);
    }
}

fn hex_byte_to_value(b: u8) -> (r: Option<u8>)
    ensures
        r is Some <==> is_hex_byte(b),
        r matches Some(v) ==> v as nat == hex_byte_value(b) && v < 16,
{
    if 48 <= b && b <= 57 {
        Some(b - 48)
    } else if 97 <= b && b <= 102 {
        Some(b - 87)
    } else if 65 <= b && b <= 70 {
        Some(b - 55)
    } else {
        None
    }
}

proof fn lemma_step_fits(v: u128, x: u128, max: u128)
    requires
        x < 16,
        max >= 15,
    ensures
        (v <= (max - x) / 16) <==> (v * 16 + x <= max),
{
    assert((v <= (max - x) / 16) <==> (v * 16 + x <= max)) by (nonlinear_arith)
        requires
            x < 16,
            max >= 15,
    ;
}

/// Parses base-16 digits (optionally after one `+`) into a value no larger than `max`.
pub fn parse_radix16(s: &[u8], max: u128) -> (r: Result<u128, ParseIntError>)
    requires
        max >= 15,
    ensures
        match radix16_result(s@, max as nat) {
            Ok(v) => r == Ok::<u128, ParseIntError>(v as u128),
            Err(k) => r == Err::<u128, ParseIntError>(ParseIntError { kind: k }),
        },
{
    let n = s.len();
    if n == 0 {
        return Err(ParseIntError { kind: IntErrorKind::Empty });
    }
    if (s[0] == 43u8 || s[0] == 45u8) && n == 1 {
        return Err(ParseIntError { kind: IntErrorKind::InvalidDigit });
    }
    let start: usize = if s[0] == 43u8 { 1 } else { 0 };
    let ghost digits = s@.skip(start as int);
    assert(start == 0 ==> digits =~= s@);
    assert(radix16_result(s@, max as nat) == hex_digits_result(digits, max as nat));
    let mut value: u128 = 0;
    let mut i: usize = start;
    assert(digits.take(0) =~= Seq::<u8>::empty());
    while i < n
        invariant
            start <= i <= n,
            n == s@.len(),
            max >= 15,
            digits == s@.skip(start as int),
            radix16_result(s@, max as nat) == hex_digits_result(digits, max as nat),
            hex_digits_result(digits.take(i - start), max as nat) == Ok::<nat, IntErrorKind>(
                value as nat,
            ),
        decreases n - i,
    {
        let ghost prefix = digits.take(i - start + 1);
        assert(prefix.drop_last() =~= digits.take(i - start));
        assert(prefix.last() == s@[i as int]);
        let b = s[i];
        match hex_byte_to_value(b) {
            None => {
                assert(hex_digits_result(prefix, max as nat) == Err::<nat, IntErrorKind>(
                    IntErrorKind::InvalidDigit,
                ));
                proof { lemma_prefix_error_persists(digits, (i - start + 1) as nat, max as nat); }
                assert(digits.take(digits.len() as int) =~= digits);
                return Err(ParseIntError { kind: IntErrorKind::InvalidDigit });
            },
            Some(x) => {
                let xx = x as u128;
                proof { lemma_step_fits(value, xx, max); }
                if value > (max - xx) / 16 {
                    assert(hex_digits_result(prefix, max as nat) == Err::<nat, IntErrorKind>(
                        IntErrorKind::PosOverflow,
                    ));
                    proof {
                        lemma_prefix_error_persists(digits, (i - start + 1) as nat, max as nat);
                    }
                    assert(digits.take(digits.len() as int) =~= digits);
                    return Err(ParseIntError { kind: IntErrorKind::PosOverflow });
                }
                value = value * 16 + xx;
            },
        }
        i = i + 1;
    }
    assert(digits.take(i - start) =~= digits);
    Ok(value)
}

/// Once a prefix of the digits fails, the whole fails the same way.
proof fn lemma_prefix_error_persists(d: Seq<u8>, k: nat, max: nat)
    requires
        k <= d.len(),
        hex_digits_result(d.take(k as int), max) is Err,
    ensures
        hex_digits_result(d.take(d.len() as int), max) == hex_digits_result(d.take(k as int), max),
    decreases d.len() - k,
{
    if k < d.len() {
        let next = d.take(k as int + 1);
        assert(next.drop_last() =~= d.take(k as int));
        lemma_prefix_error_persists(d, k + 1, max);
    }
}

pub open spec fn hex_digit_byte(d: nat) -> u8 {
    if d < 10 {
        (d + 48) as u8
    } else {
        (d + 87) as u8
    }
}

/// The lower-case base-16 rendering of `v` without leading zeros, as `{:x}` writes it.
pub open spec fn hex_text(v: nat) -> Seq<u8>
    decreases v,
{
    if v < 16 {
        seq![hex_digit_byte(v)]
    } else {
        hex_text(v / 16).push(hex_digit_byte(v % 16))
    }
}

pub open spec fn hex_chars(v: nat) -> Seq<char> {
    hex_text(v).map_values(|b: u8| b as char)
}

/// Reading back what `{:x}` wrote gives the value again.
pub proof fn lemma_hex_roundtrip(v: nat, max: nat)
    requires
        v <= max,
    ensures
        hex_digits_result(hex_text(v), max) == Ok::<nat, IntErrorKind>(v),
        radix16_result(hex_text(v), max) == Ok::<nat, IntErrorKind>(v),
    decreases v,
{
    lemma_hex_text_shape(v);
    let t = hex_text(v);
    assert(is_hex_byte(t[0]));
    if v >= 16 {
        lemma_hex_roundtrip(v / 16, max);
        assert(t.drop_last() =~= hex_text(v / 16));
        assert((v / 16) * 16 + v % 16 == v);
        assert(hex_digits_result(t.drop_last(), max) == Ok::<nat, IntErrorKind>(v / 16));
        assert(is_hex_byte(t[t.len() - 1]));
    } else {
        assert(t.drop_last() =~= Seq::<u8>::empty());
        assert(hex_digits_result(t.drop_last(), max) == Ok::<nat, IntErrorKind>(0));
    }
}

/// Every byte of the rendering is a lower-case digit, and there is at least one.
pub proof fn lemma_hex_text_shape(v: nat)
    ensures
        hex_text(v).len() >= 1,
        forall|i: int|
            0 <= i < hex_text(v).len() ==> is_hex_byte(#[trigger] hex_text(v)[i])
                && hex_text(v)[i] < 128 && hex_text(v)[i] != 58u8 && hex_text(v)[i] != 43u8
                && hex_text(v)[i] != 45u8,
        hex_text(v).len() >= 1 ==> hex_byte_value(hex_text(v).last()) == v % 16,
    decreases v,
{
    if v >= 16 {
        lemma_hex_text_shape(v / 16);
        let t = hex_text(v);
        assert forall|i: int| 0 <= i < t.len() implies is_hex_byte(#[trigger] t[i]) && t[i] < 128
            && t[i] != 58u8 && t[i] != 43u8 && t[i] != 45u8 by {
            if i < t.len() - 1 {
                assert(t[i] == hex_text(v / 16)[i]);
            }
        }
    }
}

/// The text of one base-16 digit.
fn hex_digit_str(d: u8) -> (s: &'static str)
    requires
        d < 16,
    ensures
        s@ == seq![hex_digit_byte(d as nat) as char],
{
    proof {
        reveal_strlit("0");
        reveal_strlit("1");
        reveal_strlit("2");
        reveal_strlit("3");
        reveal_strlit("4");
        reveal_strlit("5");
        reveal_strlit("6");
        reveal_strlit("7");
        reveal_strlit("8");
        reveal_strlit("9");
        reveal_strlit("a");
        reveal_strlit("b");
        reveal_strlit("c");
        reveal_strlit("d");
        reveal_strlit("e");
        reveal_strlit("f");
    }
    match d {
        0 => "0",
        1 => "1",
        2 => "2",
        3 => "3",
        4 => "4",
        5 => "5",
        6 => "6",
        7 => "7",
        8 => "8",
        9 => "9",
        10 => "a",
        11 => "b",
        12 => "c",
        13 => "d",
        14 => "e",
        _ => "f",
    }
}

/// Appends `v` in lower-case base 16, as `write!(out, "{:x}", v)` does.
pub fn append_hex(out: &mut String, v: u128)
    ensures
        final(out)@ == old(out)@ + hex_chars(v as nat),
    decreases v,
{
    if v >= 16 {
        append_hex(out, v / 16);
        let d = (v % 16) as u8;
        out.append(hex_digit_str(d));
        assert(hex_chars(v as nat) =~= hex_chars((v / 16) as nat).push(
            hex_digit_byte(d as nat) as char,
        ));
    } else {
        let d = v as u8;
        out.append(hex_digit_str(d));
        assert(hex_chars(v as nat) =~= seq![hex_digit_byte(d as nat) as char]);
    }
}

} // verus!
