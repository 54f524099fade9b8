//! Small text helpers with exact contracts.
use vstd::prelude::*;
use vstd::string::StringSliceAdditionalSpecFns;

verus! {

/// Whether two strings hold the same characters.
pub fn str_eq(a: &str, b: &str) -> (r: bool)
    ensures
        r == (a@ == b@),
{
    let x = a.as_bytes();
    let y = b.as_bytes();
    proof {
        vstd::utf8::encode_utf8_decode_utf8(a@);
        vstd::utf8::encode_utf8_decode_utf8(b@);
    }
    if x.len() != y.len() {
        return false;
    }
    let n = x.len();
    for i in 0..n
        invariant
            n == x@.len(),
            n == y@.len(),
            x@ == a.spec_bytes(),
            y@ == b.spec_bytes(),
            forall|j: int| 0 <= j < i ==> x@[j] == y@[j],
    {
        if x[i] != y[i] {
            return false;
        }
    }
    assert(x@ =~= y@);
    true
}

/// The decimal digits of `v`, as `{}` writes an unsigned number.
pub open spec fn decimal_chars(v: nat) -> Seq<char>
    decreases v,
{
    if v < 10 {
        seq![digit_char(v)]
    } else {
        decimal_chars(v / 10).push(digit_char(v % 10))
    }
}

pub open spec fn digit_char(d: nat) -> char {
    ((d + 48) as u8) as char
}

pub(crate) fn digit_str(d: u64) -> (s: &'static str)
    requires
        d < 10,
    ensures
        s@ == seq![digit_char(d as nat)],
{
    proof {
        reveal_strlit("0");
        reveal_strlit("1");
        reveal_strlit("2");
        reveal_strlit("3");
        reveal_strlit("4");
        reveal_strlit("5");
        reveal_strlit("6");
        reveal_strlit("7");
        reveal_strlit("8");
        reveal_strlit("9");
    }
    match d {
        0 => "0",
        1 => "1",
        2 => "2",
        3 => "3",
        4 => "4",
        5 => "5",
        6 => "6",
        7 => "7",
        8 => "8",
        _ => "9",
    }
}

/// Appends `v` in decimal.
pub fn append_decimal(out: &mut String, v: u64)
    ensures
        final(out)@ == old(out)@ + decimal_chars(v as nat),
    decreases v,
{
    if v >= 10 {
        append_decimal(out, v / 10);
        out.append(digit_str(v % 10));
        assert(decimal_chars(v as nat) =~= decimal_chars((v / 10) as nat).push(
            digit_char((v % 10) as nat),
        ));
    } else {
        out.append(digit_str(v));
        assert(decimal_chars(v as nat) =~= seq![digit_char(v as nat)]);
    }
}

/// Appends a 128-bit `v` in decimal.
pub fn append_decimal_u128(out: &mut String, v: u128)
    ensures
        final(out)@ == old(out)@ + decimal_chars(v as nat),
    decreases v,
{
    if v >= 10 {
        append_decimal_u128(out, v / 10);
        out.append(digit_str((v % 10) as u64));
        assert(decimal_chars(v as nat) =~= decimal_chars((v / 10) as nat).push(
            digit_char((v % 10) as nat),
        ));
    } else {
        out.append(digit_str(v as u64));
        assert(decimal_chars(v as nat) =~= seq![digit_char(v as nat)]);
    }
}

/// The text of a signed number, as `{}` writes it.
pub open spec fn signed_decimal_chars(v: int) -> Seq<char> {
    if v < 0 {
        seq!['-'] + decimal_chars((-v) as nat)
    } else {
        decimal_chars(v as nat)
    }
}

/// Appends `v` in decimal with a leading `-` when negative.
pub fn append_signed_decimal(out: &mut String, v: i64)
    ensures
        final(out)@ == old(out)@ + signed_decimal_chars(v as int),
{
    if v < 0 {
        proof {
            reveal_strlit("-");
        }
        out.append("-");
        let m: u64 = if v == i64::MIN {
            9223372036854775808u64
        } else {
            (-v) as u64
        };
        append_decimal(out, m);
    } else {
        append_decimal(out, v as u64);
    }
}

} // verus!
