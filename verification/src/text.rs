//! Decimal text renderings of the values a cell can hold, with spec-level
//! definitions of the exact character sequences they produce.

use vstd::prelude::*;

verus! {

/// The character for a single decimal digit.
pub open spec fn digit_char(d: int) -> char {
    if d == 0 {
        '0'
    } else if d == 1 {
        '1'
    } else if d == 2 {
        '2'
    } else if d == 3 {
        '3'
    } else if d == 4 {
        '4'
    } else if d == 5 {
        '5'
    } else if d == 6 {
        '6'
    } else if d == 7 {
        '7'
    } else if d == 8 {
        '8'
    } else {
        '9'
    }
}

/// The decimal rendering of a non-negative integer, most significant digit
/// first, with no leading zeros (except for the value zero itself).
pub open spec fn spec_decimal(n: int) -> Seq<char>
    recommends
        n >= 0,
    decreases n,
{
    if n < 10 {
        seq![digit_char(n)]
    } else {
        spec_decimal(n / 10).push(digit_char(n % 10))
    }
}

/// The decimal rendering of a signed integer: a leading minus sign for
/// negative values, followed by the rendering of the magnitude.
pub open spec fn spec_signed_decimal(v: int) -> Seq<char> {
    if v < 0 {
        seq!['-'] + spec_decimal(-v)
    } else {
        spec_decimal(v)
    }
}

/// The textual rendering of a boolean value.
pub open spec fn spec_bool_text(b: bool) -> Seq<char> {
    if b {
        seq!['t', 'r', 'u', 'e']
    } else {
        seq!['f', 'a', 'l', 's', 'e']
    }
}

/// Append the character for one decimal digit to `s`.
fn push_digit(s: &mut String, d: u32)
    requires
        d < 10,
    ensures
        final(s)@ == old(s)@.push(digit_char(d as int)),
{
    proof {
        reveal_strlit("0");
        reveal_strlit("1");
        reveal_strlit("2");
        reveal_strlit("3");
        reveal_strlit("4");
        reveal_strlit("5");
        reveal_strlit("6");
        reveal_strlit("7");
        reveal_strlit("8");
        reveal_strlit("9");
    }
    if d == 0 {
        s.append("0");
    } else if d == 1 {
        s.append("1");
    } else if d == 2 {
        s.append("2");
    } else if d == 3 {
        s.append("3");
    } else if d == 4 {
        s.append("4");
    } else if d == 5 {
        s.append("5");
    } else if d == 6 {
        s.append("6");
    } else if d == 7 {
        s.append("7");
    } else if d == 8 {
        s.append("8");
    } else {
        s.append("9");
    }
    proof {
        assert(s@ =~= old(s)@.push(digit_char(d as int)));
    }
}

/// Append the decimal rendering of `n` to `s`, most significant digit first.
fn append_decimal(n: u32, s: &mut String)
    ensures
        final(s)@ == old(s)@ + spec_decimal(n as int),
    decreases n,
{
    if n >= 10 {
        append_decimal(n / 10, s);
        push_digit(s, n % 10);
    } else {
        push_digit(s, n);
    }
    proof {
        assert(s@ =~= old(s)@ + spec_decimal(n as int));
    }
}

/// The decimal rendering of an unsigned value, as a fresh string.
pub fn decimal_u32(n: u32) -> (s: String)
    ensures
        s@ == spec_decimal(n as int),
{
    let mut s = String::new();
    append_decimal(n, &mut s);
    proof {
        assert(s@ =~= spec_decimal(n as int));
    }
    s
}

/// The decimal rendering of a signed value, as a fresh string.
pub fn decimal_i32(v: i32) -> (s: String)
    ensures
        s@ == spec_signed_decimal(v as int),
{
    if v >= 0 {
        decimal_u32(v as u32)
    } else {
        let mag: u32 = (-(v as i64)) as u32;
        let mut s = String::new();
        proof {
            reveal_strlit("-");
        }
        s.append("-");
        append_decimal(mag, &mut s);
        proof {
            assert(s@ =~= spec_signed_decimal(v as int));
        }
        s
    }
}

/// The textual rendering of a boolean value, as a fresh string.
pub fn bool_text(b: bool) -> (s: String)
    ensures
        s@ == spec_bool_text(b),
{
    proof {
        reveal_strlit("true");
        reveal_strlit("false");
    }
    if b {
        let s = String::from_str("true");
        proof {
            assert(s@ =~= spec_bool_text(b));
        }
        s
    } else {
        let s = String::from_str("false");
        proof {
            assert(s@ =~= spec_bool_text(b));
        }
        s
    }
}

} // verus!
