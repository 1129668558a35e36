//! Verified text formatting: decimal rendering of integers and the
//! fixed-point "gibibytes to one decimal place" labels used by the gauges.

use vstd::prelude::*;
use vstd::string::StringExecFns;

verus! {

/// The decimal digit character for a value in [0, 9].
pub open spec fn digit_char(d: int) -> char {
    if d == 0 {
        '0'
    } else if d == 1 {
        '1'
    } else if d == 2 {
        '2'
    } else if d == 3 {
        '3'
    } else if d == 4 {
        '4'
    } else if d == 5 {
        '5'
    } else if d == 6 {
        '6'
    } else if d == 7 {
        '7'
    } else if d == 8 {
        '8'
    } else {
        '9'
    }
}

/// The usual decimal rendering of a non-negative integer, most significant
/// digit first, with no leading zeros (zero itself renders as "0").
pub open spec fn dec_digits(n: int) -> Seq<char>
    decreases n,
{
    if n < 10 {
        seq![digit_char(n)]
    } else {
        dec_digits(n / 10).push(digit_char(n % 10))
    }
}

fn digit_str(d: u64) -> (s: &'static str)
    requires
        d < 10,
    ensures
        s@ == seq![digit_char(d as int)],
{
    let s: &'static str = if d == 0 {
        "0"
    } else if d == 1 {
        "1"
    } else if d == 2 {
        "2"
    } else if d == 3 {
        "3"
    } else if d == 4 {
        "4"
    } else if d == 5 {
        "5"
    } else if d == 6 {
        "6"
    } else if d == 7 {
        "7"
    } else if d == 8 {
        "8"
    } else {
        "9"
    };
    proof {
        reveal_strlit("0");
        reveal_strlit("1");
        reveal_strlit("2");
        reveal_strlit("3");
        reveal_strlit("4");
        reveal_strlit("5");
        reveal_strlit("6");
        reveal_strlit("7");
        reveal_strlit("8");
        reveal_strlit("9");
    }
    assert(s@ =~= seq![digit_char(d as int)]);
    s
}

/// Render a machine integer in decimal.
pub fn u64_to_string(n: u64) -> (s: String)
    ensures
        s@ == dec_digits(n as int),
    decreases n,
{
    if n < 10 {
        let s = String::from_str(digit_str(n));
        assert(s@ =~= dec_digits(n as int));
        s
    } else {
        let mut s = u64_to_string(n / 10);
        s.append(digit_str(n % 10));
        assert(s@ =~= dec_digits(n as int));
        s
    }
}

/// A byte count expressed in tenths of a gibibyte, rounded to nearest
/// (ties upward).
pub open spec fn gib_tenths(bytes: int) -> int {
    (bytes * 10 + 536870912) / 1073741824
}

/// The text of a byte count in gibibytes to one decimal place, e.g. "12.0".
pub open spec fn gb_number_seq(bytes: int) -> Seq<char> {
    dec_digits(gib_tenths(bytes) / 10) + seq!['.'] + seq![digit_char(gib_tenths(bytes) % 10)]
}

/// Render a byte count in gibibytes to one decimal place.
pub fn gb_number(bytes: u64) -> (s: String)
    ensures
        s@ == gb_number_seq(bytes as int),
{
    let wide: u128 = (bytes as u128) * 10 + 536870912;
    let tenths_wide: u128 = wide / 1073741824;
    assert(tenths_wide <= 0xffff_ffff_ffff_ffff) by {
        assert(wide <= 0xffff_ffff_ffff_ffff_u128 * 10 + 536870912);
    };
    let tenths: u64 = tenths_wide as u64;
    assert(tenths as int == gib_tenths(bytes as int));
    let mut s = u64_to_string(tenths / 10);
    s.append(".");
    s.append(digit_str(tenths % 10));
    proof {
        reveal_strlit(".");
    }
    assert(s@ =~= gb_number_seq(bytes as int));
    s
}

} // verus!
