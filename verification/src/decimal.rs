//! Fixed-point quantities and the shared fixed-precision formatter.
//!
//! Every coordinate and data value in this crate is a signed count of tenths:
//! the quantity 12.5 is held as the integer 125.  The formatter prints such a
//! count with at most one decimal place and drops a trailing ".0", so the
//! output text is compact and byte-for-byte reproducible.

use vstd::prelude::*;

verus! {

/// The decimal digit character for `d` in `0 .. 10`.
pub open spec fn spec_digit(d: int) -> char {
    if d == 0 {
        '0'
    } else if d == 1 {
        '1'
    } else if d == 2 {
        '2'
    } else if d == 3 {
        '3'
    } else if d == 4 {
        '4'
    } else if d == 5 {
        '5'
    } else if d == 6 {
        '6'
    } else if d == 7 {
        '7'
    } else if d == 8 {
        '8'
    } else {
        '9'
    }
}

/// The decimal digits of a non-negative integer, most significant first.
pub open spec fn spec_digits(n: int) -> Seq<char>
    decreases n,
{
    if n < 10 {
        seq![spec_digit(n)]
    } else {
        spec_digits(n / 10) + seq![spec_digit(n % 10)]
    }
}

/// Signed integer text: the digits of the magnitude behind a minus sign.
pub open spec fn spec_int_text(v: int) -> Seq<char> {
    if v < 0 {
        seq!['-'] + spec_digits(-v)
    } else {
        spec_digits(v)
    }
}

/// The shared fixed-precision formatter, applied to a count of tenths:
/// one decimal place, with a trailing ".0" dropped.
pub open spec fn spec_tenths_text(t: int) -> Seq<char> {
    let m = if t < 0 {
        -t
    } else {
        t
    };
    let sign = if t < 0 {
        seq!['-']
    } else {
        Seq::<char>::empty()
    };
    if m % 10 == 0 {
        sign + spec_digits(m / 10)
    } else {
        sign + spec_digits(m / 10) + seq!['.'] + seq![spec_digit(m % 10)]
    }
}

/// Appends the digit character for `d` to `s`.
pub fn push_digit(s: &mut String, d: u64)
    requires
        d < 10,
    ensures
        final(s)@ == old(s)@ + seq![spec_digit(d as int)],
{
    match d {
        0 => {
            proof {
                reveal_strlit("0");
            }
            s.append("0");
        },
        1 => {
            proof {
                reveal_strlit("1");
            }
            s.append("1");
        },
        2 => {
            proof {
                reveal_strlit("2");
            }
            s.append("2");
        },
        3 => {
            proof {
                reveal_strlit("3");
            }
            s.append("3");
        },
        4 => {
            proof {
                reveal_strlit("4");
            }
            s.append("4");
        },
        5 => {
            proof {
                reveal_strlit("5");
            }
            s.append("5");
        },
        6 => {
            proof {
                reveal_strlit("6");
            }
            s.append("6");
        },
        7 => {
            proof {
                reveal_strlit("7");
            }
            s.append("7");
        },
        8 => {
            proof {
                reveal_strlit("8");
            }
            s.append("8");
        },
        _ => {
            proof {
                reveal_strlit("9");
            }
            s.append("9");
        },
    }
    assert(s@ =~= old(s)@ + seq![spec_digit(d as int)]);
}

/// The decimal digits of `n`, most significant first.
pub fn format_u64(n: u64) -> (s: String)
    ensures
        s@ == spec_digits(n as int),
    decreases n,
{
    if n < 10 {
        let mut s = String::new();
        push_digit(&mut s, n);
        assert(s@ =~= spec_digits(n as int));
        s
    } else {
        let mut s = format_u64(n / 10);
        push_digit(&mut s, n % 10);
        assert(s@ =~= spec_digits(n as int));
        s
    }
}

/// Signed integer text for `v`.
pub fn format_i64(v: i64) -> (s: String)
    requires
        v > i64::MIN,
    ensures
        s@ == spec_int_text(v as int),
{
    if v < 0 {
        let mut s = String::new();
        proof {
            reveal_strlit("-");
        }
        s.append("-");
        let digits = format_u64((-v) as u64);
        s.append(digits.as_str());
        assert(s@ =~= spec_int_text(v as int));
        s
    } else {
        let s = format_u64(v as u64);
        s
    }
}

/// The shared fixed-precision formatter over a count of tenths.
pub fn format_tenths(t: i64) -> (s: String)
    requires
        t > i64::MIN,
    ensures
        s@ == spec_tenths_text(t as int),
{
    let m: u64 = if t < 0 {
        (-t) as u64
    } else {
        t as u64
    };
    let mut s = String::new();
    if t < 0 {
        proof {
            reveal_strlit("-");
        }
        s.append("-");
    }
    let whole = format_u64(m / 10);
    s.append(whole.as_str());
    if m % 10 != 0 {
        proof {
            reveal_strlit(".");
        }
        s.append(".");
        push_digit(&mut s, m % 10);
    }
    assert(s@ =~= spec_tenths_text(t as int));
    s
}

} // verus!
