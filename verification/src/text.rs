//! Verified text building for history entries and summaries: decimal
//! rendering of counters and of native amounts.

use vstd::prelude::*;

use vstd::string::StringExecFns;

verus! {

/// The decimal digit character for `d` in `0..10`.
pub open spec fn spec_digit_char(d: int) -> char {
    if d == 0 {
        '0'
    } else if d == 1 {
        '1'
    } else if d == 2 {
        '2'
    } else if d == 3 {
        '3'
    } else if d == 4 {
        '4'
    } else if d == 5 {
        '5'
    } else if d == 6 {
        '6'
    } else if d == 7 {
        '7'
    } else if d == 8 {
        '8'
    } else {
        '9'
    }
}

/// The decimal rendering of a non-negative number, without leading zeroes
/// (a lone zero for 0).
pub open spec fn spec_u64_string(n: int) -> Seq<char>
    decreases n,
{
    if n < 10 {
        seq![spec_digit_char(n)]
    } else {
        spec_u64_string(n / 10).push(spec_digit_char(n % 10))
    }
}

/// The one-character string for a decimal digit.
fn digit_str(d: u64) -> (s: &'static str)
    requires
        d < 10,
    ensures
        s@ == seq![spec_digit_char(d as int)],
{
    proof {
        reveal_strlit("0");
        reveal_strlit("1");
        reveal_strlit("2");
        reveal_strlit("3");
        reveal_strlit("4");
        reveal_strlit("5");
        reveal_strlit("6");
        reveal_strlit("7");
        reveal_strlit("8");
        reveal_strlit("9");
    }
    if d == 0 {
        "0"
    } else if d == 1 {
        "1"
    } else if d == 2 {
        "2"
    } else if d == 3 {
        "3"
    } else if d == 4 {
        "4"
    } else if d == 5 {
        "5"
    } else if d == 6 {
        "6"
    } else if d == 7 {
        "7"
    } else if d == 8 {
        "8"
    } else {
        "9"
    }
}

/// Render a number in decimal.
pub fn u64_to_string(n: u64) -> (s: String)
    ensures
        s@ == spec_u64_string(n as int),
    decreases n,
{
    if n < 10 {
        digit_str(n).to_owned()
    } else {
        let mut s = u64_to_string(n / 10);
        s.append(digit_str(n % 10));
        proof {
            assert(s@ =~= spec_u64_string(n as int / 10).push(spec_digit_char(n as int % 10)));
        }
        s
    }
}

/// Four-digit zero-padded decimal rendering of `n` in `0..10000`.
pub open spec fn spec_pad4(n: int) -> Seq<char> {
    seq![
        spec_digit_char(n / 1000),
        spec_digit_char((n / 100) % 10),
        spec_digit_char((n / 10) % 10),
        spec_digit_char(n % 10),
    ]
}

/// A native amount rendered as whole coins with four decimal places,
/// truncated: the whole part is `lamports / 10^9` and the shown fraction is
/// the first four digits of the remainder.
pub open spec fn spec_sol_string(lamports: int) -> Seq<char> {
    spec_u64_string(lamports / 1000000000) + seq!['.'] + spec_pad4(
        (lamports % 1000000000) / 100000,
    )
}

/// Render a native amount as coins with four decimal places.
pub fn format_sol(lamports: u64) -> (s: String)
    ensures
        s@ == spec_sol_string(lamports as int),
{
    let whole = lamports / 1000000000;
    let frac = (lamports % 1000000000) / 100000;
    let mut s = u64_to_string(whole);
    proof {
        reveal_strlit(".");
    }
    s.append(".");
    s.append(digit_str(frac / 1000));
    s.append(digit_str((frac / 100) % 10));
    s.append(digit_str((frac / 10) % 10));
    s.append(digit_str(frac % 10));
    proof {
        assert(s@ =~= spec_sol_string(lamports as int));
    }
    s
}

} // verus!
