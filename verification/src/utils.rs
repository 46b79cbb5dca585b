//! Rendering counts as short magnitude-suffixed strings.

use vstd::prelude::*;
use vstd::string::*;

verus! {

/// The character for one decimal digit.
pub open spec fn spec_digit(d: int) -> char {
    if d == 0 {
        '0'
    } else if d == 1 {
        '1'
    } else if d == 2 {
        '2'
    } else if d == 3 {
        '3'
    } else if d == 4 {
        '4'
    } else if d == 5 {
        '5'
    } else if d == 6 {
        '6'
    } else if d == 7 {
        '7'
    } else if d == 8 {
        '8'
    } else {
        '9'
    }
}

/// The decimal representation of `n`, most significant digit first.
pub open spec fn spec_decimal(n: nat) -> Seq<char>
    decreases n,
{
    if n < 10 {
        seq![spec_digit(n as int)]
    } else {
        spec_decimal(n / 10).push(spec_digit((n % 10) as int))
    }
}

/// What `format_number_magnitude` returns: the number itself below one
/// thousand, otherwise the quotient by the largest fitting power of one
/// thousand with a `K`, `M` or `B` suffix.
pub open spec fn spec_format_number_magnitude(n: u64) -> Seq<char> {
    if n < 1000 {
        spec_decimal(n as nat)
    } else if n < 1000000 {
        spec_decimal((n / 1000) as nat) + "K"@
    } else if n < 1000000000 {
        spec_decimal((n / 1000000) as nat) + "M"@
    } else {
        spec_decimal((n / 1000000000) as nat) + "B"@
    }
}

fn digit_str(d: u64) -> (r: &'static str)
    requires
        d < 10,
    ensures
        r@ =~= seq![spec_digit(d as int)],
{
    proof {
        reveal_strlit("0");
        reveal_strlit("1");
        reveal_strlit("2");
        reveal_strlit("3");
        reveal_strlit("4");
        reveal_strlit("5");
        reveal_strlit("6");
        reveal_strlit("7");
        reveal_strlit("8");
        reveal_strlit("9");
    }
    match d {
        0 => "0",
        1 => "1",
        2 => "2",
        3 => "3",
        4 => "4",
        5 => "5",
        6 => "6",
        7 => "7",
        8 => "8",
        _ => "9",
    }
}

fn push_decimal(out: &mut String, n: u64)
    ensures
        final(out)@ == old(out)@ + spec_decimal(n as nat),
    decreases n,
{
    if n < 10 {
        out.append(digit_str(n));
        proof {
            assert(old(out)@ + spec_decimal(n as nat) =~= final(out)@);
        }
    } else {
        push_decimal(out, n / 10);
        out.append(digit_str(n % 10));
        proof {
            assert(spec_decimal(n as nat) =~= spec_decimal((n / 10) as nat) + seq![
                spec_digit((n % 10) as int),
            ]);
            assert(old(out)@ + spec_decimal(n as nat) =~= final(out)@);
        }
    }
}

/// Renders `number` with a magnitude suffix: `532`, `12K`, `3M`, `7B`.
pub fn format_number_magnitude(number: u64) -> (r: String)
    ensures
        r@ == spec_format_number_magnitude(number),
{
    let mut out = String::new();
    if number < 1000 {
        push_decimal(&mut out, number);
        proof {
            assert(out@ =~= spec_format_number_magnitude(number));
        }
    } else if number < 1000000 {
        push_decimal(&mut out, number / 1000);
        out.append("K");
        proof {
            assert(out@ =~= spec_format_number_magnitude(number));
        }
    } else if number < 1000000000 {
        push_decimal(&mut out, number / 1000000);
        out.append("M");
        proof {
            assert(out@ =~= spec_format_number_magnitude(number));
        }
    } else {
        push_decimal(&mut out, number / 1000000000);
        out.append("B");
        proof {
            assert(out@ =~= spec_format_number_magnitude(number));
        }
    }
    out
}

} // verus!
