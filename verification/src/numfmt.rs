//! Decimal rendering of the fixed-point quantities used throughout the
//! pipeline: plain decimal for counts, and two-decimal rendering for
//! values held in hundredths (so `72` renders as `"0.72"`).

use vstd::prelude::*;

verus! {

/// The decimal digit character for `d` (`d < 10`).
pub open spec fn digit_char(d: int) -> char {
    if d == 0 {
        '0'
    } else if d == 1 {
        '1'
    } else if d == 2 {
        '2'
    } else if d == 3 {
        '3'
    } else if d == 4 {
        '4'
    } else if d == 5 {
        '5'
    } else if d == 6 {
        '6'
    } else if d == 7 {
        '7'
    } else if d == 8 {
        '8'
    } else {
        '9'
    }
}

/// Decimal rendering of a non-negative integer, most significant digit first.
pub open spec fn dec_str(n: int) -> Seq<char>
    decreases n,
{
    if n < 10 {
        seq![digit_char(n)]
    } else {
        dec_str(n / 10) + seq![digit_char(n % 10)]
    }
}

/// Two-decimal rendering of a value in hundredths: `dec_str(n / 100)`,
/// a dot, then exactly two digits (`5` renders as `"0.05"`).
pub open spec fn fixed2_str(n: int) -> Seq<char> {
    dec_str(n / 100) + seq!['.', digit_char((n % 100) / 10), digit_char(n % 10)]
}

/// Two-decimal rendering of a signed value in hundredths: a leading
/// minus sign for negative values, then the rendering of the magnitude.
pub open spec fn fixed2_str_i64(n: int) -> Seq<char> {
    if n < 0 {
        seq!['-'] + fixed2_str(-n)
    } else {
        fixed2_str(n)
    }
}

fn digit_str(d: u64) -> (r: &'static str)
    requires
        d < 10,
    ensures
        r@ == seq![digit_char(d as int)],
{
    proof {
        reveal_strlit("0");
        reveal_strlit("1");
        reveal_strlit("2");
        reveal_strlit("3");
        reveal_strlit("4");
        reveal_strlit("5");
        reveal_strlit("6");
        reveal_strlit("7");
        reveal_strlit("8");
        reveal_strlit("9");
    }
    let r = match d {
        0 => "0",
        1 => "1",
        2 => "2",
        3 => "3",
        4 => "4",
        5 => "5",
        6 => "6",
        7 => "7",
        8 => "8",
        _ => "9",
    };
    proof {
        assert(r@ =~= seq![digit_char(d as int)]);
    }
    r
}

/// Renders a non-negative integer in decimal.
pub fn render_u64(n: u64) -> (r: String)
    ensures
        r@ == dec_str(n as int),
    decreases n,
{
    if n < 10 {
        String::from_str(digit_str(n))
    } else {
        let prefix = render_u64(n / 10);
        prefix.concat(digit_str(n % 10))
    }
}

/// Renders a value in hundredths with exactly two decimal places.
pub fn render_fixed2(n: u64) -> (r: String)
    ensures
        r@ == fixed2_str(n as int),
{
    let whole = render_u64(n / 100);
    let r = whole.concat(".").concat(digit_str((n % 100) / 10)).concat(digit_str(n % 10));
    proof {
        reveal_strlit(".");
        assert(r@ =~= fixed2_str(n as int));
    }
    r
}

/// Renders a signed value in hundredths with exactly two decimal places.
pub fn render_fixed2_i64(n: i64) -> (r: String)
    ensures
        r@ == fixed2_str_i64(n as int),
{
    if n < 0 {
        let magnitude: u64 = ((-(n + 1)) as u64) + 1;
        assert(magnitude == -(n as int));
        let rendered = render_fixed2(magnitude);
        let r = String::from_str("-").concat(rendered.as_str());
        proof {
            reveal_strlit("-");
            assert(r@ =~= fixed2_str_i64(n as int));
        }
        r
    } else {
        render_fixed2(n as u64)
    }
}

} // verus!
