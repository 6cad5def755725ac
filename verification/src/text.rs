//! Decimal text for fixed-point numbers.
//!
//! Every quantity in this crate is an `i64` holding ten-thousandths of a
//! unit.  G-code output rounds each number to three decimals (half away from
//! zero) and trims trailing zeros, so `29500` prints as `2.95` and `20000`
//! prints as `2`.  The spec functions here define those strings exactly and
//! the exec functions are proved to produce them.

use vstd::prelude::*;

verus! {

/// The character for one decimal digit.
pub open spec fn digit_char(d: int) -> char {
    if d == 0 {
        '0'
    } else if d == 1 {
        '1'
    } else if d == 2 {
        '2'
    } else if d == 3 {
        '3'
    } else if d == 4 {
        '4'
    } else if d == 5 {
        '5'
    } else if d == 6 {
        '6'
    } else if d == 7 {
        '7'
    } else if d == 8 {
        '8'
    } else {
        '9'
    }
}

/// The decimal digits of a natural number, most significant first.
pub open spec fn dec_str(n: nat) -> Seq<char>
    decreases n,
{
    if n < 10 {
        seq![digit_char(n as int)]
    } else {
        dec_str(n / 10) + seq![digit_char((n % 10) as int)]
    }
}

/// Three-decimal rounding, half away from zero: the value in thousandths
/// closest to `v` thousandths-of-ten (`v` is in ten-thousandths).
pub open spec fn round_to_milli(v: int) -> int {
    if v >= 0 {
        (v + 5) / 10
    } else {
        -(((-v) + 5) / 10)
    }
}

/// The fractional part of a three-decimal number, trailing zeros trimmed;
/// `fp` is in thousandths, `0 <= fp < 1000`.  Empty when `fp` is zero.
pub open spec fn frac3_str(fp: int) -> Seq<char> {
    let d1 = digit_char(fp / 100);
    let d2 = digit_char((fp / 10) % 10);
    let d3 = digit_char(fp % 10);
    if fp == 0 {
        Seq::<char>::empty()
    } else if fp % 10 != 0 {
        seq!['.', d1, d2, d3]
    } else if fp % 100 != 0 {
        seq!['.', d1, d2]
    } else {
        seq!['.', d1]
    }
}

/// The text of a value given in thousandths: sign, integer part, then the
/// trimmed fraction.
pub open spec fn milli_str(m: int) -> Seq<char> {
    let a = if m < 0 { -m } else { m };
    let sign = if m < 0 { seq!['-'] } else { Seq::<char>::empty() };
    sign + dec_str((a / 1000) as nat) + frac3_str(a % 1000)
}

/// The G-code text of a fixed-point value: rounded to three decimals, then
/// printed with trailing zeros trimmed.
pub open spec fn num_str(v: int) -> Seq<char> {
    milli_str(round_to_milli(v))
}

/// Two-decimal rounding, half away from zero, to hundredths.
pub open spec fn round_to_centi(v: int) -> int {
    if v >= 0 {
        (v + 50) / 100
    } else {
        -(((-v) + 50) / 100)
    }
}

/// The text of a fixed-point value rounded to two decimals, both fraction
/// digits always printed, as error messages quote dimensions.
pub open spec fn num2_str(v: int) -> Seq<char> {
    let m = round_to_centi(v);
    let a = if m < 0 { -m } else { m };
    let sign = if m < 0 { seq!['-'] } else { Seq::<char>::empty() };
    sign + dec_str((a / 100) as nat) + seq!['.', digit_char((a / 10) % 10), digit_char(a % 10)]
}

/// One decimal digit as a string slice.
fn digit_text(d: u64) -> (s: &'static str)
    requires
        d < 10,
    ensures
        s@ == seq![digit_char(d as int)],
{
    proof {
        reveal_strlit("0");
        reveal_strlit("1");
        reveal_strlit("2");
        reveal_strlit("3");
        reveal_strlit("4");
        reveal_strlit("5");
        reveal_strlit("6");
        reveal_strlit("7");
        reveal_strlit("8");
        reveal_strlit("9");
        assert("0"@ =~= seq![digit_char(0)]);
        assert("1"@ =~= seq![digit_char(1)]);
        assert("2"@ =~= seq![digit_char(2)]);
        assert("3"@ =~= seq![digit_char(3)]);
        assert("4"@ =~= seq![digit_char(4)]);
        assert("5"@ =~= seq![digit_char(5)]);
        assert("6"@ =~= seq![digit_char(6)]);
        assert("7"@ =~= seq![digit_char(7)]);
        assert("8"@ =~= seq![digit_char(8)]);
        assert("9"@ =~= seq![digit_char(9)]);
    }
    match d {
        0 => "0",
        1 => "1",
        2 => "2",
        3 => "3",
        4 => "4",
        5 => "5",
        6 => "6",
        7 => "7",
        8 => "8",
        _ => "9",
    }
}

/// The decimal text of a natural number.
pub fn format_u64(n: u64) -> (s: String)
    ensures
        s@ == dec_str(n as nat),
    decreases n,
{
    if n < 10 {
        String::from_str(digit_text(n))
    } else {
        let mut s = format_u64(n / 10);
        s.append(digit_text(n % 10));
        s
    }
}

/// The G-code text of a fixed-point value: three decimals, half away from
/// zero, trailing zeros trimmed.
pub fn format_num(v: i64) -> (s: String)
    ensures
        s@ == num_str(v as int),
{
    let a: u64 = if v < 0 {
        ((-(v + 1)) as u64) + 1
    } else {
        v as u64
    };
    let m: u64 = (a + 5) / 10;
    let ip: u64 = m / 1000;
    let fp: u64 = m % 1000;
    let mut s = if v < 0 && m > 0 {
        String::from_str("-")
    } else {
        String::new()
    };
    proof {
        reveal_strlit("-");
        assert("-"@ =~= seq!['-']);
        assert(round_to_milli(v as int) == if v < 0 { -(m as int) } else { m as int });
    }
    s.append(format_u64(ip).as_str());
    if fp > 0 {
        s.append(".");
        proof {
            reveal_strlit(".");
            assert("."@ =~= seq!['.']);
        }
        let d1 = fp / 100;
        let d2 = (fp / 10) % 10;
        let d3 = fp % 10;
        if d3 != 0 {
            s.append(digit_text(d1));
            s.append(digit_text(d2));
            s.append(digit_text(d3));
        } else if d2 != 0 {
            s.append(digit_text(d1));
            s.append(digit_text(d2));
        } else {
            s.append(digit_text(d1));
        }
    }
    proof {
        assert(s@ =~= num_str(v as int));
    }
    s
}

/// The two-decimal text of a fixed-point value, both digits printed.
pub fn format_num2(v: i64) -> (s: String)
    ensures
        s@ == num2_str(v as int),
{
    let a: u64 = if v < 0 {
        ((-(v + 1)) as u64) + 1
    } else {
        v as u64
    };
    let m: u64 = (a + 50) / 100;
    let mut s = if v < 0 && m > 0 {
        String::from_str("-")
    } else {
        String::new()
    };
    proof {
        reveal_strlit("-");
        assert("-"@ =~= seq!['-']);
        assert(round_to_centi(v as int) == if v < 0 { -(m as int) } else { m as int });
    }
    s.append(format_u64(m / 100).as_str());
    s.append(".");
    proof {
        reveal_strlit(".");
        assert("."@ =~= seq!['.']);
    }
    s.append(digit_text((m / 10) % 10));
    s.append(digit_text(m % 10));
    proof {
        assert(s@ =~= num2_str(v as int));
    }
    s
}

} // verus!
