//! Human-readable formatting of byte counts.
//!
//! A count below one kilobyte is printed as plain bytes; from each exact
//! power of 1024 upward the next unit is used, with one decimal place.
//! The decimal place is rounded to the nearest tenth, ties going to the
//! even tenth.

use vstd::arithmetic::div_mod::lemma_div_is_ordered;
use vstd::arithmetic::div_mod::lemma_div_is_ordered_by_denominator;
use vstd::arithmetic::div_mod::lemma_div_pos_is_pos;
use vstd::prelude::*;
use vstd::string::StringExecFns;

verus! {

/// Bytes in one kilobyte.
pub const KB: i64 = 1024;

/// Bytes in one megabyte.
pub const MB: i64 = 1024 * 1024;

/// Bytes in one gigabyte.
pub const GB: i64 = 1024 * 1024 * 1024;

/// The character of one decimal digit.
pub open spec fn digit_char(d: int) -> char {
    if d == 0 {
        '0'
    } else if d == 1 {
        '1'
    } else if d == 2 {
        '2'
    } else if d == 3 {
        '3'
    } else if d == 4 {
        '4'
    } else if d == 5 {
        '5'
    } else if d == 6 {
        '6'
    } else if d == 7 {
        '7'
    } else if d == 8 {
        '8'
    } else {
        '9'
    }
}

/// Decimal digits of a non-negative integer, most significant first.
pub open spec fn dec_digits(n: int) -> Seq<char>
    recommends
        n >= 0,
    decreases n,
{
    if n < 10 {
        seq![digit_char(n)]
    } else {
        dec_digits(n / 10).push(digit_char(n % 10))
    }
}

/// Decimal digits of a signed integer: a minus sign ahead of the
/// magnitude when the value is negative.
pub open spec fn int_digits(n: int) -> Seq<char> {
    if n < 0 {
        seq!['-'] + dec_digits(-n)
    } else {
        dec_digits(n)
    }
}

/// `size / unit` in tenths, rounded to the nearest tenth with ties going
/// to the even tenth.
pub open spec fn scaled_tenths(size: int, unit: int) -> int
    recommends
        0 < unit <= size,
{
    let q = (size * 10) / unit;
    let r = (size * 10) % unit;
    if 2 * r > unit {
        q + 1
    } else if 2 * r == unit && q % 2 == 1 {
        q + 1
    } else {
        q
    }
}

/// `size` scaled by `unit`, printed with one decimal place.
pub open spec fn scaled_digits(size: int, unit: int) -> Seq<char>
    recommends
        0 < unit <= size,
{
    let t = scaled_tenths(size, unit);
    dec_digits(t / 10) + seq!['.'] + seq![digit_char(t % 10)]
}

/// The formatted text for a byte count: the largest unit not above the
/// count, so that an exact power of 1024 is shown in the larger unit.
pub open spec fn size_text(size: int) -> Seq<char> {
    if size >= GB {
        scaled_digits(size, GB as int) + seq!['G', 'B']
    } else if size >= MB {
        scaled_digits(size, MB as int) + seq!['M', 'B']
    } else if size >= KB {
        scaled_digits(size, KB as int) + seq!['K', 'B']
    } else {
        int_digits(size) + seq!['B']
    }
}

/// The string literal for one decimal digit.
fn digit_str(d: u64) -> (r: &'static str)
    requires
        d < 10,
    ensures
        r@ == seq![digit_char(d as int)],
{
    proof {
        reveal_strlit("0");
        reveal_strlit("1");
        reveal_strlit("2");
        reveal_strlit("3");
        reveal_strlit("4");
        reveal_strlit("5");
        reveal_strlit("6");
        reveal_strlit("7");
        reveal_strlit("8");
        reveal_strlit("9");
        assert("0"@ =~= seq!['0']);
        assert("1"@ =~= seq!['1']);
        assert("2"@ =~= seq!['2']);
        assert("3"@ =~= seq!['3']);
        assert("4"@ =~= seq!['4']);
        assert("5"@ =~= seq!['5']);
        assert("6"@ =~= seq!['6']);
        assert("7"@ =~= seq!['7']);
        assert("8"@ =~= seq!['8']);
        assert("9"@ =~= seq!['9']);
    }
    match d {
        0 => "0",
        1 => "1",
        2 => "2",
        3 => "3",
        4 => "4",
        5 => "5",
        6 => "6",
        7 => "7",
        8 => "8",
        _ => "9",
    }
}

/// Appends the decimal digits of `n` to `out`.
pub(crate) fn push_dec(out: &mut String, n: u64)
    ensures
        final(out)@ == old(out)@ + dec_digits(n as int),
    decreases n,
{
    if n >= 10 {
        push_dec(out, n / 10);
        let d = digit_str(n % 10);
        out.append(d);
        proof {
            assert(out@ =~= old(out)@ + dec_digits(n as int));
        }
    } else {
        let d = digit_str(n);
        out.append(d);
        proof {
            assert(out@ =~= old(out)@ + dec_digits(n as int));
        }
    }
}

/// Formats `size / unit` with one decimal place and appends `suffix`.
fn scaled(size: i64, unit: i64, suffix: &'static str) -> (r: String)
    requires
        1024 <= unit <= size,
    ensures
        r@ == scaled_digits(size as int, unit as int) + suffix@,
{
    let ten: i128 = (size as i128) * 10;
    let q: i128 = ten / (unit as i128);
    let rem: i128 = ten % (unit as i128);
    proof {
        lemma_div_pos_is_pos(ten as int, unit as int);
        lemma_div_is_ordered_by_denominator(ten as int, 1024, unit as int);
        lemma_div_is_ordered(ten as int, 10 * (i64::MAX as int), 1024);
    }
    let tenths: i128 = if 2 * rem > unit as i128 {
        q + 1
    } else if 2 * rem == unit as i128 && q % 2 == 1 {
        q + 1
    } else {
        q
    };
    let whole: u64 = (tenths / 10) as u64;
    let frac: u64 = (tenths % 10) as u64;
    let mut out = String::new();
    push_dec(&mut out, whole);
    out.append(".");
    let d = digit_str(frac);
    out.append(d);
    out.append(suffix);
    proof {
        reveal_strlit(".");
        assert(out@ =~= scaled_digits(size as int, unit as int) + suffix@);
    }
    out
}

/// Formats a byte count into a short human-readable string with a unit
/// of B, KB, MB or GB.
pub fn format_size(size: i64) -> (r: String)
    ensures
        r@ == size_text(size as int),
{
    if size >= GB {
        let r = scaled(size, GB, "GB");
        proof {
            reveal_strlit("GB");
            assert(r@ =~= size_text(size as int));
        }
        r
    } else if size >= MB {
        let r = scaled(size, MB, "MB");
        proof {
            reveal_strlit("MB");
            assert(r@ =~= size_text(size as int));
        }
        r
    } else if size >= KB {
        let r = scaled(size, KB, "KB");
        proof {
            reveal_strlit("KB");
            assert(r@ =~= size_text(size as int));
        }
        r
    } else {
        let mut out = String::new();
        if size < 0 {
            out.append("-");
            let mag: u64 = (-(size as i128)) as u64;
            push_dec(&mut out, mag);
        } else {
            push_dec(&mut out, size as u64);
        }
        out.append("B");
        proof {
            reveal_strlit("-");
            reveal_strlit("B");
            assert(out@ =~= size_text(size as int));
        }
        out
    }
}

} // verus!
