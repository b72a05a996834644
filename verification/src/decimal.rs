//! Decimal text of fixed-point numbers.

use vstd::prelude::*;
use vstd::string::*;

verus! {

/// The text of one decimal digit; of a number that is none, that of nine.
pub open spec fn digit_text(digit: int) -> Seq<char> {
    if digit == 0 {
        "0"@
    } else if digit == 1 {
        "1"@
    } else if digit == 2 {
        "2"@
    } else if digit == 3 {
        "3"@
    } else if digit == 4 {
        "4"@
    } else if digit == 5 {
        "5"@
    } else if digit == 6 {
        "6"@
    } else if digit == 7 {
        "7"@
    } else if digit == 8 {
        "8"@
    } else {
        "9"@
    }
}

/// The decimal text of a natural number, without leading zeros.
pub open spec fn natural_text(n: nat) -> Seq<char>
    decreases n,
{
    if n < 10 {
        digit_text(n as int)
    } else {
        natural_text(n / 10) + digit_text((n % 10) as int)
    }
}

/// The last `digits` decimal digits of a natural number, zeros included.
pub open spec fn padded_text(n: nat, digits: nat) -> Seq<char>
    decreases digits,
{
    if digits == 0 {
        Seq::<char>::empty()
    } else {
        padded_text(n / 10, (digits - 1) as nat) + digit_text((n % 10) as int)
    }
}

/// The text of a number of `scale` units to the one, with `digits` decimal
/// places: a minus sign where the number is negative, the whole part, a
/// point, and the fraction.
pub open spec fn fixed_text(value: int, scale: nat, digits: nat) -> Seq<char> {
    let size = if value < 0 {
        (-value) as nat
    } else {
        value as nat
    };
    let sign = if value < 0 {
        "-"@
    } else {
        Seq::<char>::empty()
    };
    sign + natural_text(size / scale) + "."@ + padded_text(size % scale, digits)
}

fn digit_str(digit: u64) -> (r: &'static str)
    ensures
        r@ == digit_text(digit as int),
{
    match digit {
        0 => "0",
        1 => "1",
        2 => "2",
        3 => "3",
        4 => "4",
        5 => "5",
        6 => "6",
        7 => "7",
        8 => "8",
        _ => "9",
    }
}

/// Appends the decimal text of `n` to `text`.
pub(crate) fn append_natural(text: &mut String, n: u64)
    ensures
        final(text)@ == old(text)@ + natural_text(n as nat),
    decreases n,
{
    if n >= 10 {
        append_natural(text, n / 10);
    }
    text.append(digit_str(n % 10));
    proof {
        let head = old(text)@;
        if n >= 10 {
            assert(final(text)@ == (head + natural_text((n / 10) as nat)) + digit_text(
                (n % 10) as int,
            ));
            assert((head + natural_text((n / 10) as nat)) + digit_text((n % 10) as int) == head
                + (natural_text((n / 10) as nat) + digit_text((n % 10) as int)));
        }
    }
}

/// Appends the last `digits` decimal digits of `n` to `text`.
pub(crate) fn append_padded(text: &mut String, n: u64, digits: u32)
    ensures
        final(text)@ == old(text)@ + padded_text(n as nat, digits as nat),
    decreases digits,
{
    if digits > 0 {
        append_padded(text, n / 10, digits - 1);
        text.append(digit_str(n % 10));
        proof {
            let head = old(text)@;
            let front = padded_text((n / 10) as nat, (digits - 1) as nat);
            assert((head + front) + digit_text((n % 10) as int) == head + (front + digit_text(
                (n % 10) as int,
            )));
        }
    } else {
        assert(old(text)@ + Seq::<char>::empty() == old(text)@);
    }
}

/// Appends to `text` the text of `value`, a number of `scale` units to the
/// one, with `digits` decimal places.
pub(crate) fn append_fixed(text: &mut String, value: i64, scale: u32, digits: u32)
    requires
        scale > 0,
    ensures
        final(text)@ == old(text)@ + fixed_text(value as int, scale as nat, digits as nat),
{
    let size: u64 = if value < 0 {
        (-(value as i128)) as u64
    } else {
        value as u64
    };
    let ghost head = old(text)@;
    let ghost sign = if value < 0 {
        "-"@
    } else {
        Seq::<char>::empty()
    };
    if value < 0 {
        text.append("-");
    }
    assert(text@ == head + sign);
    append_natural(text, size / scale as u64);
    text.append(".");
    append_padded(text, size % scale as u64, digits);
    proof {
        let whole = natural_text((size / scale as u64) as nat);
        let fraction = padded_text((size % scale as u64) as nat, digits as nat);
        assert(text@ == (((head + sign) + whole) + "."@) + fraction);
        assert((((head + sign) + whole) + "."@) + fraction == head + (((sign + whole) + "."@)
            + fraction));
    }
}

} // verus!
