//! Quantities. A quantity of wood is a whole number of thousandths of a cord,
//! a distance a whole number of thousandths of a mile: three decimal places,
//! and no rounding in between. Where a quantity is written down, as in the
//! audit log, it is written as the decimal number that it stands for.

use vstd::prelude::*;
use vstd::string::StringExecFns;
use crate::text::{append_digits, decimal_digits, digit_char, digit_str, opt_text};

verus! {

/// How many thousandths make one: one cord of wood, one mile.
pub const PER_UNIT: i64 = 1000;

/// The decimal places of a number of thousandths below one, without zeros at
/// the end: `5` for 500 thousandths, `125` for 125, `05` for 50.
pub open spec fn decimal_places(part: nat) -> Seq<char>
    recommends
        0 < part < 1000,
{
    let first = seq![digit_char(part / 100)];
    if part % 100 == 0 {
        first
    } else if part % 10 == 0 {
        first.push(digit_char(part / 10 % 10))
    } else {
        first.push(digit_char(part / 10 % 10)).push(digit_char(part % 10))
    }
}

/// A quantity that is not negative as a decimal number: the whole part, and,
/// where the quantity is no whole number, a point and the decimal places.
pub open spec fn unsigned_decimal(size: nat) -> Seq<char> {
    if size % 1000 == 0 {
        decimal_digits(size / 1000)
    } else {
        decimal_digits(size / 1000) + seq!['.'] + decimal_places(size % 1000)
    }
}

/// A quantity as a decimal number, with `-` before a negative one: `4` for
/// 4000 thousandths, `4.5` for 4500, `0.125` for 125, `-0.05` for -50.
pub open spec fn decimal_number(quantity: int) -> Seq<char> {
    if quantity < 0 {
        seq!['-'] + unsigned_decimal((-quantity) as nat)
    } else {
        unsigned_decimal(quantity as nat)
    }
}

/// The quantity as a decimal number, if there is one.
pub open spec fn opt_decimal_number(quantity: Option<i64>) -> Option<Seq<char>> {
    match quantity {
        Some(number) => Some(decimal_number(number as int)),
        None => None,
    }
}

/// A quantity as a decimal number (see `decimal_number`).
pub fn quantity_text(quantity: i64) -> (text: String)
    ensures
        text@ == decimal_number(quantity as int),
{
    let mut text = String::new();
    let size: u64 = if quantity == i64::MIN {
        9223372036854775808u64
    } else if quantity < 0 {
        (-quantity) as u64
    } else {
        quantity as u64
    };
    if quantity < 0 {
        proof {
            reveal_strlit("-");
        }
        text.append("-");
    }
    let ghost sign = text@;
    append_digits(&mut text, size / 1000);
    let part: u64 = size % 1000;
    if part != 0 {
        proof {
            reveal_strlit(".");
        }
        text.append(".");
        text.append(digit_str(part / 100));
        if part % 100 != 0 {
            text.append(digit_str(part / 10 % 10));
            if part % 10 != 0 {
                text.append(digit_str(part % 10));
            }
        }
        assert(text@ =~= sign + (decimal_digits((size / 1000) as nat) + seq!['.'] + decimal_places(
            part as nat,
        )));
    }
    assert(text@ =~= sign + unsigned_decimal(size as nat));
    assert(text@ =~= decimal_number(quantity as int));
    text
}

/// The quantity as a decimal number, if there is one.
pub fn opt_quantity_text(quantity: Option<i64>) -> (text: Option<String>)
    ensures
        opt_text(text) == opt_decimal_number(quantity),
{
    match quantity {
        Some(number) => Some(quantity_text(number)),
        None => None,
    }
}

} // verus!
