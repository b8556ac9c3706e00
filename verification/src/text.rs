//! The decimal rendering of unsigned numbers, as the contracts speak of it,
//! and the shapes of the composed text fields: a street address, a tracking
//! code, a dimensions label.

use vstd::prelude::*;

verus! {

/// The decimal digit character for a value below ten.
pub open spec fn digit_char(d: u64) -> char
    recommends
        d < 10,
{
    if d == 0 {
        '0'
    } else if d == 1 {
        '1'
    } else if d == 2 {
        '2'
    } else if d == 3 {
        '3'
    } else if d == 4 {
        '4'
    } else if d == 5 {
        '5'
    } else if d == 6 {
        '6'
    } else if d == 7 {
        '7'
    } else if d == 8 {
        '8'
    } else {
        '9'
    }
}

/// The decimal rendering of an unsigned number: most significant digit
/// first, no sign, no leading zeros (a lone zero for zero itself).
pub open spec fn decimal_digits(n: u64) -> Seq<char>
    decreases n,
{
    if n < 10 {
        seq![digit_char(n)]
    } else {
        decimal_digits(n / 10).push(digit_char(n % 10))
    }
}

/// The shape of a generated street address: a building number below 1000,
/// a space, a street number below 100, and the street suffix.
pub open spec fn is_street_address(s: Seq<char>) -> bool {
    exists|building: u64, street: u64|
        1 <= building < 1000 && 1 <= street < 100 && s == decimal_digits(building) + " "@
            + decimal_digits(street) + " St."@
}

/// The shape of a generated tracking code: the fixed prefix and a
/// four-digit number.
pub open spec fn is_tracking_code(s: Seq<char>) -> bool {
    exists|n: u64| 1000 <= n < 9999 && s == "TRACK-"@ + decimal_digits(n)
}

/// The shape of a generated dimensions label: three numbers in 10..100
/// separated by the times mark.
pub open spec fn is_dimensions_label(s: Seq<char>) -> bool {
    exists|length: u64, width: u64, height: u64|
        10 <= length < 100 && 10 <= width < 100 && 10 <= height < 100 && s == decimal_digits(
            length,
        ) + "x"@ + decimal_digits(width) + "x"@ + decimal_digits(height)
}

} // verus!
