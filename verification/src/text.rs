//! Decimal rendering of identifiers, for response bodies such as the
//! not-found message of the book endpoint.

use vstd::prelude::*;
use vstd::string::StringExecFns;

verus! {

/// The decimal digit character for a value in 0..10.
pub open spec fn spec_digit_char(d: int) -> char {
    if d == 0 {
        '0'
    } else if d == 1 {
        '1'
    } else if d == 2 {
        '2'
    } else if d == 3 {
        '3'
    } else if d == 4 {
        '4'
    } else if d == 5 {
        '5'
    } else if d == 6 {
        '6'
    } else if d == 7 {
        '7'
    } else if d == 8 {
        '8'
    } else {
        '9'
    }
}

/// The usual base-10 rendering of a natural number: no sign, no leading
/// zeros (except for the number 0 itself).
pub open spec fn spec_decimal_nat(n: nat) -> Seq<char>
    decreases n,
{
    if n < 10 {
        seq![spec_digit_char(n as int)]
    } else {
        spec_decimal_nat(n / 10) + seq![spec_digit_char((n % 10) as int)]
    }
}

/// The base-10 rendering of an integer: a leading '-' for negatives.
pub open spec fn spec_decimal_int(n: int) -> Seq<char> {
    if n < 0 {
        seq!['-'] + spec_decimal_nat((-n) as nat)
    } else {
        spec_decimal_nat(n as nat)
    }
}

/// The one-character string for a decimal digit.
fn digit_str(d: u64) -> (r: &'static str)
    requires
        d < 10,
    ensures
        r@ == seq![spec_digit_char(d as int)],
{
    let r: &'static str = if d == 0 {
        "0"
    } else if d == 1 {
        "1"
    } else if d == 2 {
        "2"
    } else if d == 3 {
        "3"
    } else if d == 4 {
        "4"
    } else if d == 5 {
        "5"
    } else if d == 6 {
        "6"
    } else if d == 7 {
        "7"
    } else if d == 8 {
        "8"
    } else {
        "9"
    };
    proof {
        reveal_strlit("0");
        reveal_strlit("1");
        reveal_strlit("2");
        reveal_strlit("3");
        reveal_strlit("4");
        reveal_strlit("5");
        reveal_strlit("6");
        reveal_strlit("7");
        reveal_strlit("8");
        reveal_strlit("9");
        assert(r@ =~= seq![spec_digit_char(d as int)]);
    }
    r
}

/// Renders an unsigned 64-bit value in decimal.
pub fn u64_to_decimal(n: u64) -> (r: String)
    ensures
        r@ == spec_decimal_nat(n as nat),
    decreases n,
{
    if n < 10 {
        digit_str(n).to_owned()
    } else {
        let mut r = u64_to_decimal(n / 10);
        r.append(digit_str(n % 10));
        r
    }
}

/// Renders a signed 64-bit value in decimal, with a leading '-' for
/// negatives.
pub fn i64_to_decimal(n: i64) -> (r: String)
    ensures
        r@ == spec_decimal_int(n as int),
{
    if n >= 0 {
        u64_to_decimal(n as u64)
    } else {
        let mut r = "-".to_owned();
        let mag: u64 = ((-(n + 1)) as u64) + 1;
        let digits = u64_to_decimal(mag);
        r.append(digits.as_str());
        proof {
            reveal_strlit("-");
            assert(r@ =~= spec_decimal_int(n as int));
        }
        r
    }
}

/// The exact 404 body of the book endpoint for a missing identifier.
pub open spec fn spec_not_found_message(id: int) -> Seq<char> {
    "Book "@ + spec_decimal_int(id) + " not found"@
}

/// Builds "Book {id} not found" for the given identifier.
pub fn not_found_message(id: i64) -> (r: String)
    ensures
        r@ == spec_not_found_message(id as int),
{
    let mut r = "Book ".to_owned();
    let digits = i64_to_decimal(id);
    r.append(digits.as_str());
    r.append(" not found");
    r
}

} // verus!
