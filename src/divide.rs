//! Dividing the length of an optional text, with division by zero reported
//! as an error instead of a panic.

use vstd::prelude::*;

verus! {

/// Number of characters of an optional text; an absent text counts as empty.
pub open spec fn opt_len(input: Option<&str>) -> int {
    match input {
        Some(s) => s@.len() as int,
        None => 0,
    }
}

/// The message carried by the error of `divide_length`.
pub open spec fn division_by_zero_msg() -> Seq<char> {
    "Division by zero"@
}

/// Quotient of `n` by a non-zero `d`, truncated toward zero, for `n >= 0`.
pub open spec fn trunc_div(n: int, d: int) -> int {
    if d > 0 {
        n / d
    } else {
        -(n / -d)
    }
}

/// What `divide_length` returns: the error message for a zero divisor, and
/// otherwise the truncated quotient of the input's length by the divisor.
pub open spec fn divide_result(input: Option<&str>, divisor: i32) -> Result<int, Seq<char>> {
    if divisor == 0 {
        Err(division_by_zero_msg())
    } else {
        Ok(trunc_div(opt_len(input), divisor as int))
    }
}

/// Whether an executable result carries what `expected` describes.
pub open spec fn result_matches(r: Result<i32, String>, expected: Result<int, Seq<char>>) -> bool {
    match (r, expected) {
        (Ok(q), Ok(e)) => q == e,
        (Err(m), Err(e)) => m@ == e,
        _ => false,
    }
}

/// Divides the number of characters of `input` (zero when absent) by
/// `divisor`, truncating toward zero. A zero divisor gives
/// `Err("Division by zero")`, whatever the input; the length is then never
/// computed. Otherwise the quotient must fit in an `i32`.
pub fn divide_length(input: Option<&str>, divisor: i32) -> (r: Result<i32, String>)
    requires
        divisor == 0 || i32::MIN <= trunc_div(opt_len(input), divisor as int) <= i32::MAX,
    ensures
        result_matches(r, divide_result(input, divisor)),
{
    if divisor == 0 {
        return Err(String::from_str("Division by zero"));
    }
    let text: &str = match input {
        Some(s) => s,
        None => "",
    };
    proof {
        reveal_strlit("");
    }
    let length: usize = text.unicode_len();
    let magnitude: u64 = if divisor > 0 {
        divisor as u64
    } else {
        (-(divisor as i64)) as u64
    };
    let q: u64 = length as u64 / magnitude;
    if divisor > 0 {
        Ok(q as i32)
    } else {
        Ok((-(q as i64)) as i32)
    }
}

} // verus!
