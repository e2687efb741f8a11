//! Division that reports a zero denominator as a value rather than a panic.
use vstd::prelude::*;

verus! {

/// Quotient of `numerator` by `denominator`, or `None` when the denominator is zero.
pub fn there_is_no_null(numerator: u8, denominator: u8) -> (r: Option<u8>)
    ensures
        denominator == 0 ==> r is None,
        denominator != 0 ==> r == Some((numerator / denominator) as u8),
{
    if denominator == 0 {
        None
    } else {
        Some(numerator / denominator)
    }
}

/// Quotient of `numerator` by `denominator`, or an explanation when the
/// denominator is zero.
pub fn there_is_no_exception(numerator: u8, denominator: u8) -> (r: Result<u8, &'static str>)
    ensures
        denominator == 0 ==> r is Err && r->Err_0@ == "You can't divide by zero"@,
        denominator != 0 ==> r == Ok::<u8, &'static str>((numerator / denominator) as u8),
{
    if denominator == 0 {
        Err("You can't divide by zero")
    } else {
        Ok(numerator / denominator)
    }
}

} // verus!
