use vstd::prelude::*;

verus! {

/// The text of the error reported when a value lies outside `[0, prime)`.
pub uninterp spec fn out_of_range_text(num: u128, prime: u128) -> Seq<char>;

/// Raised when a field element is requested with a value outside the field.
#[derive(Debug)]
pub struct InvalidValueError {
    pub message: String,
}

/// Relies on `format!`: renders both integers in decimal into a fixed sentence
/// that names the rejected value and the half-open range of valid values.
#[verifier::external_body]
pub(crate) fn describe_out_of_range(num: u128, prime: u128) -> (r: String)
    ensures
        r@ == out_of_range_text(num, prime),
{
    format!("num {} not in field range [0, {})", num, prime)
}

} // verus!
