//! Calls into the outside crates that the logic relies on, with what each
//! call is assumed to return.

use vstd::prelude::*;

verus! {

#[verifier::external_type_specification]
#[verifier::external_body]
pub struct ExUrl(url::Url);

#[verifier::external_type_specification]
#[verifier::external_body]
pub struct ExUrlParseError(url::ParseError);

/// The mantissa and scale that `rust_decimal` reads from a decimal text, or
/// `None` where it refuses the text.
pub uninterp spec fn decimal_of(s: Seq<char>) -> Option<(i128, u32)>;

/// Whether `chrono` can represent a UTC instant this many milliseconds from
/// the Unix epoch.
pub uninterp spec fn millis_representable(ms: i64) -> bool;

/// The lower-case form of a text, as `str::to_lowercase` gives it.
pub uninterp spec fn lower_of(s: Seq<char>) -> Seq<char>;

/// Whether the `url` crate accepts a text as an absolute URL.
pub uninterp spec fn url_accepts(s: Seq<char>) -> bool;

/// Relies on `<rust_decimal::Decimal as FromStr>::from_str`, then on
/// `Decimal::mantissa` and `Decimal::scale`: the outcome depends on the text
/// alone.
#[verifier::external_body]
pub(crate) fn parse_decimal(s: &str) -> (r: Option<(i128, u32)>)
    ensures
        r == decimal_of(s@),
{
    match s.parse::<rust_decimal::Decimal>() {
        Ok(d) => Some((d.mantissa(), d.scale())),
        Err(_) => None,
    }
}

/// Relies on `chrono::DateTime::from_timestamp_millis`: `None` only for a
/// count of milliseconds out of chrono's range, which depends on the count
/// alone.
#[verifier::external_body]
pub(crate) fn timestamp_in_range(ms: i64) -> (r: bool)
    ensures
        r == millis_representable(ms),
{
    chrono::DateTime::from_timestamp_millis(ms).is_some()
}

/// Relies on `str::to_lowercase`: the result depends on the characters alone.
#[verifier::external_body]
pub(crate) fn lowercase(s: &str) -> (r: String)
    ensures
        r@ == lower_of(s@),
{
    s.to_lowercase()
}

/// Relies on `url::Url::parse`: whether it succeeds depends on the text
/// alone.
#[verifier::external_body]
pub(crate) fn parse_url(s: &str) -> (r: Result<url::Url, url::ParseError>)
    ensures
        r is Ok <==> url_accepts(s@),
{
    url::Url::parse(s)
}

} // verus!
