//! Fresh identifiers and the current time, from outside crates.
//!
//! Both depend on chance or the clock, so callers learn only what holds of
//! every outcome; the library's logic takes their results as arguments.
use vstd::prelude::*;

verus! {

/// A fresh random identifier.
///
/// Trusted: calls `uuid::Uuid::new_v4()` and renders it with `to_string()`,
/// which in the `uuid` crate writes the hyphenated lower-case form of
/// 36 characters. Nothing is stated of which identifier comes back.
#[verifier::external_body]
pub(crate) fn new_uuid_string() -> (r: String)
    ensures
        r@.len() == 36,
{
    uuid::Uuid::new_v4().to_string()
}

/// The current UTC time as an RFC 3339 string.
///
/// Trusted: calls `chrono::Utc::now().to_rfc3339()`. The result depends on
/// the clock, so nothing is stated of it.
#[verifier::external_body]
pub(crate) fn now_rfc3339() -> (r: String) {
    chrono::Utc::now().to_rfc3339()
}

} // verus!
