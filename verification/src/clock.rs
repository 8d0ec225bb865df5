//! The wall clock. Timestamps come from an outside crate and depend on the
//! moment of the call, so nothing is assumed about their value.

use vstd::prelude::*;

verus! {

/// Relies on chrono: `Utc::now()` reads the wall clock and `to_rfc3339`
/// renders it as an RFC 3339 / ISO 8601 timestamp such as
/// `1996-12-19T16:39:57+00:00`. The value depends on the clock, so nothing
/// is assumed of it beyond being non-empty.
#[verifier::external_body]
pub(crate) fn now_rfc3339() -> (r: String)
    ensures
        r@.len() > 0,
{
    chrono::Utc::now().to_rfc3339()
}

} // verus!
