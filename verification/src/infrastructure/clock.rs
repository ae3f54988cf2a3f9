//! The clock by which rows are stamped.

use vstd::prelude::*;

verus! {

/// The present moment as RFC 3339 text.
///
/// Reads the system clock with `std::time::SystemTime::now`, turns the
/// reading into a `chrono::DateTime<chrono::Utc>` with chrono's `From`, which
/// takes a reading on either side of 1970, and renders it with
/// `chrono::DateTime::to_rfc3339`. Nothing is claimed of the text: it is
/// whatever the clock shows.
#[verifier::external_body]
pub(crate) fn now_rfc3339() -> (now: String) {
    chrono::DateTime::<chrono::Utc>::from(std::time::SystemTime::now()).to_rfc3339()
}

} // verus!
