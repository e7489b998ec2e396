//! The one clock reading a backing-up save needs.

use vstd::prelude::*;

verus! {

/// Relies on time::OffsetDateTime::now_utc and unix_timestamp: the current
/// wall-clock time as seconds since the Unix epoch. Nothing can be promised
/// of the value; callers state what holds whatever it is.
#[verifier::external_body]
pub(crate) fn now_unix_timestamp() -> (r: i64) {
    time::OffsetDateTime::now_utc().unix_timestamp()
}

} // verus!
