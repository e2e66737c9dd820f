//! The current time and fresh identifiers, which come from outside the
//! library and are promised nothing beyond their shape.

use vstd::prelude::*;

verus! {

/// The current time in milliseconds since the Unix epoch:
/// `chrono::Utc::now().timestamp_millis()`. It depends on the clock, so
/// nothing is promised of it.
#[verifier::external_body]
pub(crate) fn now_millis() -> (r: i64) {
    chrono::Utc::now().timestamp_millis()
}

/// A fresh random identifier: `uuid::Uuid::new_v4()` written out in its
/// hyphenated form, which has 36 characters. Which identifier comes out
/// is left to chance.
#[verifier::external_body]
pub(crate) fn new_uuid() -> (r: String)
    ensures
        r@.len() == 36,
{
    uuid::Uuid::new_v4().to_string()
}

} // verus!
