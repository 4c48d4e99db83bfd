//! The few calls the generator makes into outside crates: fresh unique
//! identifiers and the current time. Both are inherently nondeterministic,
//! so their contracts state only what holds of every outcome.

use vstd::prelude::*;

verus! {

/// A free-form settings override a field declaration may carry. The
/// generator threads it through unread, so it stays opaque here.
#[verifier::external_type_specification]
#[verifier::external_body]
pub struct ExValue(serde_json::Value);

/// Relies on `uuid::Uuid::new_v4` and its `Display` impl: a freshly drawn
/// random identifier, rendered in the hyphenated form, which is always
/// 36 ASCII characters. The value itself is random, so nothing more is
/// promised of it.
#[verifier::external_body]
pub(crate) fn fresh_uid() -> (r: String)
    ensures
        r@.len() == 36,
{
    uuid::Uuid::new_v4().to_string()
}

/// Relies on `chrono::Utc::now` and `DateTime::to_rfc3339`: the current
/// wall-clock time as an RFC 3339 timestamp. The clock decides the value,
/// so nothing is promised of it.
#[verifier::external_body]
pub(crate) fn now_rfc3339() -> String {
    chrono::Utc::now().to_rfc3339()
}

/// Relies on `chrono::Utc::now` and `DateTime::timestamp`: the current
/// wall-clock time in whole seconds since the Unix epoch. The clock
/// decides the value, so nothing is promised of it.
#[verifier::external_body]
pub(crate) fn now_unix_seconds() -> i64 {
    chrono::Utc::now().timestamp()
}

} // verus!
