use vstd::prelude::*;

verus! {

/// Relies on `std::time::SystemTime::now`, chrono's `From<SystemTime>` for
/// `DateTime<Utc>` and `DateTime::timestamp`: the system clock as whole seconds
/// since the Unix epoch (UTC), negative for a clock set before the epoch. The
/// value depends on the machine's clock, so nothing is promised of it.
#[verifier::external_body]
pub(crate) fn now_utc_seconds() -> (r: i64) {
    chrono::DateTime::<chrono::Utc>::from(std::time::SystemTime::now()).timestamp()
}

} // verus!
