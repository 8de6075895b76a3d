use vstd::prelude::*;

verus! {

/// Relies on std::time::SystemTime::now, read as whole milliseconds since the
/// Unix epoch (zero if the clock reads before the epoch). The wall clock is
/// not monotonic, so nothing is promised of the value.
#[verifier::external_body]
pub(crate) fn now_millis() -> u64 {
    match std::time::SystemTime::now().duration_since(std::time::UNIX_EPOCH) {
        Ok(elapsed) => elapsed.as_millis() as u64,
        Err(_) => 0,
    }
}

} // verus!
