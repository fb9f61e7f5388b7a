//! The wall clock the lifecycle tracker stamps its transitions with.

use vstd::prelude::*;

verus! {

/// Relies on std::time::SystemTime::now and duration_since: the
/// milliseconds since the Unix epoch, or 0 if the clock reads before
/// it.  Nothing is promised of the value: real clocks may jump.
#[verifier::external_body]
pub fn now_millis() -> u64 {
    match std::time::SystemTime::now().duration_since(std::time::UNIX_EPOCH) {
        Ok(d) => {
            let ms = d.as_millis();
            if ms > u64::MAX as u128 {
                u64::MAX
            } else {
                ms as u64
            }
        },
        Err(_) => 0,
    }
}

} // verus!
