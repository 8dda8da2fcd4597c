//! Counter derivation: from a wall-clock reading to the RFC 6238 time-step.

use vstd::prelude::*;
use std::time::SystemTime;
use std::time::UNIX_EPOCH;
use crate::code::generate_code;
use crate::code::totp_code;
use crate::errors::TotpError;

verus! {

/// A wall-clock observation, reduced to whole seconds relative to the Unix
/// epoch.  A clock set before the epoch is surfaced, not coerced to zero:
/// an underflowed reading would otherwise produce a wrong but valid-looking
/// code.
#[derive(Debug, Clone, Copy, PartialEq, Eq, Structural)]
pub enum ClockReading {
    /// The clock stands `0` whole seconds at or after the Unix epoch.
    SinceEpoch(u64),
    /// The clock stands this many whole seconds before the Unix epoch.
    BeforeEpoch(u64),
}

/// Relies on `std::time::SystemTime`: `now` observed relative to
/// `UNIX_EPOCH` by `duration_since`, whose error case reports how far the
/// clock stands before the epoch.  The reading is the machine's current
/// time, so nothing is promised about the value.
#[verifier::external_body]
fn read_clock() -> ClockReading {
    match SystemTime::now().duration_since(UNIX_EPOCH) {
        Ok(since) => ClockReading::SinceEpoch(since.as_secs()),
        Err(before) => ClockReading::BeforeEpoch(before.duration().as_secs()),
    }
}

/// Turns a clock reading into the RFC 6238 counter: the number of complete
/// `step_seconds`-long intervals since the epoch, truncated toward zero.  A
/// reading before the epoch is `ClockError` and derives no counter.
pub fn derive_counter(now: ClockReading, step_seconds: u64) -> (r: Result<u64, TotpError>)
    requires
        step_seconds > 0,
    ensures
        r is Ok <==> now is SinceEpoch,
        now is SinceEpoch ==> r == Ok::<u64, TotpError>(now->SinceEpoch_0 / step_seconds),
        now is BeforeEpoch ==> r == Err::<u64, TotpError>(TotpError::ClockError(
            now->BeforeEpoch_0,
        )),
{
    match now {
        ClockReading::SinceEpoch(seconds) => Ok(seconds / step_seconds),
        ClockReading::BeforeEpoch(behind) => Err(TotpError::ClockError(behind)),
    }
}

/// The code that a clock reading of `seconds` since the epoch leads to: the
/// code of its time-step counter.
pub open spec fn code_at(key: Seq<u8>, seconds: u64, step: u64, digits: u32) -> Seq<char> {
    totp_code(key, seconds / step, digits)
}

/// Two clock readings that fall in the same time-step lead to the same
/// code; once the step differs the code is recomputed from the new counter
/// (the codes may still coincide, but each is `totp_code` of its own
/// counter).
pub proof fn lemma_same_step_same_code(key: Seq<u8>, t1: u64, t2: u64, step: u64, digits: u32)
    requires
        step > 0,
        t1 / step == t2 / step,
    ensures
        code_at(key, t1, step, digits) == code_at(key, t2, step, digits),
{
}

/// Reads the system clock and computes the current one-time code for the
/// decoded secret: whatever time the clock reports, the result is the code
/// of that reading's time-step counter, and a clock before the epoch is the
/// only failure.
pub fn generate_totp(step: u64, digits: u32, secret: &Vec<u8>) -> (r: Result<String, TotpError>)
    requires
        step > 0,
        1 <= digits && digits <= 9,
    ensures
        r is Ok ==> (exists|now: u64| r->Ok_0@ == #[trigger] code_at(secret@, now, step, digits)),
        r is Ok ==> r->Ok_0@.len() == digits,
        r is Err ==> r->Err_0 is ClockError,
{
    let now = read_clock();
    match derive_counter(now, step) {
        Ok(counter) => {
            let code = generate_code(secret, counter, digits);
            proof {
                // The clock reading itself witnesses the postcondition.
                assert(code@ == code_at(secret@, now->SinceEpoch_0, step, digits));
            }
            Ok(code)
        },
        Err(e) => Err(e),
    }
}

} // verus!
