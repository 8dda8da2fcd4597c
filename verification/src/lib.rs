//! Time-based one-time passwords (RFC 6238, HMAC-SHA1, 6-digit codes).
//!
//! The pipeline runs in three verified stages: a base32 secret is validated
//! and decoded into key bytes, the wall clock is turned into a 30-second
//! time-step counter, and the key and counter are combined into a left-zero-
//! padded decimal code by HMAC-SHA1 dynamic truncation.

use vstd::prelude::*;

pub mod args;
pub mod clock;
pub mod code;
pub mod errors;
pub mod secret;

pub use args::Config;
pub use args::parse_args;
pub use clock::ClockReading;
pub use clock::derive_counter;
pub use clock::generate_totp;
pub use code::generate_code;
pub use errors::TotpError;
pub use secret::decode_secret;

use clock::code_at;
use secret::base32_decoded;
use secret::is_accepted_secret_len;
use secret::is_base32_char;
use secret::upper_of;

verus! {

/// RFC 6238 default time-step, in seconds.
pub const DEFAULT_STEP_SECONDS: u64 = 30;

/// Number of decimal digits in a generated code.
pub const DEFAULT_DIGITS: u32 = 6;

/// The whole computing pipeline in one call: validates and decodes the
/// secret, reads the clock, and produces the current code.  The secret is
/// rejected exactly as in `decode_secret`; with a well-formed secret the
/// only failure left is a clock before the epoch.
pub fn totp_for_secret(secret: &str, step: u64, digits: u32) -> (r: Result<String, TotpError>)
    requires
        step > 0,
        1 <= digits && digits <= 9,
    ensures
        !is_accepted_secret_len(secret@.len()) ==> r is Err && r->Err_0
            == TotpError::InvalidSecretLength,
        (is_accepted_secret_len(secret@.len()) && (exists|i: int|
            0 <= i < secret@.len() && !is_base32_char(#[trigger] upper_of(secret@)[i]))) ==> r
            is Err && r->Err_0 == TotpError::Base32DecodeError,
        r is Ok ==> (exists|now: u64| r->Ok_0@ == #[trigger] code_at(
            base32_decoded(upper_of(secret@)),
            now,
            step,
            digits,
        )),
        r is Ok ==> r->Ok_0@.len() == digits,
        r is Err ==> (r->Err_0 == TotpError::InvalidSecretLength || r->Err_0
            == TotpError::Base32DecodeError || r->Err_0 is ClockError),
        r is Err && r->Err_0 is ClockError ==> is_accepted_secret_len(secret@.len()),
        (is_accepted_secret_len(secret@.len()) && (forall|i: int|
            0 <= i < secret@.len() ==> is_base32_char(#[trigger] upper_of(secret@)[i]))) ==> (r
            is Ok || (r is Err && r->Err_0 is ClockError)),
{
    match decode_secret(secret) {
        Ok(key) => {
            let result = generate_totp(step, digits, &key);
            proof {
                if result is Ok {
                    let now0 = choose|now: u64|
                        result->Ok_0@ == #[trigger] code_at(key@, now, step, digits);
                    assert(result->Ok_0@ == code_at(
                        base32_decoded(upper_of(secret@)),
                        now0,
                        step,
                        digits,
                    ));
                }
            }
            result
        },
        Err(e) => Err(e),
    }
}

} // verus!
