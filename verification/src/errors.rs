//! The error taxonomy of the pipeline.

use vstd::prelude::*;

verus! {

/// Everything that can go wrong between reading the flags and producing a
/// code.  Each variant is terminal for the current invocation: no stage is
/// retried, and no output is produced after a failure (a clipboard failure
/// is the one exception, reported after the code has already been emitted).
#[derive(Debug, PartialEq, Eq)]
pub enum TotpError {
    /// The command line was rejected; the payload is the user-facing
    /// explanation (an unexpected argument, or a contradictory flag pair).
    ArgumentError(String),
    /// The secret's length is not one of the accepted base32 lengths
    /// (16, 26 or 32 characters).
    InvalidSecretLength,
    /// The secret holds a character outside the unpadded RFC 4648 base32
    /// alphabet.
    Base32DecodeError,
    /// The system clock reported a time before the Unix epoch; the payload
    /// is the discrepancy in whole seconds.
    ClockError(u64),
    /// The clipboard device could not be opened.
    ClipboardAccessError,
    /// The clipboard rejected the write.
    ClipboardWriteError,
}

} // verus!
