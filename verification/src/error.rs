//! The ways in which a run can fail.

use base64::DecodeError;
use rand_core::OsError;
use vstd::prelude::*;

verus! {

#[verifier::external_type_specification]
#[verifier::external_body]
pub struct ExDecodeError(DecodeError);

#[verifier::external_type_specification]
#[verifier::external_body]
pub struct ExOsError(OsError);

/// Why the key derivation function refuses a request. The names are those
/// of the `argon2` crate's diagnostics.
#[derive(Clone, Copy, Debug, PartialEq, Eq, Structural)]
pub enum KdfError {
    /// The memory cost is below 8 blocks, or below 8 blocks for each lane.
    MemoryTooLittle,
    /// The time cost is zero.
    TimeTooSmall,
    /// The parallelism is zero.
    ThreadsTooFew,
    /// The parallelism is above 2^24 - 1.
    ThreadsTooMany,
    /// The secret is longer than 2^32 - 1 bytes.
    PwdTooLong,
    /// The salt is shorter than 8 bytes.
    SaltTooShort,
    /// The salt is longer than 2^32 - 1 bytes.
    SaltTooLong,
    /// Any other diagnostic of the derivation function.
    Internal,
}

/// A failed run. Every error ends the run; nothing is retried.
#[derive(Debug, PartialEq, Eq)]
pub enum Error {
    /// Configuration: the version tag is not a recognised one. Carries the
    /// tag.
    InvalidVersion(String),
    /// Configuration: the derivation function refuses the cost parameters.
    InvalidParams(KdfError),
    /// Configuration: the salt is not base64 text. Carries the length of
    /// the text in bytes, not the text.
    UndecodableSalt(usize),
    /// A text is not base64 text. Carries the decoder's diagnostic.
    Base64(DecodeError),
    /// Secret acquisition: the user did not confirm the secret.
    Aborted,
    /// Derivation: the derivation function reported a failure.
    Derivation(KdfError),
    /// Salt generation: the random source of the operating system failed.
    Rng(OsError),
    /// Display: the wait for an acknowledgment broke off.
    DisplayInterrupted,
    /// The session was handed an event that it did not ask for.
    UnexpectedEvent,
}

} // verus!
