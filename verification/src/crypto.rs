//! Salt generation and key derivation.
//!
//! The derivation function is Argon2id, as the `argon2` crate computes it.
//! Its result is a function of the secret, the salt, the version and the
//! three cost parameters; `argon2id_hash` is the name of that function.

use rand_core::OsError;
use rand_core::OsRng;
use rand_core::TryRngCore;
use vstd::prelude::*;
use zeroize::Zeroizing;

use crate::error::Error;
use crate::error::KdfError;
use crate::sensitive::DerivedKey;

verus! {

/// The revision of the Argon2 algorithm.
#[derive(Clone, Copy, Debug, PartialEq, Eq, Structural)]
pub enum Version {
    /// Revision 16: a block is overwritten in every pass.
    V0x10,
    /// Revision 19: from the second pass on, a block is combined with its
    /// earlier content.
    V0x13,
}

impl Version {
    /// The number by which the algorithm knows the revision.
    pub open spec fn tag(self) -> u32 {
        match self {
            Version::V0x10 => 0x10,
            Version::V0x13 => 0x13,
        }
    }
}

/// Cost parameters that the derivation function accepts: memory in blocks
/// of 1 KiB, number of passes, number of lanes.
#[derive(Clone, Copy, Debug, PartialEq, Eq)]
pub struct Params {
    m_cost: u32,
    t_cost: u32,
    p_cost: u32,
}

/// What `argon2` objects to in a set of cost parameters, if anything: the
/// memory must be at least 8 blocks and at least 8 blocks for each lane,
/// there must be at least one pass, and between 1 and 2^24 - 1 lanes.
pub open spec fn params_fault(m_cost: u32, t_cost: u32, p_cost: u32) -> Option<KdfError> {
    if m_cost < 8 {
        Some(KdfError::MemoryTooLittle)
    } else if m_cost < p_cost * 8 {
        Some(KdfError::MemoryTooLittle)
    } else if t_cost < 1 {
        Some(KdfError::TimeTooSmall)
    } else if p_cost < 1 {
        Some(KdfError::ThreadsTooFew)
    } else if p_cost > 0xFF_FFFF {
        Some(KdfError::ThreadsTooMany)
    } else {
        None
    }
}

/// What `argon2` objects to in a secret and a salt of the given lengths, if
/// anything: the secret may have up to 2^32 - 1 bytes, the salt between 8
/// and 2^32 - 1.
pub open spec fn input_fault(secret_len: nat, salt_len: nat) -> Option<KdfError> {
    if secret_len > 0xFFFF_FFFF {
        Some(KdfError::PwdTooLong)
    } else if salt_len < 8 {
        Some(KdfError::SaltTooShort)
    } else if salt_len > 0xFFFF_FFFF {
        Some(KdfError::SaltTooLong)
    } else {
        None
    }
}

/// The 32-byte Argon2id hash of `secret` with `salt`, for the revision
/// numbered `version` and the given costs, without key or associated data.
pub uninterp spec fn argon2id_hash(
    secret: Seq<u8>,
    salt: Seq<u8>,
    version: u32,
    m_cost: u32,
    t_cost: u32,
    p_cost: u32,
) -> Seq<u8>;

/// `argon2::Params::new` with the default output length: its verdict on the
/// three costs. The crate computes `p_cost * 8` in `u32`, so larger values
/// of `p_cost` are kept from it.
#[verifier::external_body]
fn argon2_params_fault(m_cost: u32, t_cost: u32, p_cost: u32) -> (fault: Option<KdfError>)
    requires
        p_cost * 8 <= u32::MAX,
    ensures
        fault == params_fault(m_cost, t_cost, p_cost),
{
    match argon2::Params::new(m_cost, t_cost, p_cost, None) {
        Ok(_) => None,
        Err(argon2::Error::MemoryTooLittle) => Some(KdfError::MemoryTooLittle),
        Err(argon2::Error::TimeTooSmall) => Some(KdfError::TimeTooSmall),
        Err(argon2::Error::ThreadsTooFew) => Some(KdfError::ThreadsTooFew),
        Err(argon2::Error::ThreadsTooMany) => Some(KdfError::ThreadsTooMany),
        Err(_) => Some(KdfError::Internal),
    }
}

/// `Argon2::hash_password_into` of an Argon2id context without key, into a
/// fresh guarded buffer of 32 bytes. With accepted costs the crate refuses
/// only a secret or a salt of a wrong length; otherwise the buffer holds
/// the hash. (Where the memory for `m_cost` blocks cannot be had, the
/// process ends.)
#[verifier::external_body]
fn argon2id_into_key(
    secret: &[u8],
    salt: &[u8],
    version: Version,
    m_cost: u32,
    t_cost: u32,
    p_cost: u32,
) -> (derived: Result<DerivedKey, KdfError>)
    requires
        params_fault(m_cost, t_cost, p_cost) is None,
    ensures
        match derived {
            Ok(key) => {
                &&& input_fault(secret@.len(), salt@.len()) is None
                &&& key@ == argon2id_hash(secret@, salt@, version.tag(), m_cost, t_cost, p_cost)
                &&& key@.len() == 32
            },
            Err(e) => input_fault(secret@.len(), salt@.len()) == Some(e),
        },
{
    let version = match version {
        Version::V0x10 => argon2::Version::V0x10,
        Version::V0x13 => argon2::Version::V0x13,
    };
    let Ok(costs) = argon2::Params::new(m_cost, t_cost, p_cost, None) else { return Err(KdfError::Internal) };
    let hasher = argon2::Argon2::new(argon2::Algorithm::Argon2id, version, costs);
    let mut key_buf = Zeroizing::new([0u8; 32]);
    match hasher.hash_password_into(secret, salt, &mut *key_buf) {
        Ok(()) => Ok(DerivedKey { inner: key_buf }),
        Err(argon2::Error::PwdTooLong) => Err(KdfError::PwdTooLong),
        Err(argon2::Error::SaltTooShort) => Err(KdfError::SaltTooShort),
        Err(argon2::Error::SaltTooLong) => Err(KdfError::SaltTooLong),
        Err(_) => Err(KdfError::Internal),
    }
}

/// `OsRng::try_fill_bytes`: fills the vector, as long as it is, with bytes
/// from the random source of the operating system, or reports that source's
/// failure.
#[verifier::external_body]
fn fill_from_os(dest: &mut Vec<u8>) -> (filled: Result<(), OsError>)
    ensures
        final(dest)@.len() == old(dest)@.len(),
{
    OsRng.try_fill_bytes(dest)
}

impl Params {
    /// The costs are accepted: nothing else can be held in a `Params`.
    #[verifier::type_invariant]
    pub closed spec fn accepted(self) -> bool {
        params_fault(self.m_cost, self.t_cost, self.p_cost) is None
    }

    /// Memory, in blocks of 1 KiB.
    pub closed spec fn spec_m_cost(self) -> u32 {
        self.m_cost
    }

    /// Number of passes.
    pub closed spec fn spec_t_cost(self) -> u32 {
        self.t_cost
    }

    /// Number of lanes.
    pub closed spec fn spec_p_cost(self) -> u32 {
        self.p_cost
    }

    /// Cost parameters, if the derivation function accepts them; else what
    /// it objects to.
    pub fn new(m_cost: u32, t_cost: u32, p_cost: u32) -> (made: Result<Params, KdfError>)
        ensures
            match made {
                Ok(params) => {
                    &&& params_fault(m_cost, t_cost, p_cost) is None
                    &&& params.spec_m_cost() == m_cost
                    &&& params.spec_t_cost() == t_cost
                    &&& params.spec_p_cost() == p_cost
                },
                Err(e) => params_fault(m_cost, t_cost, p_cost) == Some(e),
            },
    {
        if p_cost > 0x1FFF_FFFF {
            // no `m_cost` reaches 8 blocks for each of so many lanes
            return Err(KdfError::MemoryTooLittle);
        }
        match argon2_params_fault(m_cost, t_cost, p_cost) {
            None => Ok(Params { m_cost, t_cost, p_cost }),
            Some(e) => Err(e),
        }
    }

    /// Memory, in blocks of 1 KiB.
    #[verifier::when_used_as_spec(spec_m_cost)]
    pub fn m_cost(self) -> (m_cost: u32)
        ensures
            m_cost == self.spec_m_cost(),
    {
        self.m_cost
    }

    /// Number of passes.
    #[verifier::when_used_as_spec(spec_t_cost)]
    pub fn t_cost(self) -> (t_cost: u32)
        ensures
            t_cost == self.spec_t_cost(),
    {
        self.t_cost
    }

    /// Number of lanes.
    #[verifier::when_used_as_spec(spec_p_cost)]
    pub fn p_cost(self) -> (p_cost: u32)
        ensures
            p_cost == self.spec_p_cost(),
    {
        self.p_cost
    }
}

/// What a derivation returns on given inputs: the hash, or what the
/// derivation function objects to in the secret and the salt.
pub open spec fn derivation(
    secret: Seq<u8>,
    salt: Seq<u8>,
    version: Version,
    params: Params,
) -> Result<Seq<u8>, KdfError> {
    match input_fault(secret.len(), salt.len()) {
        Some(e) => Err(e),
        None => Ok(
            argon2id_hash(
                secret,
                salt,
                version.tag(),
                params.m_cost(),
                params.t_cost(),
                params.p_cost(),
            ),
        ),
    }
}

/// Whether `derived` is what the derivation must return on the given
/// inputs: a key that holds the hash, or the fault in the secret or the
/// salt.
pub open spec fn is_derived(
    secret: Seq<u8>,
    salt: Seq<u8>,
    version: Version,
    params: Params,
    derived: Result<DerivedKey, Error>,
) -> bool {
    match derived {
        Ok(key) => derivation(secret, salt, version, params) matches Ok(hash) && key@ == hash,
        Err(e) => derivation(secret, salt, version, params) matches Err(fault) && e
            == Error::Derivation(fault),
    }
}

/// What becomes of a buffer that the random source was asked to fill: the
/// salt if the source delivered, else the source's failure.
pub fn salt_from_fill(bytes: Vec<u8>, filled: Result<(), OsError>) -> (salt: Result<Vec<u8>, Error>)
    ensures
        match filled {
            Ok(()) => salt == Ok::<Vec<u8>, Error>(bytes),
            Err(e) => salt == Err::<Vec<u8>, Error>(Error::Rng(e)),
        },
{
    match filled {
        Ok(()) => Ok(bytes),
        Err(e) => Err(Error::Rng(e)),
    }
}

/// A fresh salt of `length` bytes from the random source of the operating
/// system. Fails only if that source fails.
pub fn generate_salt(length: usize) -> (generated: Result<Vec<u8>, Error>)
    ensures
        match generated {
            Ok(salt) => salt@.len() == length,
            Err(e) => e is Rng,
        },
{
    let mut bytes = vec![0u8; length];
    let filled = fill_from_os(&mut bytes);
    salt_from_fill(bytes, filled)
}

/// Derives the 32-byte Argon2id key of `secret` under `salt`, `version` and
/// `params`. Fails exactly where the secret or the salt has a length that
/// the derivation function refuses.
pub fn derive_key(secret: &[u8], salt: &[u8], version: Version, params: Params) -> (derived: Result<
    DerivedKey,
    Error,
>)
    ensures
        is_derived(secret@, salt@, version, params, derived),
        derived matches Ok(key) ==> key@.len() == 32,
{
    proof {
        use_type_invariant(&params);
    }
    match argon2id_into_key(secret, salt, version, params.m_cost, params.t_cost, params.p_cost) {
        Ok(key) => Ok(key),
        Err(fault) => Err(Error::Derivation(fault)),
    }
}

/// Derivation is deterministic: two results for the same secret, salt,
/// version and costs either both fail, with the same error, or hold the
/// same key.
pub proof fn lemma_derivation_deterministic(
    secret: Seq<u8>,
    salt: Seq<u8>,
    version: Version,
    params: Params,
    first: Result<DerivedKey, Error>,
    second: Result<DerivedKey, Error>,
)
    requires
        is_derived(secret, salt, version, params, first),
        is_derived(secret, salt, version, params, second),
    ensures
        match (first, second) {
            (Ok(a), Ok(b)) => a@ == b@,
            (Err(a), Err(b)) => a == b,
            _ => false,
        },
{
}

} // verus!
