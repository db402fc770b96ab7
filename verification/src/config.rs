//! The non-secret inputs of a derivation, as a configuration file gives
//! them and as the derivation takes them.
//!
//! A configuration is handed over as it was parsed: a version tag, three
//! costs and the salt as base64 text. `context_from_raw` checks it and
//! returns what the key derivation needs.

use vstd::prelude::*;
use vstd::utf8::encode_utf8;

use crate::crypto::params_fault;
use crate::crypto::Params;
use crate::crypto::Version;
use crate::error::Error;
use crate::string_codec::base64_decode;
use crate::string_codec::parse_base64_str;
use crate::string_codec::same_text;

verus! {

/// Cost parameters as a configuration file states them, unchecked.
#[derive(Clone, Copy, Debug, PartialEq, Eq, Structural)]
pub struct Argon2idParams {
    pub m_cost: u32,
    pub t_cost: u32,
    pub p_cost: u32,
}

/// A configuration as it was parsed, unchecked.
#[derive(Debug)]
pub struct RawConfig {
    /// `"0x10"` or `"0x13"`.
    pub version: String,
    pub params: Argon2idParams,
    /// The salt, as base64 text.
    pub salt: String,
}

/// Non-secret inputs of the Argon2id key derivation.
#[derive(Debug)]
pub struct Argon2idContext {
    pub version: Version,
    pub params: Params,
    pub salt: Vec<u8>,
}

/// The version that a tag names, if it names one.
pub open spec fn version_of(tag: Seq<char>) -> Option<Version> {
    if tag == "0x10"@ {
        Some(Version::V0x10)
    } else if tag == "0x13"@ {
        Some(Version::V0x13)
    } else {
        None
    }
}

/// The version that `tag` names; any other tag is returned in the error.
pub fn parse_version(tag: &str) -> (parsed: Result<Version, Error>)
    ensures
        match parsed {
            Ok(version) => version_of(tag@) == Some(version),
            Err(e) => {
                &&& version_of(tag@) is None
                &&& e matches Error::InvalidVersion(named)
                &&& named@ == tag@
            },
        },
{
    if same_text(tag, "0x10") {
        Ok(Version::V0x10)
    } else if same_text(tag, "0x13") {
        Ok(Version::V0x13)
    } else {
        Err(Error::InvalidVersion(tag.to_owned()))
    }
}

/// The bytes of a salt given as base64 text. Where the text is not base64,
/// the error carries its length in bytes.
pub fn parse_salt(s: &str) -> (parsed: Result<Vec<u8>, Error>)
    ensures
        match parsed {
            Ok(bytes) => base64_decode(s@) == Some(bytes@),
            Err(e) => base64_decode(s@) is None && e == Error::UndecodableSalt(
                encode_utf8(s@).len() as usize,
            ),
        },
{
    match parse_base64_str(s) {
        Ok(bytes) => Ok(bytes),
        Err(_) => Err(Error::UndecodableSalt(s.len())),
    }
}

/// Whether `checked` is what checking `raw` must give: the context that
/// `raw` describes, or the first fault in the order version, costs, salt.
pub open spec fn is_context_of(raw: RawConfig, checked: Result<Argon2idContext, Error>) -> bool {
    let costs = raw.params;
    match checked {
        Ok(context) => {
            &&& version_of(raw.version@) == Some(context.version)
            &&& params_fault(costs.m_cost, costs.t_cost, costs.p_cost) is None
            &&& context.params.m_cost() == costs.m_cost
            &&& context.params.t_cost() == costs.t_cost
            &&& context.params.p_cost() == costs.p_cost
            &&& base64_decode(raw.salt@) == Some(context.salt@)
        },
        Err(e) => {
            if version_of(raw.version@) is None {
                e matches Error::InvalidVersion(named) && named@ == raw.version@
            } else {
                match params_fault(costs.m_cost, costs.t_cost, costs.p_cost) {
                    Some(fault) => e == Error::InvalidParams(fault),
                    None => {
                        &&& base64_decode(raw.salt@) is None
                        &&& e == Error::UndecodableSalt(encode_utf8(raw.salt@).len() as usize)
                    },
                }
            }
        },
    }
}

/// Checks a parsed configuration: the version tag must name a version, the
/// derivation function must accept the costs, and the salt must be base64
/// text.
pub fn context_from_raw(raw: &RawConfig) -> (checked: Result<Argon2idContext, Error>)
    ensures
        is_context_of(*raw, checked),
{
    let version = match parse_version(raw.version.as_str()) {
        Ok(version) => version,
        Err(e) => return Err(e),
    };
    let params = match Params::new(raw.params.m_cost, raw.params.t_cost, raw.params.p_cost) {
        Ok(params) => params,
        Err(fault) => return Err(Error::InvalidParams(fault)),
    };
    let salt = match parse_salt(raw.salt.as_str()) {
        Ok(salt) => salt,
        Err(e) => return Err(e),
    };
    Ok(Argon2idContext { version, params, salt })
}

} // verus!
