//! Buffers that are wiped when they go out of scope.
//!
//! Secret material lives in `zeroize::Zeroizing` from the moment it is
//! created: the secret as entered, its bytes, the derived key and the
//! rendered passphrase. Dropping such a buffer overwrites it with zeros,
//! whichever way the owning function is left. None of the types here can
//! be cloned, so a buffer has one owner at any time.

use vstd::prelude::*;
use zeroize::Zeroizing;

verus! {

/// Sensitive text: the secret as it was typed, or a rendered passphrase.
#[verifier::external_body]
#[derive(Debug)]
pub struct SensitiveText {
    pub(crate) inner: Zeroizing<String>,
}

/// The secret as bytes, ready for the key derivation.
#[verifier::external_body]
#[derive(Debug)]
pub struct SecretBuffer {
    pub(crate) inner: Zeroizing<Vec<u8>>,
}

/// The 32-byte output of the key derivation.
#[verifier::external_body]
#[derive(Debug)]
pub struct DerivedKey {
    pub(crate) inner: Zeroizing<[u8; 32]>,
}

/// The characters that a sensitive text holds.
pub uninterp spec fn sensitive_chars(text: SensitiveText) -> Seq<char>;

/// The bytes that a secret buffer holds.
pub uninterp spec fn secret_bytes(buffer: SecretBuffer) -> Seq<u8>;

/// The bytes that a derived key holds.
pub uninterp spec fn key_bytes(key: DerivedKey) -> Seq<u8>;

impl View for SensitiveText {
    type V = Seq<char>;

    open spec fn view(&self) -> Seq<char> {
        sensitive_chars(*self)
    }
}

impl View for SecretBuffer {
    type V = Seq<u8>;

    open spec fn view(&self) -> Seq<u8> {
        secret_bytes(*self)
    }
}

impl View for DerivedKey {
    type V = Seq<u8>;

    open spec fn view(&self) -> Seq<u8> {
        key_bytes(*self)
    }
}

/// `Zeroizing::new` on a string: the guard holds exactly the characters
/// that were moved into it.
#[verifier::external_body]
fn guard_text(text: String) -> (guarded: SensitiveText)
    ensures
        sensitive_chars(guarded) == text@,
{
    SensitiveText { inner: Zeroizing::new(text) }
}

/// `Deref` of a guarded string: the characters it holds, borrowed.
#[verifier::external_body]
fn expose_text<'a>(guarded: &'a SensitiveText) -> (text: &'a str)
    ensures
        text@ == sensitive_chars(*guarded),
{
    guarded.inner.as_str()
}

/// `Zeroizing::new` on a byte vector: the guard holds exactly the bytes
/// that were moved into it.
#[verifier::external_body]
fn guard_bytes(bytes: Vec<u8>) -> (guarded: SecretBuffer)
    ensures
        secret_bytes(guarded) == bytes@,
{
    SecretBuffer { inner: Zeroizing::new(bytes) }
}

/// `Deref` of a guarded byte vector: the bytes it holds, borrowed.
#[verifier::external_body]
fn expose_bytes<'a>(guarded: &'a SecretBuffer) -> (bytes: &'a [u8])
    ensures
        bytes@ == secret_bytes(*guarded),
{
    guarded.inner.as_slice()
}

/// `Zeroizing::new` on an array of 32 bytes: the guard holds exactly the
/// bytes that were moved into it.
#[verifier::external_body]
fn guard_key(bytes: [u8; 32]) -> (guarded: DerivedKey)
    ensures
        key_bytes(guarded) == bytes@,
{
    DerivedKey { inner: Zeroizing::new(bytes) }
}

/// `Deref` of a guarded key: the 32 bytes it holds, borrowed.
#[verifier::external_body]
fn expose_key<'a>(guarded: &'a DerivedKey) -> (bytes: &'a [u8; 32])
    ensures
        bytes@ == key_bytes(*guarded),
{
    &*guarded.inner
}

impl SensitiveText {
    /// Takes ownership of `text`; its buffer is wiped when the result is
    /// dropped.
    pub fn new(text: String) -> (guarded: Self)
        ensures
            guarded@ == text@,
    {
        guard_text(text)
    }

    /// The text, borrowed.
    pub fn as_str(&self) -> (text: &str)
        ensures
            text@ == self@,
    {
        expose_text(self)
    }
}

impl SecretBuffer {
    /// Takes ownership of `bytes`; the buffer is wiped when the result is
    /// dropped.
    pub fn new(bytes: Vec<u8>) -> (guarded: Self)
        ensures
            guarded@ == bytes@,
    {
        guard_bytes(bytes)
    }

    /// The bytes, borrowed.
    pub fn as_bytes(&self) -> (bytes: &[u8])
        ensures
            bytes@ == self@,
    {
        expose_bytes(self)
    }
}

impl DerivedKey {
    /// Takes ownership of `bytes`; they are wiped when the result is
    /// dropped.
    pub fn new(bytes: [u8; 32]) -> (guarded: Self)
        ensures
            guarded@ == bytes@,
    {
        guard_key(bytes)
    }

    /// The 32 bytes, borrowed.
    pub fn as_bytes(&self) -> (bytes: &[u8; 32])
        ensures
            bytes@ == self@,
            self@.len() == 32,
    {
        expose_key(self)
    }
}

} // verus!
