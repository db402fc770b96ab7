//! Conversions between strings and byte sequences.
//!
//! Salts and passphrases travel as base64 text (standard alphabet, padded).
//! The text forms are stated here as functions on sequences; the encoding
//! and decoding themselves are done by the `base64` and `hex` crates.

use base64::engine::general_purpose::STANDARD;
use base64::DecodeError;
use base64::Engine;
use vstd::prelude::*;
use vstd::slice::slice_to_vec;
use vstd::string::StringSliceAdditionalSpecFns;
use vstd::utf8::encode_utf8_decode_utf8;
use zeroize::Zeroizing;

use crate::error::Error;
use crate::sensitive::DerivedKey;
use crate::sensitive::SensitiveText;

verus! {


/// The character that stands for the six-bit number `v` in the standard
/// base64 alphabet: `A`-`Z`, `a`-`z`, `0`-`9`, `+`, `/`.
pub open spec fn base64_symbol(v: int) -> char {
    if v < 26 {
        (v + 65) as char
    } else if v < 52 {
        (v + 71) as char
    } else if v < 62 {
        (v - 4) as char
    } else if v == 62 {
        '+'
    } else {
        '/'
    }
}

/// The padded base64 text of `bytes`: each group of three bytes gives four
/// symbols; a last group of one or two bytes is filled up with zero bits
/// and `=`.
pub open spec fn base64_encode(bytes: Seq<u8>) -> Seq<char>
    decreases bytes.len(),
{
    if bytes.len() == 0 {
        Seq::empty()
    } else if bytes.len() == 1 {
        seq![
            base64_symbol(bytes[0] as int / 4),
            base64_symbol((bytes[0] as int % 4) * 16),
            '=',
            '=',
        ]
    } else if bytes.len() == 2 {
        seq![
            base64_symbol(bytes[0] as int / 4),
            base64_symbol((bytes[0] as int % 4) * 16 + bytes[1] as int / 16),
            base64_symbol((bytes[1] as int % 16) * 4),
            '=',
        ]
    } else {
        seq![
            base64_symbol(bytes[0] as int / 4),
            base64_symbol((bytes[0] as int % 4) * 16 + bytes[1] as int / 16),
            base64_symbol((bytes[1] as int % 16) * 4 + bytes[2] as int / 64),
            base64_symbol(bytes[2] as int % 64),
        ] + base64_encode(bytes.skip(3))
    }
}

/// Whether `text` is the base64 text of some byte sequence.
pub open spec fn is_base64(text: Seq<char>) -> bool {
    exists|bytes: Seq<u8>| #[trigger] base64_encode(bytes) == text
}

/// The bytes that `text` stands for, if it is base64 text.
pub open spec fn base64_decode(text: Seq<char>) -> Option<Seq<u8>> {
    if is_base64(text) {
        Some(choose|bytes: Seq<u8>| #[trigger] base64_encode(bytes) == text)
    } else {
        None
    }
}

/// The length of the base64 text of `n` bytes.
pub open spec fn base64_len(n: nat) -> nat {
    4 * ((n + 2) / 3)
}

/// The lower-case hexadecimal digit of `v`.
pub open spec fn hex_digit(v: int) -> char {
    if v < 10 {
        (v + 48) as char
    } else {
        (v + 87) as char
    }
}

/// The lower-case hexadecimal text of `bytes`, two digits for each byte,
/// the high half first.
pub open spec fn hex_encode(bytes: Seq<u8>) -> Seq<char> {
    Seq::new(
        2 * bytes.len(),
        |i: int|
            if i % 2 == 0 {
                hex_digit(bytes[i / 2] as int / 16)
            } else {
                hex_digit(bytes[i / 2] as int % 16)
            },
    )
}

/// Six-bit numbers that share a symbol are equal, and no symbol is the
/// padding character.
proof fn lemma_symbols_distinct(v: int, w: int)
    requires
        0 <= v < 64,
        0 <= w < 64,
    ensures
        base64_symbol(v) != '=',
        base64_symbol(v) == base64_symbol(w) ==> v == w,
{
    assert(base64_symbol(v) as int == if v < 26 {
        v + 65
    } else if v < 52 {
        v + 71
    } else if v < 62 {
        v - 4
    } else if v == 62 {
        43
    } else {
        47
    });
    assert(base64_symbol(w) as int == if w < 26 {
        w + 65
    } else if w < 52 {
        w + 71
    } else if w < 62 {
        w - 4
    } else if w == 62 {
        43
    } else {
        47
    });
}

/// The first four characters of a non-empty encoding, and what follows
/// them.
proof fn lemma_first_group(bytes: Seq<u8>)
    requires
        bytes.len() > 0,
    ensures
        base64_encode(bytes).len() >= 4,
        base64_encode(bytes)[0] == base64_symbol(bytes[0] as int / 4),
        bytes.len() == 1 ==> {
            &&& base64_encode(bytes).len() == 4
            &&& base64_encode(bytes)[1] == base64_symbol((bytes[0] as int % 4) * 16)
            &&& base64_encode(bytes)[2] == '='
            &&& base64_encode(bytes)[3] == '='
        },
        bytes.len() == 2 ==> {
            &&& base64_encode(bytes).len() == 4
            &&& base64_encode(bytes)[1] == base64_symbol(
                (bytes[0] as int % 4) * 16 + bytes[1] as int / 16,
            )
            &&& base64_encode(bytes)[2] == base64_symbol((bytes[1] as int % 16) * 4)
            &&& base64_encode(bytes)[3] == '='
        },
        bytes.len() >= 3 ==> {
            &&& base64_encode(bytes)[1] == base64_symbol(
                (bytes[0] as int % 4) * 16 + bytes[1] as int / 16,
            )
            &&& base64_encode(bytes)[2] == base64_symbol(
                (bytes[1] as int % 16) * 4 + bytes[2] as int / 64,
            )
            &&& base64_encode(bytes)[3] == base64_symbol(bytes[2] as int % 64)
            &&& base64_encode(bytes).skip(4) == base64_encode(bytes.skip(3))
        },
{
    if bytes.len() >= 3 {
        assert(base64_encode(bytes).skip(4) =~= base64_encode(bytes.skip(3)));
    }
}

/// The encoding of `n` bytes has `base64_len(n)` characters.
pub proof fn lemma_base64_encode_len(bytes: Seq<u8>)
    ensures
        base64_encode(bytes).len() == base64_len(bytes.len()),
    decreases bytes.len(),
{
    if bytes.len() >= 3 {
        lemma_base64_encode_len(bytes.skip(3));
    }
}

/// Two byte sequences with the same base64 text are the same sequence.
pub proof fn lemma_base64_encode_injective(a: Seq<u8>, b: Seq<u8>)
    requires
        base64_encode(a) == base64_encode(b),
    ensures
        a == b,
    decreases a.len(),
{
    lemma_base64_encode_len(a);
    lemma_base64_encode_len(b);
    if a.len() == 0 || b.len() == 0 {
        assert(a =~= b);
    } else {
        lemma_first_group(a);
        lemma_first_group(b);
        let a0 = a[0] as int;
        let b0 = b[0] as int;
        lemma_symbols_distinct(a0 / 4, b0 / 4);
        if a.len() == 1 {
            lemma_symbols_distinct((a0 % 4) * 16, (b0 % 4) * 16);
            if b.len() >= 2 {
                lemma_symbols_distinct((b[1] as int % 16) * 4, 0);
                if b.len() >= 3 {
                    lemma_symbols_distinct((b[1] as int % 16) * 4 + b[2] as int / 64, 0);
                }
            }
            assert(a =~= b);
        } else if b.len() == 1 {
            lemma_symbols_distinct((a[1] as int % 16) * 4, 0);
            if a.len() >= 3 {
                lemma_symbols_distinct((a[1] as int % 16) * 4 + a[2] as int / 64, 0);
            }
        } else {
            let a1 = a[1] as int;
            let b1 = b[1] as int;
            lemma_symbols_distinct((a0 % 4) * 16 + a1 / 16, (b0 % 4) * 16 + b1 / 16);
            if a.len() == 2 {
                lemma_symbols_distinct((a1 % 16) * 4, (b1 % 16) * 4);
                if b.len() >= 3 {
                    lemma_symbols_distinct(b[2] as int % 64, 0);
                }
                assert(a =~= b);
            } else if b.len() == 2 {
                lemma_symbols_distinct(a[2] as int % 64, 0);
            } else {
                let a2 = a[2] as int;
                let b2 = b[2] as int;
                lemma_symbols_distinct((a1 % 16) * 4 + a2 / 64, (b1 % 16) * 4 + b2 / 64);
                lemma_symbols_distinct(a2 % 64, b2 % 64);
                lemma_base64_encode_injective(a.skip(3), b.skip(3));
                assert(a =~= a.take(3) + a.skip(3));
                assert(b =~= b.take(3) + b.skip(3));
                assert(a.take(3) =~= b.take(3));
            }
        }
    }
}

/// Decoding the base64 text of any byte sequence gives that sequence back.
pub proof fn lemma_base64_round_trip(bytes: Seq<u8>)
    ensures
        base64_decode(base64_encode(bytes)) == Some(bytes),
{
    let text = base64_encode(bytes);
    assert(is_base64(text));
    let chosen = choose|b: Seq<u8>| #[trigger] base64_encode(b) == text;
    lemma_base64_encode_injective(chosen, bytes);
}

/// A text that decodes to `bytes` is the base64 text of `bytes`.
pub proof fn lemma_base64_decode_inverts(text: Seq<char>, bytes: Seq<u8>)
    ensures
        base64_decode(text) == Some(bytes) <==> base64_encode(bytes) == text,
{
    if base64_encode(bytes) == text {
        lemma_base64_round_trip(bytes);
    }
}

/// `Engine::encode` of `base64`'s `STANDARD` engine: the padded base64 text
/// of the input. The crate panics where the length of the text does not fit
/// in `usize`.
#[verifier::external_body]
fn standard_encode(bytes: &[u8]) -> (text: String)
    requires
        base64_len(bytes@.len()) <= usize::MAX,
    ensures
        text@ == base64_encode(bytes@),
{
    STANDARD.encode(bytes)
}

/// `Engine::encode_string` of `base64`'s `STANDARD` engine into a fresh
/// guarded string: the padded base64 text of the key. The key is moved into
/// the call and wiped when the call drops it.
#[verifier::external_body]
fn standard_encode_key(key: DerivedKey) -> (text: SensitiveText)
    ensures
        text@ == base64_encode(key@),
{
    let mut output_buf = Zeroizing::new(String::new());
    STANDARD.encode_string(key.inner, &mut output_buf);
    SensitiveText { inner: output_buf }
}

/// `Engine::decode` of `base64`'s `STANDARD` engine. It accepts exactly the
/// texts that the engine's `encode` produces (canonical padding, no stray
/// bits in the last symbol) and returns the bytes that encode to the input.
#[verifier::external_body]
fn standard_decode(text: &str) -> (decoded: Result<Vec<u8>, DecodeError>)
    ensures
        match decoded {
            Ok(bytes) => base64_encode(bytes@) == text@,
            Err(_) => !is_base64(text@),
        },
{
    STANDARD.decode(text)
}

/// `hex::encode`: two lower-case hexadecimal digits for each byte.
#[verifier::external_body]
fn lower_hex(bytes: &[u8]) -> (text: String)
    requires
        2 * bytes@.len() <= usize::MAX,
    ensures
        text@ == hex_encode(bytes@),
{
    hex::encode(bytes)
}

/// Renders the passphrase of a derived key: its base64 text, in a guarded
/// string. The key is consumed.
pub fn passphrase_from_key(key: DerivedKey) -> (passphrase: SensitiveText)
    ensures
        passphrase@ == base64_encode(key@),
        passphrase@.len() == base64_len(key@.len()),
        base64_decode(passphrase@) == Some(key@),
{
    proof {
        lemma_base64_encode_len(key@);
        lemma_base64_round_trip(key@);
    }
    standard_encode_key(key)
}

/// The base64 text of a salt, as it is written in a configuration file.
pub fn base64_string_from_salt(salt: &[u8]) -> (text: String)
    requires
        base64_len(salt@.len()) <= usize::MAX,
    ensures
        text@ == base64_encode(salt@),
        text@.len() == base64_len(salt@.len()),
        base64_decode(text@) == Some(salt@),
{
    proof {
        lemma_base64_encode_len(salt@);
        lemma_base64_round_trip(salt@);
    }
    standard_encode(salt)
}

/// Parses base64 text into the bytes it stands for. Exactly the texts that
/// `base64_string_from_salt` can produce are accepted.
pub fn parse_base64_str(s: &str) -> (parsed: Result<Vec<u8>, Error>)
    ensures
        match parsed {
            Ok(bytes) => base64_decode(s@) == Some(bytes@),
            Err(e) => base64_decode(s@) is None && e is Base64,
        },
{
    match standard_decode(s) {
        Ok(bytes) => {
            proof {
                lemma_base64_decode_inverts(s@, bytes@);
            }
            Ok(bytes)
        },
        Err(e) => Err(Error::Base64(e)),
    }
}

/// The lower-case hexadecimal text of `bytes`.
pub fn hex_string_from_bytes(bytes: &[u8]) -> (text: String)
    requires
        2 * bytes@.len() <= usize::MAX,
    ensures
        text@ == hex_encode(bytes@),
{
    lower_hex(bytes)
}

/// Whether two strings hold the same characters.
pub fn same_text(a: &str, b: &str) -> (same: bool)
    ensures
        same == (a@ == b@),
{
    let left = a.as_bytes();
    let right = b.as_bytes();
    proof {
        encode_utf8_decode_utf8(a@);
        encode_utf8_decode_utf8(b@);
    }
    if left.len() != right.len() {
        return false;
    }
    let mut i: usize = 0;
    while i < left.len()
        invariant
            i <= left@.len(),
            left@.len() == right@.len(),
            left@ == a.spec_bytes(),
            right@ == b.spec_bytes(),
            forall|j: int| 0 <= j < i ==> left@[j] == right@[j],
        decreases left@.len() - i,
    {
        if left[i] != right[i] {
            return false;
        }
        i += 1;
    }
    assert(left@ =~= right@);
    true
}

/// The UTF-8 encoding of `s`, as an owned vector.
pub fn into_utf8_bytes(s: &str) -> (bytes: Vec<u8>)
    ensures
        bytes@ == s.spec_bytes(),
{
    slice_to_vec(s.as_bytes())
}

} // verus!
