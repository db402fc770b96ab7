use sphragis::crypto::derive_key;
use sphragis::crypto::generate_salt;
use sphragis::crypto::salt_from_fill;
use sphragis::crypto::Params;
use sphragis::crypto::Version;
use sphragis::error::Error;
use sphragis::error::KdfError;
use sphragis::string_codec::hex_string_from_bytes;
use sphragis::string_codec::passphrase_from_key;

fn small() -> Params {
    Params::new(8, 1, 1).unwrap()
}

fn key_hex(secret: &[u8], salt: &[u8], version: Version, params: Params) -> String {
    let key = derive_key(secret, salt, version, params).unwrap();
    hex_string_from_bytes(key.as_bytes())
}

#[test]
fn params_keep_their_costs() {
    let params = Params::new(19456, 2, 1).unwrap();
    assert_eq!(params.m_cost(), 19456);
    assert_eq!(params.t_cost(), 2);
    assert_eq!(params.p_cost(), 1);
    let params = Params::new(64, 3, 8).unwrap();
    assert_eq!((params.m_cost(), params.t_cost(), params.p_cost()), (64, 3, 8));
}

#[test]
fn params_at_the_limits_are_accepted() {
    assert!(Params::new(8, 1, 1).is_ok());
    assert!(Params::new(16, 1, 2).is_ok());
    assert!(Params::new(u32::MAX, u32::MAX, 1).is_ok());
    assert!(Params::new(0x7FF_FFF8, 1, 0xFF_FFFF).is_ok());
}

#[test]
fn params_with_too_little_memory() {
    assert_eq!(Params::new(0, 2, 1), Err(KdfError::MemoryTooLittle));
    assert_eq!(Params::new(7, 2, 1), Err(KdfError::MemoryTooLittle));
    assert_eq!(Params::new(15, 1, 2), Err(KdfError::MemoryTooLittle));
    assert_eq!(Params::new(0, 0, 0), Err(KdfError::MemoryTooLittle));
    assert_eq!(Params::new(u32::MAX, 1, 0x2000_0000), Err(KdfError::MemoryTooLittle));
    assert_eq!(Params::new(u32::MAX, 1, u32::MAX), Err(KdfError::MemoryTooLittle));
}

#[test]
fn params_with_no_pass() {
    assert_eq!(Params::new(8, 0, 1), Err(KdfError::TimeTooSmall));
    assert_eq!(Params::new(8, 0, 0), Err(KdfError::TimeTooSmall));
}

#[test]
fn params_with_no_lane() {
    assert_eq!(Params::new(8, 1, 0), Err(KdfError::ThreadsTooFew));
}

#[test]
fn params_with_too_many_lanes() {
    assert_eq!(Params::new(0x800_0000, 1, 0x100_0000), Err(KdfError::ThreadsTooMany));
    assert_eq!(Params::new(u32::MAX, 1, 0x1FFF_FFFF), Err(KdfError::ThreadsTooMany));
}

#[test]
fn derivation_of_a_known_key() {
    assert_eq!(
        key_hex(b"secret", b"saltsalt", Version::V0x13, small()),
        "be4f8981681919b5c7b44a8f40f8735db0fe431c64251e45ab60172e10f261a6"
    );
}

#[test]
fn derivation_is_deterministic() {
    let first = key_hex(b"secret", b"saltsalt", Version::V0x13, small());
    let second = key_hex(b"secret", b"saltsalt", Version::V0x13, small());
    assert_eq!(first, second);
    let first = key_hex(b"", b"01234567", Version::V0x10, Params::new(16, 2, 2).unwrap());
    let second = key_hex(b"", b"01234567", Version::V0x10, Params::new(16, 2, 2).unwrap());
    assert_eq!(first, second);
}

#[test]
fn derivation_is_sensitive_to_every_input() {
    let base = key_hex(b"secret", b"saltsalt", Version::V0x13, Params::new(16, 2, 1).unwrap());
    let others = vec![
        key_hex(b"secreT", b"saltsalt", Version::V0x13, Params::new(16, 2, 1).unwrap()),
        key_hex(b"secret", b"saltsalT", Version::V0x13, Params::new(16, 2, 1).unwrap()),
        key_hex(b"secret", b"saltsalt", Version::V0x10, Params::new(16, 2, 1).unwrap()),
        key_hex(b"secret", b"saltsalt", Version::V0x13, Params::new(17, 2, 1).unwrap()),
        key_hex(b"secret", b"saltsalt", Version::V0x13, Params::new(16, 3, 1).unwrap()),
        key_hex(b"secret", b"saltsalt", Version::V0x13, Params::new(16, 2, 2).unwrap()),
    ];
    for (i, other) in others.iter().enumerate() {
        assert_ne!(&base, other);
        for earlier in &others[..i] {
            assert_ne!(earlier, other);
        }
    }
}

#[test]
fn derivation_refuses_a_short_salt() {
    let derived = derive_key(b"secret", b"1234567", Version::V0x13, small());
    assert_eq!(derived.err(), Some(Error::Derivation(KdfError::SaltTooShort)));
    let derived = derive_key(b"secret", b"", Version::V0x10, small());
    assert_eq!(derived.err(), Some(Error::Derivation(KdfError::SaltTooShort)));
}

#[test]
fn derivation_takes_an_empty_secret_and_a_long_salt() {
    assert!(derive_key(b"", b"12345678", Version::V0x13, small()).is_ok());
    let salt = vec![7u8; 1000];
    assert!(derive_key(b"secret", &salt, Version::V0x13, small()).is_ok());
}

#[test]
fn end_to_end_fixture() {
    let params = Params::new(19456, 2, 1).unwrap();
    let key = derive_key(b"correct horse battery staple", &[0u8; 16], Version::V0x13, params).unwrap();
    assert_eq!(
        hex_string_from_bytes(key.as_bytes()),
        "bcaf6fd0e5aaa31b272240c38067653313e9f7802fc226ccf8416cf7bcf9e644"
    );
    let passphrase = passphrase_from_key(key);
    assert_eq!(passphrase.as_str(), "vK9v0OWqoxsnIkDDgGdlMxPp94AvwibM+EFs97z55kQ=");
}

#[test]
fn salt_has_the_length_asked_for() {
    assert_eq!(generate_salt(16).unwrap().len(), 16);
    assert_eq!(generate_salt(0).unwrap().len(), 0);
    assert_eq!(generate_salt(1).unwrap().len(), 1);
    assert_eq!(generate_salt(1000).unwrap().len(), 1000);
}

#[test]
fn salts_differ_from_call_to_call() {
    let first = generate_salt(16).unwrap();
    let second = generate_salt(16).unwrap();
    assert_ne!(first, second);
    assert_ne!(generate_salt(32).unwrap(), vec![0u8; 32]);
}

#[test]
fn a_filled_buffer_is_the_salt() {
    assert_eq!(salt_from_fill(vec![1, 2, 3], Ok(())), Ok(vec![1, 2, 3]));
    assert_eq!(salt_from_fill(Vec::new(), Ok(())), Ok(Vec::new()));
}
