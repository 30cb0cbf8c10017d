use enclave_secrets::derivation::{DerivationError, DerivationPolicy, KeyRequest};
use enclave_secrets::sealing::{open, seal, CryptoError, Nonce, SecretKey};
use enclave_secrets::user_data::{
    safe_seal_user_data, safe_unseal_user_data, seal_user_data, unseal_user_data, SealError,
    SealedUserData, SEALED_KEY_SIZE,
};

const USER_KEY: [u8; 32] = [0x42u8; 32];

const ENCLAVE_KEY: [u8; 32] = [0x99u8; 32];

fn software_key(request: KeyRequest) -> Result<SecretKey, DerivationError> {
    let mut key = [0xa5u8; 32];
    for (i, byte) in request.key_id().iter().enumerate() {
        key[i % 32] = key[i % 32].rotate_left(1) ^ byte;
    }
    Ok(SecretKey::new(key))
}

fn unavailable(_request: KeyRequest) -> Result<SecretKey, DerivationError> {
    Err(DerivationError)
}

fn fresh_key() -> SecretKey {
    SecretKey::new(USER_KEY)
}

#[test]
fn sealed_key_has_forty_eight_bytes() {
    assert_eq!(SEALED_KEY_SIZE, 48);
    let (sealed_data, sealed_key) = seal_user_data(
        b"alice",
        b"payload",
        SecretKey::new(USER_KEY),
        SecretKey::new(ENCLAVE_KEY),
    )
    .unwrap();
    assert_eq!(sealed_key.len(), 48);
    assert_eq!(sealed_data.len(), 7 + 16);
}

#[test]
fn data_is_sealed_under_the_user_key_and_that_key_under_the_enclave_key() {
    let (sealed_data, sealed_key) = seal_user_data(
        b"alice",
        b"payload",
        SecretKey::new(USER_KEY),
        SecretKey::new(ENCLAVE_KEY),
    )
    .unwrap();
    let expected_data =
        seal(b"payload", SecretKey::new(USER_KEY), Nonce::new([0u8; 12]), b"alice").unwrap();
    let expected_key =
        seal(&USER_KEY, SecretKey::new(ENCLAVE_KEY), Nonce::new([0u8; 12]), b"alice").unwrap();
    assert_eq!(sealed_data, expected_data);
    assert_eq!(&sealed_key[..], &expected_key[..]);

    let opened_key =
        open(&sealed_key, SecretKey::new(ENCLAVE_KEY), Nonce::new([0u8; 12]), b"alice").unwrap();
    assert_eq!(&*opened_key, &USER_KEY[..]);
}

#[test]
fn unsealing_recovers_the_payload() {
    for payload in [&b""[..], &b"x"[..], &[7u8; 1000][..]] {
        let (sealed_data, sealed_key) = seal_user_data(
            b"alice",
            payload,
            SecretKey::new(USER_KEY),
            SecretKey::new(ENCLAVE_KEY),
        )
        .unwrap();
        let opened =
            unseal_user_data(b"alice", &sealed_data, &sealed_key, SecretKey::new(ENCLAVE_KEY))
                .unwrap();
        assert_eq!(&*opened, payload);
    }
}

#[test]
fn unsealing_for_another_user_fails() {
    let (sealed_data, sealed_key) = seal_user_data(
        b"alice",
        b"payload",
        SecretKey::new(USER_KEY),
        SecretKey::new(ENCLAVE_KEY),
    )
    .unwrap();
    let result = unseal_user_data(b"bob", &sealed_data, &sealed_key, SecretKey::new(ENCLAVE_KEY));
    assert_eq!(result.err(), Some(CryptoError));
}

#[test]
fn unsealing_under_another_enclave_key_fails() {
    let (sealed_data, sealed_key) = seal_user_data(
        b"alice",
        b"payload",
        SecretKey::new(USER_KEY),
        SecretKey::new(ENCLAVE_KEY),
    )
    .unwrap();
    let result = unseal_user_data(b"alice", &sealed_data, &sealed_key, SecretKey::new([0u8; 32]));
    assert_eq!(result.err(), Some(CryptoError));
}

#[test]
fn unsealing_what_was_tampered_with_fails() {
    let (sealed_data, sealed_key) = seal_user_data(
        b"alice",
        b"payload",
        SecretKey::new(USER_KEY),
        SecretKey::new(ENCLAVE_KEY),
    )
    .unwrap();

    let mut other_key = sealed_key;
    other_key[0] ^= 1;
    let result = unseal_user_data(b"alice", &sealed_data, &other_key, SecretKey::new(ENCLAVE_KEY));
    assert_eq!(result.err(), Some(CryptoError));

    let mut other_data = sealed_data.to_vec();
    other_data[3] ^= 0x80;
    let result = unseal_user_data(b"alice", &other_data, &sealed_key, SecretKey::new(ENCLAVE_KEY));
    assert_eq!(result.err(), Some(CryptoError));

    let result =
        unseal_user_data(b"alice", &sealed_data, &sealed_key[..47], SecretKey::new(ENCLAVE_KEY));
    assert_eq!(result.err(), Some(CryptoError));
}

#[test]
fn sealed_key_that_opens_to_no_key_is_rejected() {
    // Authentic under the enclave key, but what it holds is not 32 bytes long.
    let not_a_key =
        seal(b"too short", SecretKey::new(ENCLAVE_KEY), Nonce::new([0u8; 12]), b"alice").unwrap();
    let sealed_data =
        seal(b"payload", SecretKey::new(USER_KEY), Nonce::new([0u8; 12]), b"alice").unwrap();
    let result = unseal_user_data(b"alice", &sealed_data, &not_a_key, SecretKey::new(ENCLAVE_KEY));
    assert_eq!(result.err(), Some(CryptoError));
}

#[test]
fn safe_seal_then_safe_unseal_round_trips() {
    let sealed = safe_seal_user_data(fresh_key, software_key, b"alice", b"private data").unwrap();
    assert_eq!(&*sealed.user_id, b"alice");
    assert_eq!(sealed.user_data.len(), 12 + 16);
    assert_eq!(sealed.user_sealing_key.len(), 48);
    let opened = safe_unseal_user_data(software_key, &sealed).unwrap();
    assert_eq!(&*opened, b"private data");
}

#[test]
fn safe_seal_uses_the_keys_it_is_handed() {
    let sealed = safe_seal_user_data(fresh_key, software_key, b"alice", b"private data").unwrap();
    let pepper = software_key(KeyRequest::new(b"alice", DerivationPolicy::SignerScoped)).unwrap();
    let (sealed_data, sealed_key) =
        seal_user_data(b"alice", b"private data", SecretKey::new(USER_KEY), pepper).unwrap();
    assert_eq!(sealed.user_data, sealed_data);
    assert_eq!(sealed.user_sealing_key, sealed_key);
}

#[test]
fn safe_seal_asks_for_the_pepper_of_the_user() {
    let mut asked: Vec<(Vec<u8>, DerivationPolicy)> = Vec::new();
    let sealed = safe_seal_user_data(
        fresh_key,
        |request: KeyRequest| {
            asked.push((request.key_id().to_vec(), request.policy()));
            software_key(request)
        },
        b"frank",
        b"data",
    )
    .unwrap();
    let opened = safe_unseal_user_data(
        |request: KeyRequest| {
            asked.push((request.key_id().to_vec(), request.policy()));
            software_key(request)
        },
        &sealed,
    )
    .unwrap();
    assert_eq!(&*opened, b"data");
    assert_eq!(
        asked,
        vec![
            (b"frank".to_vec(), DerivationPolicy::SignerScoped),
            (b"frank".to_vec(), DerivationPolicy::SignerScoped),
        ]
    );
}

#[test]
fn safe_unseal_for_another_user_fails() {
    let sealed = safe_seal_user_data(fresh_key, software_key, b"alice", b"private data").unwrap();
    let moved = SealedUserData {
        user_id: b"bob".to_vec().into_boxed_slice(),
        user_data: sealed.user_data,
        user_sealing_key: sealed.user_sealing_key,
    };
    assert_eq!(safe_unseal_user_data(software_key, &moved).err(), Some(SealError::CryptoError));
}

#[test]
fn unavailable_key_source_fails_sealing_and_unsealing() {
    let result = safe_seal_user_data(fresh_key, unavailable, b"alice", b"private data");
    assert_eq!(result.err(), Some(SealError::DerivationError));

    let sealed = safe_seal_user_data(fresh_key, software_key, b"alice", b"private data").unwrap();
    let result = safe_unseal_user_data(unavailable, &sealed);
    assert_eq!(result.err(), Some(SealError::DerivationError));
}
