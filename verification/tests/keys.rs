use ed25519_dalek::Verifier;
use zktls::NotaryKeyPair;

#[test]
fn generate_produces_valid_keypair() {
    let kp = NotaryKeyPair::generate();
    assert_eq!(kp.public_key_bytes().len(), 32);
    assert_eq!(kp.seed().len(), 32);
}

#[test]
fn from_seed_roundtrips() {
    let kp1 = NotaryKeyPair::generate();
    let seed = *kp1.seed();
    let kp2 = NotaryKeyPair::from_seed(&seed);
    assert_eq!(kp1.public_key_bytes(), kp2.public_key_bytes());
}

#[test]
fn sign_produces_valid_signature() {
    let kp = NotaryKeyPair::generate();
    let message = b"test message for signing";
    let sig_bytes = kp.sign(message);
    assert_eq!(sig_bytes.len(), 64);

    // Verify with the public key
    let sig = ed25519_dalek::Signature::from_bytes(
        sig_bytes.as_slice().try_into().expect("64 bytes"),
    );
    kp.verifying_key()
        .verify(message, &sig)
        .expect("signature should verify");
}

#[test]
fn different_keys_produce_different_signatures() {
    let kp1 = NotaryKeyPair::generate();
    let kp2 = NotaryKeyPair::generate();
    let message = b"same message";
    assert_ne!(kp1.sign(message), kp2.sign(message));
}

#[test]
fn signature_fails_with_wrong_key() {
    let kp1 = NotaryKeyPair::generate();
    let kp2 = NotaryKeyPair::generate();
    let message = b"test message";
    let sig_bytes = kp1.sign(message);

    let sig = ed25519_dalek::Signature::from_bytes(
        sig_bytes.as_slice().try_into().expect("64 bytes"),
    );
    // Verifying with kp2's public key should fail
    assert!(kp2.verifying_key().verify(message, &sig).is_err());
}

#[test]
fn known_seed_gives_rfc8032_public_key_and_signature() {
    // RFC 8032, section 7.1, test 1 (empty message).
    let seed: [u8; 32] = [
        0x9d, 0x61, 0xb1, 0x9d, 0xef, 0xfd, 0x5a, 0x60, 0xba, 0x84, 0x4a, 0xf4, 0x92, 0xec, 0x2c,
        0xc4, 0x44, 0x49, 0xc5, 0x69, 0x7b, 0x32, 0x69, 0x19, 0x70, 0x3b, 0xac, 0x03, 0x1c, 0xae,
        0x7f, 0x60,
    ];
    let kp = NotaryKeyPair::from_seed(&seed);
    assert_eq!(
        hex::encode(&kp.public_key_bytes()),
        "d75a980182b10ab7d54bfed3c964073a0ee172f3daa62325af021a68f707511a"
    );
    assert_eq!(
        hex::encode(&kp.sign(b"")),
        "e5564300c360ac729086e2cc806e828a84877f1eb8e5d974d873e06522490155\
         5fb8821590a33bacc61e39701cf9b46bd25bf5f0595bbe24655141438e7a100b"
    );
    assert_eq!(kp.seed(), &seed);
    assert_eq!(kp.verifying_key().to_bytes().to_vec(), kp.public_key_bytes());
}

#[test]
fn key_file_must_hold_exactly_32_bytes() {
    let kp = NotaryKeyPair::generate();
    let restored = NotaryKeyPair::from_key_file(kp.seed()).expect("32-byte file");
    assert_eq!(restored.public_key_bytes(), kp.public_key_bytes());
    assert_eq!(
        NotaryKeyPair::from_key_file(&[0u8; 31]).err().unwrap(),
        "key file must be exactly 32 bytes, got 31"
    );
    assert_eq!(
        NotaryKeyPair::from_key_file(&[]).err().unwrap(),
        "key file must be exactly 32 bytes, got 0"
    );
    assert_eq!(
        NotaryKeyPair::from_key_file(&[7u8; 64]).err().unwrap(),
        "key file must be exactly 32 bytes, got 64"
    );
}

#[test]
fn restored_key_signs_identically() {
    let kp1 = NotaryKeyPair::generate();
    let kp2 = NotaryKeyPair::from_seed(kp1.seed());
    let message = b"notarized transcript";
    assert_eq!(kp1.sign(message), kp2.sign(message));
    assert_eq!(kp1.sign(message), kp1.sign(message));
}
