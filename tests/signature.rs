use ethkey::{sign, verify, CryptoError, Public, Secret, Signature};

fn keypair_from(secret: [u8; 32]) -> (Secret, Public) {
    let key = secp256k1::SecretKey::from_slice(&secret).unwrap();
    let point = secp256k1::PublicKey::from_secret_key_global(&key).serialize_uncompressed();
    let mut public = [0u8; 64];
    public.copy_from_slice(&point[1..65]);
    (Secret(secret), Public(public))
}

fn random_keypair() -> (Secret, Public) {
    let (key, _) = secp256k1::SECP256K1.generate_keypair(&mut secp256k1::rand::thread_rng());
    keypair_from(key.secret_bytes())
}

fn is_low_s(s: &[u8; 32]) -> bool {
    let half: [u8; 32] = [
        0x7F, 0xFF, 0xFF, 0xFF, 0xFF, 0xFF, 0xFF, 0xFF, 0xFF, 0xFF, 0xFF, 0xFF, 0xFF, 0xFF, 0xFF, 0xFF,
        0x5D, 0x57, 0x6E, 0x73, 0x57, 0xA4, 0x50, 0x1D, 0xDF, 0xE9, 0x2F, 0x46, 0x68, 0x1B, 0x20, 0xA0,
    ];
    s[..] <= half[..]
}

#[test]
fn sign_and_verify() {
    let (secret, public) = random_keypair();
    let message = [1u8; 32];
    let signature = sign(&secret, &message).unwrap();
    assert!(verify(&public, &signature, &message).unwrap());
}

#[test]
fn round_trip_on_many_keys_and_digests() {
    for k in 1u8..=20 {
        let (secret, public) = keypair_from([k; 32]);
        let digest = [k.wrapping_mul(37); 32];
        let signature = sign(&secret, &digest).unwrap();
        assert_eq!(verify(&public, &signature, &digest), Ok(true));
        assert!(signature.v <= 3);
        assert!(is_low_s(&signature.s));
    }
}

#[test]
fn scenario_flip_first_byte() {
    let (secret, public) = random_keypair();
    let digest = [0x01u8; 32];
    let mut sig = sign(&secret, &digest).unwrap();
    assert_eq!(verify(&public, &sig, &digest), Ok(true));
    let b = sig.byte(0);
    sig.set_byte(0, b ^ 0x01);
    assert_eq!(verify(&public, &sig, &digest), Ok(false));
}

#[test]
fn tampered_digest_is_rejected() {
    let (secret, public) = keypair_from([7u8; 32]);
    let digest = [0x42u8; 32];
    let signature = sign(&secret, &digest).unwrap();
    for i in [0usize, 13, 31] {
        for bit in [0u8, 5, 7] {
            let mut other = digest;
            other[i] ^= 1 << bit;
            assert_eq!(verify(&public, &signature, &other), Ok(false));
        }
    }
}

#[test]
fn tampered_scalars_are_rejected() {
    let (secret, public) = keypair_from([9u8; 32]);
    let digest = [0x10u8; 32];
    let signature = sign(&secret, &digest).unwrap();
    for i in [1usize, 17, 31, 33, 48, 63] {
        let mut sig = signature;
        let b = sig.byte(i);
        sig.set_byte(i, b ^ 0x08);
        assert_eq!(verify(&public, &sig, &digest), Ok(false));
    }
}

#[test]
fn out_of_range_recovery_id_is_an_error() {
    let (secret, public) = keypair_from([3u8; 32]);
    let digest = [0x55u8; 32];
    let signature = sign(&secret, &digest).unwrap();
    for v in [4u8, 27, 28, 255] {
        let mut sig = signature;
        sig.v = v;
        assert_eq!(verify(&public, &sig, &digest), Err(CryptoError::InvalidRecoveryId));
    }
}

#[test]
fn bytes_round_trip() {
    let mut b = [0u8; 65];
    for (i, x) in b.iter_mut().enumerate() {
        *x = (i as u8).wrapping_mul(7).wrapping_add(3);
    }
    let sig = Signature::from_bytes(b);
    assert_eq!(&sig.r[..], &b[0..32]);
    assert_eq!(&sig.s[..], &b[32..64]);
    assert_eq!(sig.v, b[64]);
    assert_eq!(sig.to_bytes(), b);
    assert_eq!(Signature::from_bytes(sig.to_bytes()), sig);
    for i in 0..65 {
        assert_eq!(sig.byte(i), b[i]);
    }
}

#[test]
fn set_byte_writes_the_right_field() {
    let mut sig = Signature::default();
    sig.set_byte(5, 0xAA);
    sig.set_byte(40, 0xBB);
    sig.set_byte(64, 2);
    assert_eq!(sig.r[5], 0xAA);
    assert_eq!(sig.s[8], 0xBB);
    assert_eq!(sig.v, 2);
    let b = sig.to_bytes();
    assert_eq!(b[5], 0xAA);
    assert_eq!(b[40], 0xBB);
    assert_eq!(b[64], 2);
}

#[test]
fn default_signature_is_zero_and_never_verifies() {
    let sig = Signature::default();
    assert_eq!(sig.to_bytes(), [0u8; 65]);
    let (_, public) = keypair_from([5u8; 32]);
    assert_eq!(verify(&public, &sig, &[0x77u8; 32]), Ok(false));
    assert_eq!(verify(&public, &sig, &[0u8; 32]), Ok(false));
}

#[test]
fn cross_key_is_rejected() {
    let (secret_a, _) = keypair_from([0x11u8; 32]);
    let (_, public_b) = keypair_from([0x22u8; 32]);
    let digest = [0x33u8; 32];
    let signature = sign(&secret_a, &digest).unwrap();
    assert_eq!(verify(&public_b, &signature, &digest), Ok(false));
}

#[test]
fn signing_is_deterministic() {
    let (secret, _) = keypair_from([0x2Au8; 32]);
    let digest = [0x99u8; 32];
    let a = sign(&secret, &digest).unwrap();
    let b = sign(&secret, &digest).unwrap();
    assert_eq!(a, b);
    assert_ne!(a.to_bytes()[0..64], [0u8; 64][..]);
    let c = sign(&secret, &[0x98u8; 32]).unwrap();
    assert_ne!(a, c);
}

#[test]
fn signature_matches_curve_library() {
    let secret = [0x0Fu8; 32];
    let digest = [0xC3u8; 32];
    let sig = sign(&Secret(secret), &digest).unwrap();
    let key = secp256k1::SecretKey::from_slice(&secret).unwrap();
    let message = secp256k1::Message::from_digest(digest);
    let (id, compact) = secp256k1::SECP256K1.sign_ecdsa_recoverable(&message, &key).serialize_compact();
    assert_eq!(&sig.to_bytes()[0..64], &compact[..]);
    assert_eq!(sig.v as i32, id.to_i32());
}

#[test]
fn invalid_secret_is_an_error() {
    let digest = [1u8; 32];
    assert_eq!(sign(&Secret([0u8; 32]), &digest), Err(CryptoError::InvalidSecret));
    assert_eq!(sign(&Secret([0xFFu8; 32]), &digest), Err(CryptoError::InvalidSecret));
    let order: [u8; 32] = [
        0xFF, 0xFF, 0xFF, 0xFF, 0xFF, 0xFF, 0xFF, 0xFF, 0xFF, 0xFF, 0xFF, 0xFF, 0xFF, 0xFF, 0xFF, 0xFE,
        0xBA, 0xAE, 0xDC, 0xE6, 0xAF, 0x48, 0xA0, 0x3B, 0xBF, 0xD2, 0x5E, 0x8C, 0xD0, 0x36, 0x41, 0x41,
    ];
    assert_eq!(sign(&Secret(order), &digest), Err(CryptoError::InvalidSecret));
    let mut below = order;
    below[31] = 0x40;
    assert!(sign(&Secret(below), &digest).is_ok());
}

#[test]
fn invalid_public_is_an_error() {
    let (secret, public) = keypair_from([4u8; 32]);
    let digest = [8u8; 32];
    let signature = sign(&secret, &digest).unwrap();
    assert_eq!(verify(&Public([0u8; 64]), &signature, &digest), Err(CryptoError::InvalidPublic));
    let mut off_curve = public;
    off_curve.0[63] ^= 1;
    assert_eq!(verify(&off_curve, &signature, &digest), Err(CryptoError::InvalidPublic));
}

#[test]
fn out_of_range_scalar_is_an_error() {
    let (_, public) = keypair_from([6u8; 32]);
    let mut sig = Signature::default();
    sig.r = [0xFFu8; 32];
    sig.s = [1u8; 32];
    assert_eq!(verify(&public, &sig, &[2u8; 32]), Err(CryptoError::InvalidSignature));
    sig.r = [1u8; 32];
    sig.s = [0xFFu8; 32];
    assert_eq!(verify(&public, &sig, &[2u8; 32]), Err(CryptoError::InvalidSignature));
}

#[test]
fn high_s_is_not_accepted() {
    let (secret, public) = keypair_from([0x31u8; 32]);
    let digest = [0x5Au8; 32];
    let sig = sign(&secret, &digest).unwrap();
    let order: [u8; 32] = [
        0xFF, 0xFF, 0xFF, 0xFF, 0xFF, 0xFF, 0xFF, 0xFF, 0xFF, 0xFF, 0xFF, 0xFF, 0xFF, 0xFF, 0xFF, 0xFE,
        0xBA, 0xAE, 0xDC, 0xE6, 0xAF, 0x48, 0xA0, 0x3B, 0xBF, 0xD2, 0x5E, 0x8C, 0xD0, 0x36, 0x41, 0x41,
    ];
    let mut negated = [0u8; 32];
    let mut borrow = 0i16;
    for i in (0..32).rev() {
        let mut d = order[i] as i16 - sig.s[i] as i16 - borrow;
        borrow = 0;
        if d < 0 {
            d += 256;
            borrow = 1;
        }
        negated[i] = d as u8;
    }
    let mut high = sig;
    high.s = negated;
    high.v ^= 1;
    assert_eq!(verify(&public, &high, &digest), Ok(false));
}

#[test]
fn error_mapping_keeps_kinds() {
    assert_eq!(CryptoError::from(secp256k1::Error::InvalidSecretKey), CryptoError::InvalidSecret);
    assert_eq!(CryptoError::from(secp256k1::Error::InvalidPublicKey), CryptoError::InvalidPublic);
    assert_eq!(CryptoError::from(secp256k1::Error::InvalidSignature), CryptoError::InvalidSignature);
    assert_eq!(CryptoError::from(secp256k1::Error::InvalidMessage), CryptoError::InvalidMessage);
    assert_eq!(CryptoError::from(secp256k1::Error::InvalidRecoveryId), CryptoError::InvalidRecoveryId);
    assert_eq!(
        CryptoError::from(secp256k1::Error::InvalidTweak),
        CryptoError::Secp(secp256k1::Error::InvalidTweak)
    );
}
