use vstd::prelude::*;

verus! {

/// Why signing or verification could not be carried out.
#[derive(Debug, Clone, Copy, PartialEq, Eq)]
pub enum CryptoError {
    /// The secret is not a scalar in `1..n`.
    InvalidSecret,
    /// The public key, once tagged, is not a point of the curve.
    InvalidPublic,
    /// A scalar of the signature is out of range or not in canonical form.
    InvalidSignature,
    /// The digest was refused.
    InvalidMessage,
    /// Byte 64 of the signature is not a recovery id.
    InvalidRecoveryId,
    /// Any other failure of the curve library, as it reported it.
    Secp(secp256k1::Error),
}

/// The error of this library that a failure of the curve library maps to.
pub open spec fn error_of(e: secp256k1::Error) -> CryptoError {
    match e {
        secp256k1::Error::InvalidSecretKey => CryptoError::InvalidSecret,
        secp256k1::Error::InvalidPublicKey => CryptoError::InvalidPublic,
        secp256k1::Error::InvalidSignature => CryptoError::InvalidSignature,
        secp256k1::Error::InvalidMessage => CryptoError::InvalidMessage,
        secp256k1::Error::InvalidRecoveryId => CryptoError::InvalidRecoveryId,
        _ => CryptoError::Secp(e),
    }
}

impl From<secp256k1::Error> for CryptoError {
    fn from(e: secp256k1::Error) -> CryptoError {
        match e {
            secp256k1::Error::InvalidSecretKey => CryptoError::InvalidSecret,
            secp256k1::Error::InvalidPublicKey => CryptoError::InvalidPublic,
            secp256k1::Error::InvalidSignature => CryptoError::InvalidSignature,
            secp256k1::Error::InvalidMessage => CryptoError::InvalidMessage,
            secp256k1::Error::InvalidRecoveryId => CryptoError::InvalidRecoveryId,
            _ => CryptoError::Secp(e),
        }
    }
}

impl vstd::std_specs::convert::FromSpecImpl<secp256k1::Error> for CryptoError {
    open spec fn obeys_from_spec() -> bool {
        true
    }

    open spec fn from_spec(e: secp256k1::Error) -> CryptoError {
        error_of(e)
    }
}

} // verus!
