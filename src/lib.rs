//! Recoverable ECDSA signatures over secp256k1: a fixed 65-byte layout
//! `r || s || v`, signing of 32-byte digests and verification against
//! 64-byte uncompressed public keys.

mod curve;
mod error;
mod keys;
mod scalar;
mod signature;

pub use curve::{
    canonical_scalars, curve_order, ecdsa_equation_holds, field_prime, half_order,
    recoverable_signature_of, scalars_below_order, valid_secret, valid_uncompressed_point,
};
pub use error::{error_of, CryptoError};
pub use keys::{Public, Secret};
pub use scalar::{be_less, be_nat, is_zero, lemma_be_nat_bound, lemma_be_nat_zeros, pow256};
pub use signature::{
    decode, encode, lemma_bytes_round_trip, lemma_fields_round_trip, lemma_signed_passes_format_checks, lemma_view_determines,
    lemma_zero_signature_never_verifies, sign, signing_outcome, tagged, verify, verify_outcome,
    zero_signature, Signature,
};
