use vstd::prelude::*;

use crate::scalar::be_nat;

verus! {

#[verifier::external_type_specification]
#[verifier::external_body]
pub struct ExInvalidParityValue(secp256k1::InvalidParityValue);

#[verifier::external_type_specification]
pub struct ExSecpError(secp256k1::Error);

/// The order `n` of the secp256k1 group, as 32 big-endian bytes.
pub open spec fn curve_order() -> Seq<u8> {
    seq![
        0xFFu8, 0xFF, 0xFF, 0xFF, 0xFF, 0xFF, 0xFF, 0xFF, 0xFF, 0xFF, 0xFF, 0xFF, 0xFF, 0xFF, 0xFF, 0xFE,
        0xBA, 0xAE, 0xDC, 0xE6, 0xAF, 0x48, 0xA0, 0x3B, 0xBF, 0xD2, 0x5E, 0x8C, 0xD0, 0x36, 0x41, 0x41,
    ]
}

/// `n / 2` rounded down: the largest `s` of the low-S form.
pub open spec fn half_order() -> Seq<u8> {
    seq![
        0x7Fu8, 0xFF, 0xFF, 0xFF, 0xFF, 0xFF, 0xFF, 0xFF, 0xFF, 0xFF, 0xFF, 0xFF, 0xFF, 0xFF, 0xFF, 0xFF,
        0x5D, 0x57, 0x6E, 0x73, 0x57, 0xA4, 0x50, 0x1D, 0xDF, 0xE9, 0x2F, 0x46, 0x68, 0x1B, 0x20, 0xA0,
    ]
}

/// The prime `p` of the field that point coordinates live in.
pub open spec fn field_prime() -> Seq<u8> {
    seq![
        0xFFu8, 0xFF, 0xFF, 0xFF, 0xFF, 0xFF, 0xFF, 0xFF, 0xFF, 0xFF, 0xFF, 0xFF, 0xFF, 0xFF, 0xFF, 0xFF,
        0xFF, 0xFF, 0xFF, 0xFF, 0xFF, 0xFF, 0xFF, 0xFF, 0xFF, 0xFF, 0xFF, 0xFE, 0xFF, 0xFF, 0xFC, 0x2F,
    ]
}

/// The group order as an array.
pub fn curve_order_bytes() -> (r: [u8; 32])
    ensures
        r@ == curve_order(),
{
    let r: [u8; 32] = [
        0xFF, 0xFF, 0xFF, 0xFF, 0xFF, 0xFF, 0xFF, 0xFF, 0xFF, 0xFF, 0xFF, 0xFF, 0xFF, 0xFF, 0xFF, 0xFE,
        0xBA, 0xAE, 0xDC, 0xE6, 0xAF, 0x48, 0xA0, 0x3B, 0xBF, 0xD2, 0x5E, 0x8C, 0xD0, 0x36, 0x41, 0x41,
    ];
    assert(r@ =~= curve_order());
    r
}

/// Half the group order as an array.
pub fn half_order_bytes() -> (r: [u8; 32])
    ensures
        r@ == half_order(),
{
    let r: [u8; 32] = [
        0x7F, 0xFF, 0xFF, 0xFF, 0xFF, 0xFF, 0xFF, 0xFF, 0xFF, 0xFF, 0xFF, 0xFF, 0xFF, 0xFF, 0xFF, 0xFF,
        0x5D, 0x57, 0x6E, 0x73, 0x57, 0xA4, 0x50, 0x1D, 0xDF, 0xE9, 0x2F, 0x46, 0x68, 0x1B, 0x20, 0xA0,
    ];
    assert(r@ =~= half_order());
    r
}

/// A secret key is a scalar in `1..n`.
pub open spec fn valid_secret(secret: Seq<u8>) -> bool {
    0 < be_nat(secret) < be_nat(curve_order())
}

/// The `r` half of a 64-byte compact signature.
pub open spec fn compact_r(compact: Seq<u8>) -> Seq<u8> {
    compact.subrange(0, 32)
}

/// The `s` half of a 64-byte compact signature.
pub open spec fn compact_s(compact: Seq<u8>) -> Seq<u8> {
    compact.subrange(32, 64)
}

/// Both scalars of a compact signature are below the group order.
pub open spec fn scalars_below_order(compact: Seq<u8>) -> bool {
    &&& be_nat(compact_r(compact)) < be_nat(curve_order())
    &&& be_nat(compact_s(compact)) < be_nat(curve_order())
}

/// Canonical form: `r` in `1..n` and `s` in `1..=n/2` (low-S).
pub open spec fn canonical_scalars(compact: Seq<u8>) -> bool {
    &&& 0 < be_nat(compact_r(compact)) < be_nat(curve_order())
    &&& 0 < be_nat(compact_s(compact)) <= be_nat(half_order())
}

/// A 65-byte uncompressed encoding `0x04 || x || y` of a point of the curve
/// `y^2 = x^3 + 7` over the field of `p` elements.
pub open spec fn valid_uncompressed_point(tagged: Seq<u8>) -> bool {
    let p = be_nat(field_prime()) as int;
    let x = be_nat(tagged.subrange(1, 33)) as int;
    let y = be_nat(tagged.subrange(33, 65)) as int;
    &&& tagged.len() == 65
    &&& tagged[0] == 4
    &&& x < p
    &&& y < p
    &&& (y * y) % p == (x * x * x + 7) % p
}

/// The outcome of a check is the error `e`.
pub open spec fn rejected_with(r: Result<(), secp256k1::Error>, e: secp256k1::Error) -> bool {
    r == Err::<(), secp256k1::Error>(e)
}

/// What deterministic (RFC 6979) recoverable signing of `digest` under
/// `secret` gives: the 64-byte compact `r || s` and the recovery id.
pub uninterp spec fn recoverable_signature_of(secret: Seq<u8>, digest: Seq<u8>) -> (Seq<u8>, i32);

/// Whether the ECDSA verification equation holds for `digest`, the compact
/// signature and the tagged public key, once the scalars have been loaded.
pub uninterp spec fn ecdsa_equation_holds(digest: Seq<u8>, compact: Seq<u8>, tagged_key: Seq<u8>) -> bool;

/// Relies on `SecretKey::from_slice` (fails with `InvalidSecretKey` exactly
/// when the bytes are not a scalar in `1..n`), `Message::from_digest`,
/// `Secp256k1::sign_ecdsa_recoverable` on the global context (deterministic
/// nonce, so the result depends on the key and the digest alone) and
/// `RecoverableSignature::serialize_compact` (`r || s` and the recovery id).
#[verifier::external_body]
pub(crate) fn sign_recoverable(secret: &[u8; 32], digest: &[u8; 32]) -> (r: Result<([u8; 64], i32), secp256k1::Error>)
    ensures
        r is Ok <==> valid_secret(secret@),
        match r {
            Ok((compact, id)) => (compact@, id) == recoverable_signature_of(secret@, digest@),
            Err(e) => e == secp256k1::Error::InvalidSecretKey,
        },
{
    let key = secp256k1::SecretKey::from_slice(secret)?;
    let message = secp256k1::Message::from_digest(*digest);
    let signature = secp256k1::SECP256K1.sign_ecdsa_recoverable(&message, &key);
    let (id, compact) = signature.serialize_compact();
    Ok((compact, id.to_i32()))
}

/// Relies on `RecoveryId::from_i32` (accepts `0..=3`),
/// `RecoverableSignature::from_compact` (fails with `InvalidSignature` when a
/// scalar is not below `n`), `RecoverableSignature::to_standard`,
/// `PublicKey::from_slice` (fails with `InvalidPublicKey` unless the tagged
/// bytes are a point of the curve) and `Secp256k1::verify_ecdsa` on the global
/// context, which fails with `IncorrectSignature` unless `r` and `s` are
/// nonzero, `s` is low and the verification equation holds.
#[verifier::external_body]
pub(crate) fn check_recoverable(
    digest: &[u8; 32],
    compact: &[u8; 64],
    recid: i32,
    tagged: &[u8; 65],
) -> (r: Result<(), secp256k1::Error>)
    requires
        tagged@[0] == 4,
    ensures
        !(0 <= recid <= 3) ==> rejected_with(r, secp256k1::Error::InvalidRecoveryId),
        0 <= recid <= 3 && !scalars_below_order(compact@) ==> rejected_with(
            r,
            secp256k1::Error::InvalidSignature,
        ),
        0 <= recid <= 3 && scalars_below_order(compact@) && !valid_uncompressed_point(tagged@)
            ==> rejected_with(r, secp256k1::Error::InvalidPublicKey),
        0 <= recid <= 3 && scalars_below_order(compact@) && valid_uncompressed_point(tagged@) ==> (
        r is Ok) == (canonical_scalars(compact@) && ecdsa_equation_holds(
            digest@,
            compact@,
            tagged@,
        )),
        0 <= recid <= 3 && scalars_below_order(compact@) && valid_uncompressed_point(tagged@) && r is Err
            ==> rejected_with(r, secp256k1::Error::IncorrectSignature),
{
    let id = secp256k1::ecdsa::RecoveryId::from_i32(recid)?;
    let signature = secp256k1::ecdsa::RecoverableSignature::from_compact(compact, id)?.to_standard();
    let key = secp256k1::PublicKey::from_slice(tagged)?;
    let message = secp256k1::Message::from_digest(*digest);
    secp256k1::SECP256K1.verify_ecdsa(&message, &signature, &key)
}

} // verus!
