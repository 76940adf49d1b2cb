use vstd::prelude::*;

use crate::curve::{
    canonical_scalars, check_recoverable, compact_r, compact_s, curve_order, curve_order_bytes,
    ecdsa_equation_holds, half_order, half_order_bytes, recoverable_signature_of,
    scalars_below_order, sign_recoverable, valid_secret, valid_uncompressed_point,
};
use crate::error::CryptoError;
use crate::keys::{Public, Secret};
use crate::scalar::{be_less, is_zero, lemma_be_nat_zeros, lemma_head_decides};

verus! {

/// A recoverable signature: `r` and `s` as 32-byte big-endian scalars and the
/// recovery id `v`. Its bytes are `r || s || v`, 65 in all.
#[derive(Debug, Clone, Copy, PartialEq, Eq)]
pub struct Signature {
    pub r: [u8; 32],
    pub s: [u8; 32],
    pub v: u8,
}

/// The 65 bytes of a signature with the given fields.
pub open spec fn encode(r: Seq<u8>, s: Seq<u8>, v: u8) -> Seq<u8> {
    r + s + seq![v]
}

/// The fields `(r, s, v)` that 65 bytes stand for.
pub open spec fn decode(b: Seq<u8>) -> (Seq<u8>, Seq<u8>, u8) {
    (b.subrange(0, 32), b.subrange(32, 64), b[64])
}

/// The bytes of the all-zero signature.
pub open spec fn zero_signature() -> Seq<u8> {
    Seq::new(65, |i: int| 0u8)
}

/// The uncompressed encoding of a public key: the tag `0x04`, then `x || y`.
pub open spec fn tagged(public: Seq<u8>) -> Seq<u8> {
    seq![4u8] + public
}

impl View for Signature {
    type V = Seq<u8>;

    open spec fn view(&self) -> Seq<u8> {
        encode(self.r@, self.s@, self.v)
    }
}

impl Default for Signature {
    fn default() -> (r: Signature)
        ensures
            r@ == zero_signature(),
    {
        let r = Signature { r: [0u8; 32], s: [0u8; 32], v: 0u8 };
        assert(r@ =~= zero_signature());
        r
    }
}

impl Signature {
    /// Reads a signature from its 65 bytes.
    pub fn from_bytes(b: [u8; 65]) -> (sig: Signature)
        ensures
            (sig.r@, sig.s@, sig.v) == decode(b@),
            sig@ == b@,
    {
        let mut r: [u8; 32] = [0u8; 32];
        let mut s: [u8; 32] = [0u8; 32];
        let mut i: usize = 0;
        while i < 32
            invariant
                0 <= i <= 32,
                forall|j: int| 0 <= j < i ==> r@[j] == b@[j],
                forall|j: int| 0 <= j < i ==> s@[j] == b@[j + 32],
            decreases 32 - i,
        {
            r[i] = b[i];
            s[i] = b[i + 32];
            i = i + 1;
        }
        let sig = Signature { r, s, v: b[64] };
        assert(sig.r@ =~= b@.subrange(0, 32));
        assert(sig.s@ =~= b@.subrange(32, 64));
        assert(sig@ =~= b@);
        sig
    }

    /// The 65 bytes `r || s || v` of the signature.
    pub fn to_bytes(&self) -> (b: [u8; 65])
        ensures
            b@ == self@,
    {
        let mut b: [u8; 65] = [0u8; 65];
        let mut i: usize = 0;
        while i < 32
            invariant
                0 <= i <= 32,
                forall|j: int| 0 <= j < i ==> b@[j] == self.r@[j],
                forall|j: int| 0 <= j < i ==> b@[j + 32] == self.s@[j],
            decreases 32 - i,
        {
            b[i] = self.r[i];
            b[i + 32] = self.s[i];
            i = i + 1;
        }
        b[64] = self.v;
        assert(b@ =~= self@);
        b
    }

    /// Byte `i` of the signature's 65 bytes.
    pub fn byte(&self, i: usize) -> (b: u8)
        requires
            i < 65,
        ensures
            b == self@[i as int],
    {
        if i < 32 {
            self.r[i]
        } else if i < 64 {
            self.s[i - 32]
        } else {
            self.v
        }
    }

    /// Writes byte `i` of the signature's 65 bytes, through the field that
    /// holds it.
    pub fn set_byte(&mut self, i: usize, b: u8)
        requires
            i < 65,
        ensures
            final(self)@ == old(self)@.update(i as int, b),
    {
        if i < 32 {
            self.r[i] = b;
        } else if i < 64 {
            self.s[i - 32] = b;
        } else {
            self.v = b;
        }
        assert(self@ =~= old(self)@.update(i as int, b));
    }

    /// The compact form `r || s`, without the recovery id.
    fn compact(&self) -> (c: [u8; 64])
        ensures
            c@ == self.r@ + self.s@,
    {
        let mut c: [u8; 64] = [0u8; 64];
        let mut i: usize = 0;
        while i < 32
            invariant
                0 <= i <= 32,
                forall|j: int| 0 <= j < i ==> c@[j] == self.r@[j],
                forall|j: int| 0 <= j < i ==> c@[j + 32] == self.s@[j],
            decreases 32 - i,
        {
            c[i] = self.r[i];
            c[i + 32] = self.s[i];
            i = i + 1;
        }
        assert(c@ =~= self.r@ + self.s@);
        c
    }
}


impl From<[u8; 65]> for Signature {
    fn from(b: [u8; 65]) -> (sig: Signature)
        ensures
            sig@ == b@,
    {
        let sig = Signature::from_bytes(b);
        proof {
            lemma_view_determines(sig, choose|t: Signature| t@ == b@);
        }
        sig
    }
}

impl vstd::std_specs::convert::FromSpecImpl<[u8; 65]> for Signature {
    open spec fn obeys_from_spec() -> bool {
        true
    }

    /// The signature whose bytes are `b`.
    open spec fn from_spec(b: [u8; 65]) -> Signature {
        choose|t: Signature| t@ == b@
    }
}

impl From<Signature> for [u8; 65] {
    fn from(sig: Signature) -> (b: [u8; 65])
        ensures
            b@ == sig@,
    {
        let b = sig.to_bytes();
        proof {
            let c = choose|a: [u8; 65]| a@ == sig@;
            assert(b =~= c);
        }
        b
    }
}

impl vstd::std_specs::convert::FromSpecImpl<Signature> for [u8; 65] {
    open spec fn obeys_from_spec() -> bool {
        true
    }

    /// The 65 bytes of `sig`.
    open spec fn from_spec(sig: Signature) -> [u8; 65] {
        choose|a: [u8; 65]| a@ == sig@
    }
}

/// Two signatures with the same bytes are the same signature.
pub proof fn lemma_view_determines(a: Signature, b: Signature)
    requires
        a@ == b@,
    ensures
        a == b,
{
    lemma_fields_round_trip(a.r@, a.s@, a.v);
    lemma_fields_round_trip(b.r@, b.s@, b.v);
    assert(a.r =~= b.r);
    assert(a.s =~= b.s);
}

/// What signing `digest` under `secret` gives: the signature's 65 bytes, or
/// the error. A recovery id outside `0..=3` or scalars that are not in
/// canonical form are refused.
pub open spec fn signing_outcome(secret: Seq<u8>, digest: Seq<u8>) -> Result<Seq<u8>, CryptoError> {
    let (compact, id) = recoverable_signature_of(secret, digest);
    if !valid_secret(secret) {
        Err(CryptoError::InvalidSecret)
    } else if !(0 <= id <= 3) {
        Err(CryptoError::InvalidRecoveryId)
    } else if !canonical_scalars(compact) {
        Err(CryptoError::InvalidSignature)
    } else {
        Ok(compact + seq![id as u8])
    }
}

/// What verifying the signature bytes `sig` of `digest` against `public` gives.
pub open spec fn verify_outcome(public: Seq<u8>, sig: Seq<u8>, digest: Seq<u8>) -> Result<bool, CryptoError> {
    let compact = sig.subrange(0, 64);
    if sig[64] > 3 {
        Err(CryptoError::InvalidRecoveryId)
    } else if !scalars_below_order(compact) {
        Err(CryptoError::InvalidSignature)
    } else if !valid_uncompressed_point(tagged(public)) {
        Err(CryptoError::InvalidPublic)
    } else {
        Ok(canonical_scalars(compact) && ecdsa_equation_holds(digest, compact, tagged(public)))
    }
}

/// Reading 65 bytes as a signature and writing it out again gives the same
/// bytes.
pub proof fn lemma_bytes_round_trip(b: Seq<u8>)
    requires
        b.len() == 65,
    ensures
        encode(decode(b).0, decode(b).1, decode(b).2) == b,
{
    assert(encode(decode(b).0, decode(b).1, decode(b).2) =~= b);
}

/// Writing a signature's fields out as bytes and reading them back gives the
/// same fields.
pub proof fn lemma_fields_round_trip(r: Seq<u8>, s: Seq<u8>, v: u8)
    requires
        r.len() == 32,
        s.len() == 32,
    ensures
        decode(encode(r, s, v)) == (r, s, v),
{
    assert(encode(r, s, v).subrange(0, 32) =~= r);
    assert(encode(r, s, v).subrange(32, 64) =~= s);
}

/// The all-zero signature is never accepted, whatever the key and digest.
pub proof fn lemma_zero_signature_never_verifies(public: Seq<u8>, digest: Seq<u8>)
    ensures
        verify_outcome(public, zero_signature(), digest) != Ok::<bool, CryptoError>(true),
{
    let compact = zero_signature().subrange(0, 64);
    lemma_be_nat_zeros(compact_r(compact));
}

/// A signature that signing produced passes every format check of
/// verification: against a key that is a point of the curve, the outcome is
/// `Ok`, and `true` exactly when the verification equation holds.
pub proof fn lemma_signed_passes_format_checks(
    secret: Seq<u8>,
    digest: Seq<u8>,
    public: Seq<u8>,
    sig: Seq<u8>,
)
    requires
        signing_outcome(secret, digest) == Ok::<Seq<u8>, CryptoError>(sig),
        sig.len() == 65,
        valid_uncompressed_point(tagged(public)),
    ensures
        verify_outcome(public, sig, digest) == Ok::<bool, CryptoError>(
            ecdsa_equation_holds(digest, sig.subrange(0, 64), tagged(public)),
        ),
{
    let (compact, id) = recoverable_signature_of(secret, digest);
    assert(sig.subrange(0, 64) =~= compact);
    lemma_head_decides(half_order(), curve_order());
}

/// The uncompressed encoding of `public`, as the curve library parses it.
fn tagged_public(public: &Public) -> (t: [u8; 65])
    ensures
        t@ == tagged(public.0@),
{
    let mut t: [u8; 65] = [4u8; 65];
    let mut i: usize = 0;
    while i < 64
        invariant
            0 <= i <= 64,
            t@[0] == 4,
            forall|j: int| 0 <= j < i ==> t@[j + 1] == public.0@[j],
        decreases 64 - i,
    {
        t[i + 1] = public.0[i];
        i = i + 1;
    }
    assert(t@ =~= tagged(public.0@));
    t
}

/// Whether `r` is in `1..n` and `s` in `1..=n/2`.
fn is_canonical(r: &[u8; 32], s: &[u8; 32]) -> (ok: bool)
    ensures
        ok == canonical_scalars(r@ + s@),
{
    let order = curve_order_bytes();
    let half = half_order_bytes();
    proof {
        assert(compact_r(r@ + s@) =~= r@);
        assert(compact_s(r@ + s@) =~= s@);
    }
    !is_zero(r) && be_less(r, &order) && !is_zero(s) && !be_less(&half, s)
}

/// Signs the 32-byte `message` digest under `secret`: `r || s` and the
/// recovery id of the curve library's deterministic signature, checked to be
/// in canonical form with a recovery id in `0..=3`.
pub fn sign(secret: &Secret, message: &[u8; 32]) -> (res: Result<Signature, CryptoError>)
    ensures
        match res {
            Ok(sig) => signing_outcome(secret.0@, message@) == Ok::<Seq<u8>, CryptoError>(sig@),
            Err(e) => signing_outcome(secret.0@, message@) == Err::<Seq<u8>, CryptoError>(e),
        },
        res is Ok ==> res->Ok_0.v <= 3 && canonical_scalars(res->Ok_0.r@ + res->Ok_0.s@),
{
    let (compact, id) = match sign_recoverable(&secret.0, message) {
        Ok(found) => found,
        Err(e) => {
            return Err(CryptoError::from(e));
        },
    };
    if id < 0 || id > 3 {
        return Err(CryptoError::InvalidRecoveryId);
    }
    let mut sig = Signature::default();
    let mut i: usize = 0;
    while i < 32
        invariant
            0 <= i <= 32,
            forall|j: int| 0 <= j < i ==> sig.r@[j] == compact@[j],
            forall|j: int| 0 <= j < i ==> sig.s@[j] == compact@[j + 32],
        decreases 32 - i,
    {
        sig.r[i] = compact[i];
        sig.s[i] = compact[i + 32];
        i = i + 1;
    }
    sig.v = id as u8;
    assert(sig.r@ + sig.s@ =~= compact@);
    if !is_canonical(&sig.r, &sig.s) {
        return Err(CryptoError::InvalidSignature);
    }
    assert(sig@ =~= compact@ + seq![id as u8]);
    Ok(sig)
}

/// Verifies `signature` of the 32-byte `message` digest against `public`.
/// `Ok(false)` is a signature that does not match; malformed input is an error.
pub fn verify(public: &Public, signature: &Signature, message: &[u8; 32]) -> (res: Result<bool, CryptoError>)
    ensures
        res == verify_outcome(public.0@, signature@, message@),
        signature.v > 3 ==> res == Err::<bool, CryptoError>(CryptoError::InvalidRecoveryId),
        res == Ok::<bool, CryptoError>(true) ==> canonical_scalars(signature.r@ + signature.s@),
{
    let compact = signature.compact();
    let key = tagged_public(public);
    proof {
        assert(signature@.subrange(0, 64) =~= compact@);
    }
    match check_recoverable(message, &compact, signature.v as i32, &key) {
        Ok(()) => Ok(true),
        Err(secp256k1::Error::IncorrectSignature) => Ok(false),
        Err(e) => Err(CryptoError::from(e)),
    }
}

} // verus!
