use vstd::prelude::*;

verus! {

/// A secret key: a 32-byte big-endian scalar.
#[derive(Debug, Clone, Copy, PartialEq, Eq)]
pub struct Secret(pub [u8; 32]);

/// A public key: the 64 bytes `x || y` of an uncompressed point, untagged.
#[derive(Debug, Clone, Copy, PartialEq, Eq)]
pub struct Public(pub [u8; 64]);

} // verus!
