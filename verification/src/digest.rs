//! Content digests: BLAKE3 over the bytes of an upload, as lower-case hex.

use vstd::prelude::*;
use blake3::Hasher;

verus! {

/// `blake3::Hasher`, the state of a hash under way. What it has taken in
/// is read through `absorbed`.
#[verifier::external_type_specification]
#[verifier::external_body]
pub struct ExHasher(Hasher);

/// The digest of a byte sequence: its 256-bit BLAKE3 hash as 64 lower-case
/// hexadecimal digits.
pub uninterp spec fn blake3_hex(input: Seq<u8>) -> Seq<char>;

/// The bytes that a hasher has taken in so far, in the order it got them.
pub uninterp spec fn absorbed(hasher: Hasher) -> Seq<u8>;

/// Trusted: calls `blake3::Hasher::new`, a hasher that has taken in
/// nothing.
#[verifier::external_body]
pub(crate) fn hasher_new() -> (hasher: Hasher)
    ensures
        absorbed(hasher) == Seq::<u8>::empty(),
{
    Hasher::new()
}

/// Trusted: calls `blake3::Hasher::update`, which adds `input` behind what
/// the hasher has taken in already.
#[verifier::external_body]
pub(crate) fn hasher_update(hasher: &mut Hasher, input: &[u8])
    ensures
        absorbed(*final(hasher)) == absorbed(*old(hasher)) + input@,
{
    hasher.update(input);
}

/// Trusted: calls `blake3::Hasher::finalize` and writes the hash with
/// `Hash::to_hex`. The result is the digest of everything taken in, however
/// it was cut into pieces; the hasher is left as it was.
#[verifier::external_body]
pub(crate) fn hasher_hex(hasher: &Hasher) -> (hex: String)
    ensures
        hex@ == blake3_hex(absorbed(*hasher)),
{
    hasher.finalize().to_hex().to_string()
}

/// The digest of `bytes`, computed in one go.
pub fn content_digest(bytes: &[u8]) -> (hex: String)
    ensures
        hex@ == blake3_hex(bytes@),
{
    let mut hasher = hasher_new();
    hasher_update(&mut hasher, bytes);
    assert(Seq::<u8>::empty() + bytes@ =~= bytes@);
    hasher_hex(&hasher)
}

} // verus!
