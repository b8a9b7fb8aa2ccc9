//! The trial value of a nonce: what the search compares against the target.

use crate::encoding::{be_bytes, be_value, from_be_bytes, to_be_bytes};
use crypto::digest::Digest;
use crypto::sha2::Sha512;
use vstd::prelude::*;

verus! {

/// The SHA-512 digest of `message`, as computed by `crypto::sha2::Sha512`.
pub uninterp spec fn sha512(message: Seq<u8>) -> Seq<u8>;

/// Runs `crypto::sha2::Sha512` over `message`: a fresh hasher is given the
/// whole message with `input` and read out once with `result`.
///
/// Trusted: the 64 bytes written by `result` are the SHA-512 digest of the
/// bytes passed to `input`, and depend on nothing else.
#[verifier::external_body]
fn sha512_digest(message: &[u8]) -> (digest: [u8; 64])
    ensures
        digest@ == sha512(message@),
{
    let mut hasher = Sha512::new();
    hasher.input(message);
    let mut digest = [0u8; 64];
    hasher.result(&mut digest);
    digest
}

/// The bytes that are hashed for `nonce`: its big-endian encoding followed by
/// the message digest.
pub open spec fn preimage_bytes(nonce: u64, digest: Seq<u8>) -> Seq<u8> {
    be_bytes(nonce) + digest
}

/// The trial value that a double hash `outer` yields: its first eight bytes
/// read as a big-endian number.
pub open spec fn trial_of_hash(outer: Seq<u8>) -> nat {
    be_value(outer.subrange(0, 8))
}

/// The trial value of `nonce` for `digest`: the leading eight bytes, read
/// big-endian, of the SHA-512 of the SHA-512 of the nonce's eight big-endian
/// bytes followed by the digest.
pub open spec fn trial_value(nonce: u64, digest: Seq<u8>) -> nat {
    trial_of_hash(sha512(sha512(preimage_bytes(nonce, digest))))
}

/// Whether `nonce` proves enough work: its trial value does not exceed
/// `target`. A trial value equal to the target is accepted.
pub open spec fn meets_target(nonce: u64, digest: Seq<u8>, target: u64) -> bool {
    trial_value(nonce, digest) <= target
}

/// Assembles the bytes to hash for `nonce`.
pub fn preimage(nonce: u64, hash: &[u8; 64]) -> (message: [u8; 72])
    ensures
        message@ == preimage_bytes(nonce, hash@),
{
    let prefix: [u8; 8] = to_be_bytes(nonce);
    let mut message: [u8; 72] = [0u8; 72];
    let mut i: usize = 0;
    while i < 8
        invariant
            i <= 8,
            forall|k: int| 0 <= k < i ==> message@[k] == prefix@[k],
        decreases 8 - i,
    {
        message[i] = prefix[i];
        i += 1;
    }
    let mut j: usize = 0;
    while j < 64
        invariant
            j <= 64,
            forall|k: int| 0 <= k < 8 ==> message@[k] == prefix@[k],
            forall|k: int| 0 <= k < j ==> message@[8 + k] == hash@[k],
        decreases 64 - j,
    {
        message[8 + j] = hash[j];
        j += 1;
    }
    assert(message@ =~= prefix@ + hash@);
    message
}

/// Reads the trial value out of a finished double hash.
pub fn trial_from_hash(outer: &[u8; 64]) -> (trial: u64)
    ensures
        trial == trial_of_hash(outer@),
{
    let leading: [u8; 8] = [
        outer[0],
        outer[1],
        outer[2],
        outer[3],
        outer[4],
        outer[5],
        outer[6],
        outer[7],
    ];
    assert(leading@ =~= outer@.subrange(0, 8));
    from_be_bytes(&leading)
}

/// Computes the trial value of `nonce` for the message digest `hash`.
///
/// The result is a function of the two arguments alone.
pub fn hash_nonce(nonce: u64, hash: &[u8; 64]) -> (trial: u64)
    ensures
        trial == trial_value(nonce, hash@),
{
    let message = preimage(nonce, hash);
    let inner = sha512_digest(message.as_slice());
    let outer = sha512_digest(inner.as_slice());
    trial_from_hash(&outer)
}

/// Decides whether `nonce` proves enough work for `hash` under `target`.
pub fn satisfies(nonce: u64, hash: &[u8; 64], target: u64) -> (accepted: bool)
    ensures
        accepted == meets_target(nonce, hash@, target),
{
    hash_nonce(nonce, hash) <= target
}

} // verus!
