//! The hash commitment function.
//!
//! A commitment is the SHA-256 digest of the canonical byte encoding of a
//! recipient identity, followed by the big-endian two's-complement encoding
//! of the signed 128-bit amount, followed by the caller-supplied salt. The
//! withdrawal path recomputes it independently of the deposit path, so
//! determinism is load-bearing: the digest is specified as a pure function
//! of the three inputs.

use vstd::prelude::*;

use crate::types::Identity;

verus! {

/// The SHA-256 digest of a byte string, named but not spelled out: the
/// digest is a pure function of the input bytes, computed by an outside
/// implementation that the library calls and does not restate.
pub uninterp spec fn sha256_of(data: Seq<u8>) -> Seq<u8>;

/// Relies on the sha2 crate's `Sha256`: the SHA-256 digest is a function of
/// the input bytes alone and is exactly 32 bytes long.
#[verifier::external_body]
fn sha256(data: &Vec<u8>) -> (r: Vec<u8>)
    ensures
        r@ == sha256_of(data@),
        r@.len() == 32,
{
    <sha2::Sha256 as sha2::Digest>::digest(data.as_slice()).to_vec()
}

/// Big-endian bytes of a 64-bit value, most significant first.
pub open spec fn u64_be_bytes(x: u64) -> Seq<u8> {
    seq![
        ((x / 0x100_0000_0000_0000) % 256) as u8,
        ((x / 0x1_0000_0000_0000) % 256) as u8,
        ((x / 0x100_0000_0000) % 256) as u8,
        ((x / 0x1_0000_0000) % 256) as u8,
        ((x / 0x100_0000) % 256) as u8,
        ((x / 0x1_0000) % 256) as u8,
        ((x / 0x100) % 256) as u8,
        (x % 256) as u8,
    ]
}

/// The unsigned 128-bit value whose bit pattern is the two's-complement
/// representation of `a`.
pub open spec fn amount_bits(a: i128) -> u128 {
    if a >= 0 {
        a as u128
    } else {
        (a + 0x1_0000_0000_0000_0000_0000_0000_0000_0000int) as u128
    }
}

/// Big-endian bytes of a 128-bit value, most significant first.
pub open spec fn u128_be_bytes(x: u128) -> Seq<u8> {
    seq![
        ((x / 0x100_0000_0000_0000_0000_0000_0000_0000) % 256) as u8,
        ((x / 0x1_0000_0000_0000_0000_0000_0000_0000) % 256) as u8,
        ((x / 0x100_0000_0000_0000_0000_0000_0000) % 256) as u8,
        ((x / 0x1_0000_0000_0000_0000_0000_0000) % 256) as u8,
        ((x / 0x100_0000_0000_0000_0000_0000) % 256) as u8,
        ((x / 0x1_0000_0000_0000_0000_0000) % 256) as u8,
        ((x / 0x100_0000_0000_0000_0000) % 256) as u8,
        ((x / 0x1_0000_0000_0000_0000) % 256) as u8,
        ((x / 0x100_0000_0000_0000) % 256) as u8,
        ((x / 0x1_0000_0000_0000) % 256) as u8,
        ((x / 0x100_0000_0000) % 256) as u8,
        ((x / 0x1_0000_0000) % 256) as u8,
        ((x / 0x100_0000) % 256) as u8,
        ((x / 0x1_0000) % 256) as u8,
        ((x / 0x100) % 256) as u8,
        (x % 256) as u8,
    ]
}

/// Big-endian two's-complement bytes of a signed 128-bit amount.
pub open spec fn amount_be_bytes(a: i128) -> Seq<u8> {
    u128_be_bytes(amount_bits(a))
}

/// Canonical byte encoding of an identity: its 64-bit id, big-endian.
pub open spec fn identity_bytes(who: Identity) -> Seq<u8> {
    u64_be_bytes(who.id)
}

/// The bytes the commitment hash is computed over:
/// `identity ‖ amount ‖ salt`.
pub open spec fn commitment_preimage(recipient: Identity, amount: i128, salt: Seq<u8>) -> Seq<u8> {
    identity_bytes(recipient) + amount_be_bytes(amount) + salt
}

/// The commitment digest that binds a deposit to the (recipient, amount,
/// salt) triple. Deterministic by construction: a pure function of the
/// triple, so the deposit and withdrawal paths cannot disagree.
pub open spec fn commitment_of(recipient: Identity, amount: i128, salt: Seq<u8>) -> Seq<u8> {
    sha256_of(commitment_preimage(recipient, amount, salt))
}

/// Appends the big-endian bytes of `x` to `out`.
fn push_u64_be(out: &mut Vec<u8>, x: u64)
    ensures
        final(out)@ == old(out)@ + u64_be_bytes(x),
{
    out.push(((x / 0x100_0000_0000_0000) % 256) as u8);
    out.push(((x / 0x1_0000_0000_0000) % 256) as u8);
    out.push(((x / 0x100_0000_0000) % 256) as u8);
    out.push(((x / 0x1_0000_0000) % 256) as u8);
    out.push(((x / 0x100_0000) % 256) as u8);
    out.push(((x / 0x1_0000) % 256) as u8);
    out.push(((x / 0x100) % 256) as u8);
    out.push((x % 256) as u8);
    assert(final(out)@ =~= old(out)@ + u64_be_bytes(x));
}

/// Appends the big-endian bytes of `x` to `out`.
fn push_u128_be(out: &mut Vec<u8>, x: u128)
    ensures
        final(out)@ == old(out)@ + u128_be_bytes(x),
{
    out.push(((x / 0x100_0000_0000_0000_0000_0000_0000_0000) % 256) as u8);
    out.push(((x / 0x1_0000_0000_0000_0000_0000_0000_0000) % 256) as u8);
    out.push(((x / 0x100_0000_0000_0000_0000_0000_0000) % 256) as u8);
    out.push(((x / 0x1_0000_0000_0000_0000_0000_0000) % 256) as u8);
    out.push(((x / 0x100_0000_0000_0000_0000_0000) % 256) as u8);
    out.push(((x / 0x1_0000_0000_0000_0000_0000) % 256) as u8);
    out.push(((x / 0x100_0000_0000_0000_0000) % 256) as u8);
    out.push(((x / 0x1_0000_0000_0000_0000) % 256) as u8);
    out.push(((x / 0x100_0000_0000_0000) % 256) as u8);
    out.push(((x / 0x1_0000_0000_0000) % 256) as u8);
    out.push(((x / 0x100_0000_0000) % 256) as u8);
    out.push(((x / 0x1_0000_0000) % 256) as u8);
    out.push(((x / 0x100_0000) % 256) as u8);
    out.push(((x / 0x1_0000) % 256) as u8);
    out.push(((x / 0x100) % 256) as u8);
    out.push((x % 256) as u8);
    assert(final(out)@ =~= old(out)@ + u128_be_bytes(x));
}

/// The two's-complement bit pattern of `a`, as an unsigned value.
fn amount_bits_exec(a: i128) -> (r: u128)
    ensures
        r == amount_bits(a),
{
    if a >= 0 {
        a as u128
    } else {
        let distance_below_max: i128 = -(a + 1);
        u128::MAX - (distance_below_max as u128)
    }
}

/// Recomputes the commitment digest for a revealed (recipient, amount, salt)
/// triple: `sha256(identity ‖ amount ‖ salt)`.
pub fn compute_commitment_hash(recipient: &Identity, amount: i128, salt: &Vec<u8>) -> (r: Vec<u8>)
    ensures
        r@ == commitment_of(*recipient, amount, salt@),
        r@.len() == 32,
{
    let mut data: Vec<u8> = Vec::new();
    push_u64_be(&mut data, recipient.id);
    let bits = amount_bits_exec(amount);
    push_u128_be(&mut data, bits);
    let mut i: usize = 0;
    while i < salt.len()
        invariant
            i <= salt@.len(),
            data@ == identity_bytes(*recipient) + amount_be_bytes(amount) + salt@.subrange(
                0,
                i as int,
            ),
        decreases salt@.len() - i,
    {
        data.push(salt[i]);
        i = i + 1;
        assert(data@ =~= identity_bytes(*recipient) + amount_be_bytes(amount) + salt@.subrange(
            0,
            i as int,
        ));
    }
    assert(salt@.subrange(0, salt@.len() as int) =~= salt@);
    sha256(&data)
}

/// Law: the commitment digest is deterministic. Any two recomputations of
/// the digest for the same (recipient, amount, salt) triple agree, across
/// calls and across the deposit and withdrawal paths.
pub proof fn lemma_commitment_deterministic(
    recipient: Identity,
    amount: i128,
    salt: Seq<u8>,
    first: Seq<u8>,
    second: Seq<u8>,
)
    requires
        first == commitment_of(recipient, amount, salt),
        second == commitment_of(recipient, amount, salt),
    ensures
        first == second,
{
}

} // verus!
