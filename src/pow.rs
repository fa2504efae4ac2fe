//! The recursive hash chain and the target predicate.

use vstd::prelude::*;

use crate::difficulty::Difficulty;

verus! {

/// Number of SHA-256 rounds in the hash chain.
pub const ROUNDS: usize = 10;

/// The SHA-256 digest of a byte sequence.
pub uninterp spec fn sha256_of(msg: Seq<u8>) -> Seq<u8>;

/// Relies on `sha2::Sha256` through `Digest::digest`: the SHA-256 digest of
/// `msg`, which depends on the bytes of `msg` alone.
#[verifier::external_body]
fn sha256(msg: &[u8]) -> (r: [u8; 32])
    ensures
        r@ == sha256_of(msg@),
{
    <sha2::Sha256 as sha2::Digest>::digest(msg).into()
}

/// The `k` low bytes of `n`, least significant first.
pub open spec fn le_bytes(n: nat, k: nat) -> Seq<u8>
    decreases k,
{
    if k == 0 {
        seq![]
    } else {
        seq![(n % 256) as u8] + le_bytes(n / 256, (k - 1) as nat)
    }
}

/// What one round hashes: the accumulator, the nonce in eight little-endian
/// bytes, then the identity.
pub open spec fn round_message(acc: Seq<u8>, nonce: u64, identity: Seq<u8>) -> Seq<u8> {
    acc + le_bytes(nonce as nat, 8) + identity
}

/// The accumulator after `rounds` rounds, starting from 32 zero bytes.
pub open spec fn chain_after(nonce: u64, identity: Seq<u8>, rounds: nat) -> Seq<u8>
    decreases rounds,
{
    if rounds == 0 {
        Seq::new(32, |i: int| 0u8)
    } else {
        sha256_of(round_message(chain_after(nonce, identity, (rounds - 1) as nat), nonce, identity))
    }
}

/// The proof-of-work digest of `nonce` for `identity`.
pub open spec fn chain_hash(nonce: u64, identity: Seq<u8>) -> Seq<u8> {
    chain_after(nonce, identity, ROUNDS as nat)
}

/// The eight little-endian bytes of `nonce`.
pub fn nonce_bytes(nonce: u64) -> (r: Vec<u8>)
    ensures
        r@ == le_bytes(nonce as nat, 8),
{
    let mut out: Vec<u8> = Vec::new();
    let mut x: u64 = nonce;
    let mut i: usize = 0;
    while i < 8
        invariant
            i <= 8,
            out@ + le_bytes(x as nat, (8 - i) as nat) == le_bytes(nonce as nat, 8),
        decreases 8 - i,
    {
        let ghost before = out@;
        let ghost rest = le_bytes(x as nat, (8 - i) as nat);
        out.push((x % 256) as u8);
        x = x / 256;
        i = i + 1;
        assert(rest == seq![(rest[0])] + le_bytes(x as nat, (8 - i) as nat));
        assert(out@ + le_bytes(x as nat, (8 - i) as nat) =~= before + rest);
    }
    assert(le_bytes(x as nat, 0) =~= seq![]);
    assert(out@ =~= out@ + le_bytes(x as nat, 0));
    out
}

/// The message of one round: `acc`, then the nonce's little-endian bytes,
/// then `identity`.
pub fn round_input(acc: &[u8; 32], nonce: u64, identity: &[u8]) -> (r: Vec<u8>)
    ensures
        r@ == round_message(acc@, nonce, identity@),
{
    let mut msg: Vec<u8> = Vec::new();
    msg.extend_from_slice(acc.as_slice());
    let mut nb = nonce_bytes(nonce);
    msg.append(&mut nb);
    msg.extend_from_slice(identity);
    assert(msg@ =~= round_message(acc@, nonce, identity@));
    msg
}

/// Runs the hash chain: `ROUNDS` rounds of SHA-256 over the previous
/// accumulator, the nonce and the identity.
pub fn recursive_pow(nonce: u64, miner: &[u8]) -> (r: [u8; 32])
    ensures
        r@ == chain_hash(nonce, miner@),
{
    let mut hash: [u8; 32] = [0u8; 32];
    assert(hash@ =~= chain_after(nonce, miner@, 0));
    let mut k: usize = 0;
    while k < ROUNDS
        invariant
            k <= ROUNDS,
            hash@ == chain_after(nonce, miner@, k as nat),
        decreases ROUNDS - k,
    {
        let msg = round_input(&hash, nonce, miner);
        hash = sha256(msg.as_slice());
        k = k + 1;
    }
    hash
}


/// `256` to the power `k`.
pub open spec fn pow256(k: nat) -> nat
    decreases k,
{
    if k == 0 {
        1
    } else {
        256 * pow256((k - 1) as nat)
    }
}

/// The bytes of `s` read as a big-endian unsigned number.
pub open spec fn be_value(s: Seq<u8>) -> nat
    decreases s.len(),
{
    if s.len() == 0 {
        0
    } else {
        be_value(s.drop_last()) * 256 + s.last() as nat
    }
}

/// The first 16 bytes of a digest read as a big-endian number.
pub open spec fn prefix_value(digest: Seq<u8>) -> nat {
    be_value(digest.take(16))
}

/// A digest meets a target when its 128-bit prefix is strictly below it.
pub open spec fn meets(digest: Seq<u8>, target: u128) -> bool {
    prefix_value(digest) < target
}

/// A big-endian number of `s.len()` bytes is below `256^s.len()`.
pub proof fn lemma_be_value_bound(s: Seq<u8>)
    ensures
        be_value(s) < pow256(s.len()),
    decreases s.len(),
{
    if s.len() > 0 {
        lemma_be_value_bound(s.drop_last());
        let a = be_value(s.drop_last());
        let p = pow256((s.len() - 1) as nat);
        let b = s.last() as nat;
        assert(a * 256 + b < 256 * p) by (nonlinear_arith)
            requires
                a < p,
                b < 256,
        ;
    }
}

/// The first 16 bytes of `digest` as a big-endian unsigned 128-bit number.
pub fn hash_number(digest: &[u8; 32]) -> (r: u128)
    ensures
        r == prefix_value(digest@),
{
    let mut acc: u128 = 0;
    let mut i: usize = 0;
    while i < 16
        invariant
            i <= 16,
            digest@.len() == 32,
            acc == be_value(digest@.take(i as int)),
        decreases 16 - i,
    {
        proof {
            lemma_be_value_bound(digest@.take(i as int));
            assert(pow256(i as nat) <= pow256(15)) by {
                lemma_pow256_mono(i as nat, 15);
            }
            assert(digest@.take(i + 1).drop_last() =~= digest@.take(i as int));
            reveal_with_fuel(pow256, 17);
            let p15 = pow256(15);
            assert(256 * p15 == 0x1_0000_0000_0000_0000_0000_0000_0000_0000);
            assert(acc * 256 + 255 < 0x1_0000_0000_0000_0000_0000_0000_0000_0000) by (nonlinear_arith)
                requires
                    acc < p15,
                    256 * p15 == 0x1_0000_0000_0000_0000_0000_0000_0000_0000,
            ;
        }
        acc = acc * 256 + digest[i] as u128;
        i = i + 1;
    }
    acc
}

/// Powers of 256 grow with the exponent.
pub proof fn lemma_pow256_mono(a: nat, b: nat)
    requires
        a <= b,
    ensures
        pow256(a) <= pow256(b),
    decreases b,
{
    if a < b {
        lemma_pow256_mono(a, (b - 1) as nat);
    }
}

/// Whether `digest` meets `target`: its 128-bit big-endian prefix is
/// strictly below `target`.
pub fn meets_target(digest: &[u8; 32], target: u128) -> (r: bool)
    ensures
        r == meets(digest@, target),
{
    hash_number(digest) < target
}

/// Whether `pow_hash` meets the current target of `difficulty`.
pub fn verify_pow(pow_hash: &[u8; 32], difficulty: &Difficulty) -> (r: bool)
    ensures
        r == meets(pow_hash@, difficulty.value),
{
    let target = difficulty.current_target();
    meets_target(pow_hash, target)
}

/// The hash chain is a function of the nonce and the identity alone: equal
/// inputs give equal digests.
pub proof fn chain_hash_deterministic(nonce1: u64, identity1: Seq<u8>, nonce2: u64, identity2: Seq<u8>)
    requires
        nonce1 == nonce2,
        identity1 == identity2,
    ensures
        chain_hash(nonce1, identity1) == chain_hash(nonce2, identity2),
{
}

/// For a fixed digest, a target meets it exactly when it exceeds the
/// digest's 128-bit prefix: a target equal to the prefix is refused, one
/// above it accepted, and raising an accepted target keeps it accepted.
pub proof fn target_monotonicity(digest: Seq<u8>, lower: u128, higher: u128)
    requires
        lower <= higher,
    ensures
        meets(digest, lower) ==> meets(digest, higher),
        meets(digest, lower) <==> prefix_value(digest) < lower,
        prefix_value(digest) == lower ==> !meets(digest, lower),
        prefix_value(digest) + 1 == higher ==> meets(digest, higher),
{
}

} // verus!
