//! The off-chain miner: a nonce search over the hash chain.

use vstd::prelude::*;

use crate::difficulty::GENESIS_TARGET;
use crate::pow::{
    be_value, chain_hash, lemma_be_value_bound, lemma_pow256_mono, meets, meets_target, pow256,
    recursive_pow,
};

verus! {

/// Number of distinct nonces: `2^64`.
pub const NONCE_SPACE: u128 = 0x1_0000_0000_0000_0000;

/// The nonce after `n`, wrapping to 0 after `u64::MAX`.
pub open spec fn next_nonce(n: u64) -> u64 {
    if n == u64::MAX {
        0
    } else {
        (n + 1) as u64
    }
}

/// Whether the digest of `nonce` for `identity` meets `target`.
pub open spec fn qualifies(nonce: u64, identity: Seq<u8>, target: u128) -> bool {
    meets(chain_hash(nonce, identity), target)
}

/// The first of `attempts` nonces, counted from `start` with wrap-around,
/// whose digest meets `target`.
pub open spec fn first_qualifying(identity: Seq<u8>, target: u128, start: u64, attempts: nat) -> Option<u64>
    decreases attempts,
{
    if attempts == 0 {
        None
    } else if qualifies(start, identity, target) {
        Some(start)
    } else {
        first_qualifying(identity, target, next_nonce(start), (attempts - 1) as nat)
    }
}

/// How many nonces a search may try: the bound given, or else the whole
/// nonce space once.
pub open spec fn attempt_limit(max_attempts: Option<u64>) -> nat {
    match max_attempts {
        Some(m) => m as nat,
        None => NONCE_SPACE as nat,
    }
}

/// What a search from `start` returns: the first qualifying nonce within the
/// limit, with its digest.
pub open spec fn search_result(
    identity: Seq<u8>,
    target: u128,
    start: u64,
    max_attempts: Option<u64>,
    r: Option<(u64, [u8; 32])>,
) -> bool {
    match r {
        Some((n, d)) => first_qualifying(identity, target, start, attempt_limit(max_attempts))
            == Some(n) && d@ == chain_hash(n, identity),
        None => first_qualifying(identity, target, start, attempt_limit(max_attempts)) == None::<u64>,
    }
}

/// Tries nonces from `start_nonce` on, wrapping after `u64::MAX`, and
/// returns the first whose digest meets `target`, with that digest. Gives up
/// after `max_attempts` nonces, or, without a bound, once every nonce has
/// been tried.
pub fn search(identity: &[u8], target: u128, start_nonce: u64, max_attempts: Option<u64>) -> (r:
    Option<(u64, [u8; 32])>)
    ensures
        search_result(identity@, target, start_nonce, max_attempts, r),
{
    let limit: u128 = match max_attempts {
        Some(m) => m as u128,
        None => NONCE_SPACE,
    };
    let mut remaining: u128 = limit;
    let mut nonce: u64 = start_nonce;
    while remaining > 0
        invariant
            limit == attempt_limit(max_attempts),
            remaining <= limit,
            first_qualifying(identity@, target, start_nonce, limit as nat) == first_qualifying(
                identity@,
                target,
                nonce,
                remaining as nat,
            ),
        decreases remaining,
    {
        let digest = recursive_pow(nonce, identity);
        if meets_target(&digest, target) {
            return Some((nonce, digest));
        }
        nonce = nonce.wrapping_add(1);
        remaining = remaining - 1;
    }
    None
}

/// Relies on `RngCore::try_fill_bytes` of rand's `OsRng`: eight bytes from
/// the operating system's entropy source, or `None` where it fails. Nothing
/// is known of the bytes.
#[verifier::external_body]
fn random_bytes() -> (r: Option<[u8; 8]>) {
    let mut b = [0u8; 8];
    rand::RngCore::try_fill_bytes(&mut rand::rngs::OsRng, &mut b).ok().map(|_| b)
}

/// Eight bytes read as a big-endian unsigned 64-bit number.
pub fn nonce_from_bytes(b: [u8; 8]) -> (r: u64)
    ensures
        r == be_value(b@),
{
    let mut acc: u64 = 0;
    let mut i: usize = 0;
    while i < 8
        invariant
            i <= 8,
            b@.len() == 8,
            acc == be_value(b@.take(i as int)),
        decreases 8 - i,
    {
        proof {
            lemma_be_value_bound(b@.take(i as int));
            lemma_pow256_mono(i as nat, 7);
            assert(b@.take(i + 1).drop_last() =~= b@.take(i as int));
            reveal_with_fuel(pow256, 9);
            let p7 = pow256(7);
            assert(256 * p7 == 0x1_0000_0000_0000_0000);
            assert(acc * 256 + 255 < 0x1_0000_0000_0000_0000) by (nonlinear_arith)
                requires
                    acc < p7,
                    256 * p7 == 0x1_0000_0000_0000_0000,
            ;
        }
        acc = acc * 256 + b[i] as u64;
        i = i + 1;
    }
    assert(b@.take(8) =~= b@);
    acc
}

/// The bytes of `s` in UTF-8.
pub open spec fn utf8_of(s: Seq<char>) -> Seq<u8> {
    vstd::utf8::encode_utf8(s)
}

/// What a miner reports of a solution it found.
pub struct SubmissionReport {
    pub nonce: u64,
    pub miner: String,
    pub timestamp: u64,
}

/// A miner for one address against one target.
pub struct SkynetMiner {
    miner_address: String,
    difficulty_target: u128,
}

impl SkynetMiner {
    /// The miner's address.
    pub closed spec fn address(&self) -> Seq<char> {
        self.miner_address@
    }

    /// The target the miner searches against.
    pub closed spec fn target(&self) -> u128 {
        self.difficulty_target
    }

    /// A miner for `miner_address`; the target defaults to the genesis target.
    pub fn new(miner_address: String, difficulty_target: Option<u128>) -> (r: Self)
        ensures
            r.address() == miner_address@,
            r.target() == match difficulty_target {
                Some(t) => t,
                None => GENESIS_TARGET,
            },
    {
        let target = match difficulty_target {
            Some(t) => t,
            None => GENESIS_TARGET,
        };
        SkynetMiner { miner_address, difficulty_target: target }
    }

    /// The miner's address.
    pub fn miner_address(&self) -> (r: &String)
        ensures
            r@ == self.address(),
    {
        &self.miner_address
    }

    /// The target the miner searches against.
    pub fn difficulty_target(&self) -> (r: u128)
        ensures
            r == self.target(),
    {
        self.difficulty_target
    }

    /// The hash-chain digest of `nonce` for this miner's address, in UTF-8.
    pub fn recursive_pow(&self, nonce: u64) -> (r: [u8; 32])
        ensures
            r@ == chain_hash(nonce, utf8_of(self.address())),
    {
        recursive_pow(nonce, self.miner_address.as_str().as_bytes())
    }

    /// Whether `pow_hash` meets the miner's target.
    pub fn verify_pow(&self, pow_hash: &[u8; 32]) -> (r: bool)
        ensures
            r == meets(pow_hash@, self.target()),
    {
        meets_target(pow_hash, self.difficulty_target)
    }

    /// Searches from `start_nonce` for a nonce that meets the miner's target.
    pub fn mine_from(&self, start_nonce: u64, max_iterations: Option<u64>) -> (r: Option<(u64, [u8; 32])>)
        ensures
            search_result(utf8_of(self.address()), self.target(), start_nonce, max_iterations, r),
    {
        search(self.miner_address.as_str().as_bytes(), self.difficulty_target, start_nonce, max_iterations)
    }

    /// Searches for a nonce that meets the miner's target, from a random
    /// start, or from 0 where no random bytes can be had.
    pub fn mine(&self, max_iterations: Option<u64>) -> (r: Option<(u64, [u8; 32])>)
        ensures
            exists|start: u64| search_result(utf8_of(self.address()), self.target(), start, max_iterations, r),
    {
        let start = match random_bytes() {
            Some(b) => nonce_from_bytes(b),
            None => 0,
        };
        self.mine_from(start, max_iterations)
    }

    /// The report of a solution `nonce` found at Unix time `timestamp`.
    pub fn submit_pow(&self, nonce: u64, timestamp: u64) -> (r: SubmissionReport)
        ensures
            r.nonce == nonce,
            r.miner@ == self.address(),
            r.timestamp == timestamp,
    {
        SubmissionReport { nonce, miner: self.miner_address.clone(), timestamp }
    }
}

/// A search whose start nonce already qualifies returns it, with its digest,
/// on the first attempt; a search with no attempts finds nothing.
pub proof fn search_correctness(identity: Seq<u8>, target: u128, start: u64, max_attempts: Option<u64>)
    ensures
        qualifies(start, identity, target) && attempt_limit(max_attempts) > 0 ==> first_qualifying(
            identity,
            target,
            start,
            attempt_limit(max_attempts),
        ) == Some(start),
        max_attempts == Some(0u64) ==> first_qualifying(identity, target, start, attempt_limit(max_attempts))
            == None::<u64>,
{
}

} // verus!
