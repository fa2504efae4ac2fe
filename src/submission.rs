//! The submission check: the single decision point that accepts or rejects
//! a nonce and advances the difficulty state.

use vstd::prelude::*;

use crate::difficulty::{after_work, genesis_state, initialize_difficulty, update_difficulty, Difficulty};
use crate::pow::{chain_hash, meets, recursive_pow, verify_pow};

verus! {

/// Why a submission or a state change failed.
#[derive(Debug, Clone, Copy, PartialEq, Eq, Structural)]
pub enum ErrorCode {
    /// The digest does not meet the current target.
    InvalidProofOfWork,
    /// The work-acknowledgment collaborator (the mint) failed.
    AcknowledgmentFailed,
    /// The ledger clock could not be read.
    ClockUnavailable,
}

/// An accepted submission.
pub struct Accepted {
    pub nonce: u64,
    pub digest: [u8; 32],
}

/// The side effect that acknowledges accepted work, such as minting a token
/// to the miner. The state advances only when it succeeds.
pub trait WorkAcknowledger {
    /// Acknowledges the work of `nonce`, whose digest is `digest`; returns
    /// whether that succeeded.
    fn acknowledge(&mut self, nonce: u64, digest: &[u8; 32]) -> bool;
}

/// Relies on anchor_lang's `Clock::get`, the ledger's clock sysvar: its Unix
/// timestamp, or `None` where the sysvar cannot be read. Nothing is known of
/// the value itself.
#[verifier::external_body]
fn ledger_time() -> (r: Option<i64>) {
    <anchor_lang::solana_program::clock::Clock as anchor_lang::solana_program::sysvar::Sysvar>::get()
        .ok()
        .map(|c| c.unix_timestamp)
}

/// Sets up the genesis state at the ledger's current time.
pub fn init_genesis(difficulty: &mut Difficulty) -> (r: Result<(), ErrorCode>)
    ensures
        r is Err ==> r == Err::<(), ErrorCode>(ErrorCode::ClockUnavailable) && *final(difficulty)
            == *old(difficulty),
        r is Ok ==> exists|now: i64| *final(difficulty) == genesis_state(now),
        r is Ok ==> final(difficulty).wf(),
{
    match ledger_time() {
        None => Err(ErrorCode::ClockUnavailable),
        Some(now) => {
            initialize_difficulty(difficulty, now);
            Ok(())
        },
    }
}

/// Finishes a submission whose digest met the target, once the acknowledger
/// has answered: a successful acknowledgment counts the work, retargets at
/// `now` and accepts; a failed one leaves the state as it was.
pub fn complete_submission(
    difficulty: &mut Difficulty,
    nonce: u64,
    digest: [u8; 32],
    now: i64,
    acknowledged: bool,
) -> (r: Result<Accepted, ErrorCode>)
    requires
        old(difficulty).blocks_mined < u64::MAX,
    ensures
        acknowledged ==> (r matches Ok(a) && a.nonce == nonce && a.digest == digest),
        acknowledged ==> *final(difficulty) == after_work(*old(difficulty), now),
        !acknowledged ==> r == Err::<Accepted, ErrorCode>(ErrorCode::AcknowledgmentFailed)
            && *final(difficulty) == *old(difficulty),
        old(difficulty).wf() ==> final(difficulty).wf(),
{
    if !acknowledged {
        return Err(ErrorCode::AcknowledgmentFailed);
    }
    update_difficulty(difficulty, now);
    Ok(Accepted { nonce, digest })
}

/// Checks the work of `nonce` for `miner` against `difficulty` at time `now`.
///
/// A nonce whose digest misses the target is rejected with
/// `InvalidProofOfWork` and nothing happens. Otherwise the acknowledger is
/// called; if it fails the result is `AcknowledgmentFailed` and the state is
/// left as it was. If it succeeds the submission is counted, the target is
/// retargeted at `now`, and the nonce is returned with its digest.
pub fn submit<A: WorkAcknowledger>(
    difficulty: &mut Difficulty,
    nonce: u64,
    miner: &[u8],
    now: i64,
    acknowledger: &mut A,
) -> (r: Result<Accepted, ErrorCode>)
    requires
        old(difficulty).blocks_mined < u64::MAX,
    ensures
        !meets(chain_hash(nonce, miner@), old(difficulty).value) <==> r == Err::<Accepted, ErrorCode>(
            ErrorCode::InvalidProofOfWork,
        ),
        r is Err ==> *final(difficulty) == *old(difficulty),
        r is Err ==> r == Err::<Accepted, ErrorCode>(ErrorCode::InvalidProofOfWork) || r == Err::<
            Accepted,
            ErrorCode,
        >(ErrorCode::AcknowledgmentFailed),
        r matches Ok(a) ==> a.nonce == nonce && a.digest@ == chain_hash(nonce, miner@)
            && *final(difficulty) == after_work(*old(difficulty), now),
        r == Err::<Accepted, ErrorCode>(ErrorCode::InvalidProofOfWork) ==> *final(acknowledger)
            == *old(acknowledger),
        old(difficulty).wf() ==> final(difficulty).wf(),
{
    let digest = recursive_pow(nonce, miner);
    if !verify_pow(&digest, difficulty) {
        return Err(ErrorCode::InvalidProofOfWork);
    }
    let acknowledged = acknowledger.acknowledge(nonce, &digest);
    complete_submission(difficulty, nonce, digest, now, acknowledged)
}

/// Checks the work of `nonce` for `miner` at the ledger's current time.
///
/// A nonce whose digest misses the target is rejected with
/// `InvalidProofOfWork` before anything else happens. Otherwise the clock is
/// read, and where it cannot be, the result is `ClockUnavailable`. Then the
/// acknowledger is called and the submission completes as `submit` does.
pub fn submit_pow<A: WorkAcknowledger>(
    difficulty: &mut Difficulty,
    nonce: u64,
    miner: &[u8],
    acknowledger: &mut A,
) -> (r: Result<Accepted, ErrorCode>)
    requires
        old(difficulty).blocks_mined < u64::MAX,
    ensures
        !meets(chain_hash(nonce, miner@), old(difficulty).value) <==> r == Err::<Accepted, ErrorCode>(
            ErrorCode::InvalidProofOfWork,
        ),
        r is Err ==> *final(difficulty) == *old(difficulty),
        r == Err::<Accepted, ErrorCode>(ErrorCode::InvalidProofOfWork) || r == Err::<
            Accepted,
            ErrorCode,
        >(ErrorCode::ClockUnavailable) ==> *final(acknowledger) == *old(acknowledger),
        r matches Ok(a) ==> a.nonce == nonce && a.digest@ == chain_hash(nonce, miner@)
            && exists|now: i64| *final(difficulty) == after_work(*old(difficulty), now),
        old(difficulty).wf() ==> final(difficulty).wf(),
{
    let digest = recursive_pow(nonce, miner);
    if !verify_pow(&digest, difficulty) {
        return Err(ErrorCode::InvalidProofOfWork);
    }
    match ledger_time() {
        None => Err(ErrorCode::ClockUnavailable),
        Some(now) => {
            let acknowledged = acknowledger.acknowledge(nonce, &digest);
            complete_submission(difficulty, nonce, digest, now, acknowledged)
        },
    }
}

} // verus!
