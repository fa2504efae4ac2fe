use skynt_pow::miner::{nonce_from_bytes, search, SkynetMiner};
use skynt_pow::pow::{meets_target, recursive_pow};

const MINER: &[u8] = b"ExampleSolanaMinerAddress123456789";
const ADDRESS: &str = "ExampleSolanaMinerAddress123456789";
const GENESIS_NONCE: u64 = 1408831;
const GENESIS_TARGET: u128 = u128::MAX / 1_000_000;

#[test]
fn search_returns_start_when_it_qualifies() {
    let r = search(MINER, u128::MAX, 0, Some(1));
    assert_eq!(r, Some((0, recursive_pow(0, MINER))));
    let r = search(MINER, u128::MAX, 0, None);
    assert_eq!(r, Some((0, recursive_pow(0, MINER))));
}

#[test]
fn search_with_zero_attempts_finds_nothing() {
    assert_eq!(search(MINER, u128::MAX, 0, Some(0)), None);
    assert_eq!(search(&[], u128::MAX, 123, Some(0)), None);
}

#[test]
fn search_gives_up_after_max_attempts() {
    assert_eq!(search(MINER, GENESIS_TARGET, 0, Some(3)), None);
    assert_eq!(search(MINER, 0, 5, Some(4)), None);
}

#[test]
fn search_finds_first_qualifying_nonce() {
    let r = search(MINER, GENESIS_TARGET, GENESIS_NONCE - 5, Some(6));
    let (n, d) = r.unwrap();
    assert_eq!(n, GENESIS_NONCE);
    assert!(meets_target(&d, GENESIS_TARGET));
    assert_eq!(search(MINER, GENESIS_TARGET, GENESIS_NONCE - 5, Some(5)), None);
}

#[test]
fn search_wraps_around_nonce_space() {
    // nonce u64::MAX misses this target, nonce 0 meets it
    let target: u128 = 135443969764997192686286814899644378588;
    assert!(!meets_target(&recursive_pow(u64::MAX, MINER), target));
    let r = search(MINER, target, u64::MAX, Some(2));
    assert_eq!(r, Some((0, recursive_pow(0, MINER))));
}

#[test]
fn miner_defaults_to_genesis_target() {
    let m = SkynetMiner::new(ADDRESS.to_string(), None);
    assert_eq!(m.difficulty_target(), GENESIS_TARGET);
    assert_eq!(m.miner_address(), ADDRESS);
    let m = SkynetMiner::new(ADDRESS.to_string(), Some(99));
    assert_eq!(m.difficulty_target(), 99);
}

#[test]
fn miner_hashes_its_address() {
    let m = SkynetMiner::new(ADDRESS.to_string(), None);
    assert_eq!(m.recursive_pow(0), recursive_pow(0, MINER));
    assert_eq!(m.recursive_pow(GENESIS_NONCE), recursive_pow(GENESIS_NONCE, MINER));
}

#[test]
fn miner_verify_pow_against_its_target() {
    let m = SkynetMiner::new(ADDRESS.to_string(), None);
    assert!(m.verify_pow(&m.recursive_pow(GENESIS_NONCE)));
    assert!(!m.verify_pow(&m.recursive_pow(0)));
}

#[test]
fn miner_mine_from_start() {
    let m = SkynetMiner::new(ADDRESS.to_string(), None);
    let r = m.mine_from(GENESIS_NONCE - 2, Some(10));
    assert_eq!(r, Some((GENESIS_NONCE, recursive_pow(GENESIS_NONCE, MINER))));
    assert_eq!(m.mine_from(0, Some(2)), None);
}

#[test]
fn miner_mine_from_random_start() {
    let m = SkynetMiner::new(ADDRESS.to_string(), None);
    assert_eq!(m.mine(Some(0)), None);
    let easy = SkynetMiner::new(ADDRESS.to_string(), Some(u128::MAX));
    let (n, d) = easy.mine(Some(4)).unwrap();
    assert_eq!(d, easy.recursive_pow(n));
    assert!(easy.verify_pow(&d));
}

#[test]
fn miner_submission_report() {
    let m = SkynetMiner::new(ADDRESS.to_string(), None);
    let r = m.submit_pow(17, 1_700_000_000);
    assert_eq!(r.nonce, 17);
    assert_eq!(r.miner, ADDRESS);
    assert_eq!(r.timestamp, 1_700_000_000);
}

#[test]
fn nonce_from_bytes_is_big_endian() {
    assert_eq!(nonce_from_bytes([1, 2, 3, 4, 5, 6, 7, 8]), 0x0102_0304_0506_0708);
    assert_eq!(nonce_from_bytes([0; 8]), 0);
    assert_eq!(nonce_from_bytes([0xff; 8]), u64::MAX);
}
