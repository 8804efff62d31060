use std::cell::{Cell, RefCell};

use sha2::Digest as _;

use aggregation::aggregate::{chained_aggregate, plain_aggregate, AggregationError};
use aggregation::chain::{fold_digest, key_to_be_bytes};
use aggregation::hashing::public_values_digest;

fn bytes32(s: &str) -> [u8; 32] {
    let v = hex::decode(s).unwrap();
    let mut out = [0u8; 32];
    out.copy_from_slice(&v);
    out
}

fn accept_all(_k: [u32; 8], _d: [u8; 32]) -> bool {
    true
}

const SHA_A: &str = "ca978112ca1bbdcafac231b39a23dc4da786eff8147c4e72b9807785afee48bb";
const SHA_B: &str = "3e23e8160039594a33894f6564e1b1348bbd7a0088d42c4acb73eeaed59c009d";
const CHAIN_A: &str = "fea95f068c2eb837da0a8142b6d95b750148aac6fd4babb3fb6abae5d4517121";
const CHAIN_AB: &str = "2be66bdc3587bbe3c25af13481887f4582aa545d2a199827e5c64b52521b8d21";
const CHAIN_BA: &str = "a21408e76ce5d0b9be69fff75e28048938c8e2254078893f015a7d3ecb37e369";

#[test]
fn digest_of_blob_is_sha256() {
    assert_eq!(public_values_digest(b"a"), bytes32(SHA_A));
    assert_eq!(public_values_digest(b"b"), bytes32(SHA_B));
}

#[test]
fn fold_of_zero_state_and_zero_digest() {
    let r = fold_digest(&[0u8; 32], &[0u8; 32]);
    assert_eq!(
        r,
        bytes32("ad3228b676f7d3cd4284a5443f17f1962b36e491b30a40b2405849e597ba5fb5")
    );
}

#[test]
fn fold_of_zero_state_and_digest_of_a() {
    let r = fold_digest(&[0u8; 32], &bytes32(SHA_A));
    assert_eq!(r, bytes32(CHAIN_A));
}

#[test]
fn key_words_become_big_endian_bytes() {
    let vkey: [u32; 8] = [
        0x01020304, 0x05060708, 0x090a0b0c, 0x0d0e0f10, 0x11121314, 0x15161718, 0x191a1b1c,
        0xdeadbeef,
    ];
    let b = key_to_be_bytes(&vkey);
    let expected: Vec<u8> = vec![
        1, 2, 3, 4, 5, 6, 7, 8, 9, 10, 11, 12, 13, 14, 15, 16, 17, 18, 19, 20, 21, 22, 23, 24, 25,
        26, 27, 28, 0xde, 0xad, 0xbe, 0xef,
    ];
    assert_eq!(b, expected);
}

#[test]
fn two_blobs_give_reference_chain() {
    let blobs = vec![b"a".to_vec(), b"b".to_vec()];
    let out = chained_aggregate([0u32; 8], &blobs, accept_all).unwrap();
    assert_eq!(out.len(), 64);
    assert_eq!(&out[..32], &bytes32(CHAIN_AB)[..]);
    assert_eq!(&out[32..], &[0u8; 32][..]);
}

#[test]
fn two_blobs_match_chain_built_by_hand() {
    let da: [u8; 32] = sha2::Sha256::digest(b"a").into();
    let db: [u8; 32] = sha2::Sha256::digest(b"b").into();
    let mut h = sha3::Keccak256::new();
    h.update([0u8; 32]);
    h.update(da);
    let s1: [u8; 32] = h.finalize_reset().into();
    h.update(s1);
    h.update(db);
    let s2: [u8; 32] = h.finalize().into();
    let blobs = vec![b"a".to_vec(), b"b".to_vec()];
    let out = chained_aggregate([0u32; 8], &blobs, accept_all).unwrap();
    assert_eq!(&out[..32], &s2[..]);
}

#[test]
fn empty_batch_commits_zeros() {
    let blobs: Vec<Vec<u8>> = vec![];
    let out = chained_aggregate([0u32; 8], &blobs, accept_all).unwrap();
    assert_eq!(out, vec![0u8; 64]);
}

#[test]
fn empty_batch_keeps_key_bytes() {
    let blobs: Vec<Vec<u8>> = vec![];
    let vkey: [u32; 8] = [1, 0, 0, 0, 0, 0, 0, 0x80000000];
    let out = chained_aggregate(vkey, &blobs, accept_all).unwrap();
    assert_eq!(&out[..32], &[0u8; 32][..]);
    let mut expected_key = vec![0u8; 32];
    expected_key[3] = 1;
    expected_key[28] = 0x80;
    assert_eq!(&out[32..], &expected_key[..]);
}

#[test]
fn single_blob_chain() {
    let blobs = vec![b"a".to_vec()];
    let out = chained_aggregate([0u32; 8], &blobs, accept_all).unwrap();
    assert_eq!(&out[..32], &bytes32(CHAIN_A)[..]);
}

#[test]
fn swapping_blobs_changes_chain() {
    let ab = vec![b"a".to_vec(), b"b".to_vec()];
    let ba = vec![b"b".to_vec(), b"a".to_vec()];
    let out_ab = chained_aggregate([0u32; 8], &ab, accept_all).unwrap();
    let out_ba = chained_aggregate([0u32; 8], &ba, accept_all).unwrap();
    assert_eq!(&out_ba[..32], &bytes32(CHAIN_BA)[..]);
    assert_ne!(out_ab, out_ba);
}

#[test]
fn changing_blob_content_changes_chain() {
    let one = vec![b"a".to_vec(), b"b".to_vec()];
    let other = vec![b"a".to_vec(), b"c".to_vec()];
    let r1 = chained_aggregate([0u32; 8], &one, accept_all).unwrap();
    let r2 = chained_aggregate([0u32; 8], &other, accept_all).unwrap();
    assert_ne!(r1, r2);
}

#[test]
fn chained_output_is_deterministic() {
    let vkey: [u32; 8] = [7, 6, 5, 4, 3, 2, 1, 0];
    let blobs = vec![vec![1u8, 2, 3], vec![], vec![9u8; 100]];
    let r1 = chained_aggregate(vkey, &blobs, accept_all).unwrap();
    let r2 = chained_aggregate(vkey, &blobs, accept_all).unwrap();
    assert_eq!(r1, r2);
    assert_eq!(r1.len(), 64);
}

#[test]
fn chained_verifies_each_digest_in_order_with_shared_key() {
    let vkey: [u32; 8] = [9, 9, 9, 9, 9, 9, 9, 9];
    let blobs = vec![b"a".to_vec(), b"b".to_vec()];
    let calls: RefCell<Vec<([u32; 8], [u8; 32])>> = RefCell::new(vec![]);
    let out = chained_aggregate(vkey, &blobs, |k, d| {
        calls.borrow_mut().push((k, d));
        true
    });
    assert!(out.is_ok());
    let calls = calls.into_inner();
    assert_eq!(calls, vec![(vkey, bytes32(SHA_A)), (vkey, bytes32(SHA_B))]);
}

#[test]
fn chained_rejection_at_any_position_aborts() {
    let blobs = vec![b"x".to_vec(), b"y".to_vec(), b"z".to_vec()];
    for bad in 0..3usize {
        let bad_digest = public_values_digest(&blobs[bad]);
        let r = chained_aggregate([0u32; 8], &blobs, |_k, d| d != bad_digest);
        assert_eq!(r, Err(AggregationError::VerificationFailed { index: bad }));
    }
}

#[test]
fn chained_rejection_stops_verification() {
    let blobs = vec![b"x".to_vec(), b"y".to_vec(), b"z".to_vec()];
    let count = Cell::new(0usize);
    let r = chained_aggregate([0u32; 8], &blobs, |_k, _d| {
        count.set(count.get() + 1);
        count.get() < 2
    });
    assert_eq!(r, Err(AggregationError::VerificationFailed { index: 1 }));
    assert_eq!(count.get(), 2);
}

#[test]
fn plain_mismatched_lengths_verify_nothing() {
    let vkeys: Vec<[u32; 8]> = vec![[0u32; 8]];
    let blobs = vec![b"a".to_vec(), b"b".to_vec()];
    let count = Cell::new(0usize);
    let r = plain_aggregate(&vkeys, &blobs, |_k, _d| {
        count.set(count.get() + 1);
        true
    });
    assert_eq!(r, Err(AggregationError::LengthMismatch { keys: 1, blobs: 2 }));
    assert_eq!(count.get(), 0);
}

#[test]
fn plain_more_keys_than_blobs_is_refused() {
    let vkeys: Vec<[u32; 8]> = vec![[0u32; 8], [1u32; 8]];
    let blobs: Vec<Vec<u8>> = vec![];
    let r = plain_aggregate(&vkeys, &blobs, accept_all);
    assert_eq!(r, Err(AggregationError::LengthMismatch { keys: 2, blobs: 0 }));
}

#[test]
fn plain_pairs_each_blob_with_its_own_key() {
    let vkeys: Vec<[u32; 8]> = vec![[1u32; 8], [2u32; 8]];
    let blobs = vec![b"a".to_vec(), b"b".to_vec()];
    let calls: RefCell<Vec<([u32; 8], [u8; 32])>> = RefCell::new(vec![]);
    let r = plain_aggregate(&vkeys, &blobs, |k, d| {
        calls.borrow_mut().push((k, d));
        true
    });
    assert_eq!(r, Ok(()));
    assert_eq!(
        calls.into_inner(),
        vec![([1u32; 8], bytes32(SHA_A)), ([2u32; 8], bytes32(SHA_B))]
    );
}

#[test]
fn plain_rejection_reports_index() {
    let vkeys: Vec<[u32; 8]> = vec![[1u32; 8], [2u32; 8], [3u32; 8]];
    let blobs = vec![b"a".to_vec(), b"b".to_vec(), b"c".to_vec()];
    let r = plain_aggregate(&vkeys, &blobs, |k, _d| k != [3u32; 8]);
    assert_eq!(r, Err(AggregationError::VerificationFailed { index: 2 }));
}

#[test]
fn plain_empty_batch_succeeds() {
    let vkeys: Vec<[u32; 8]> = vec![];
    let blobs: Vec<Vec<u8>> = vec![];
    assert_eq!(plain_aggregate(&vkeys, &blobs, accept_all), Ok(()));
}
