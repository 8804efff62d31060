//! The Keccak-256 hash chain over blob digests, and the bytes it commits.
use vstd::prelude::*;

use crate::hashing::{keccak256, keccak256_of, sha256_of};

verus! {

/// The chain's value before anything has been folded in: 32 zero bytes.
pub open spec fn initial_chain_state() -> Seq<u8> {
    Seq::new(32, |i: int| 0u8)
}

/// One link of the chain: Keccak-256 of the old state followed by the digest.
pub open spec fn chain_step(state: Seq<u8>, digest: Seq<u8>) -> Seq<u8> {
    keccak256_of(state + digest)@
}

/// The chain folded over `digests` from first to last.
pub open spec fn chain_over(digests: Seq<Seq<u8>>) -> Seq<u8>
    decreases digests.len(),
{
    if digests.len() == 0 {
        initial_chain_state()
    } else {
        chain_step(chain_over(digests.drop_last()), digests.last())
    }
}

/// The SHA-256 digest of each blob, in order.
pub open spec fn blob_digests(blobs: Seq<Seq<u8>>) -> Seq<Seq<u8>> {
    blobs.map_values(|b: Seq<u8>| sha256_of(b)@)
}

/// The chain state that a batch of blobs leaves behind.
pub open spec fn chain_state(blobs: Seq<Seq<u8>>) -> Seq<u8> {
    chain_over(blob_digests(blobs))
}

/// Byte `k` (0 is the most significant) of the big-endian form of `w`.
pub open spec fn be_byte(w: u32, k: int) -> u8 {
    ((w as int / pow256(3 - k)) % 256) as u8
}

/// 256 to the power `e`, for `e` in 0..=3.
pub open spec fn pow256(e: int) -> int {
    if e <= 0 {
        1
    } else if e == 1 {
        0x100
    } else if e == 2 {
        0x1_0000
    } else {
        0x100_0000
    }
}

/// The words of a verification key, each written as four big-endian bytes.
pub open spec fn key_bytes(vkey: Seq<u32>) -> Seq<u8> {
    Seq::new(4 * vkey.len(), |i: int| be_byte(vkey[i / 4], i % 4))
}

/// What a chained aggregation commits: the chain state, then the key's bytes.
pub open spec fn committed_output(blobs: Seq<Seq<u8>>, vkey: Seq<u32>) -> Seq<u8> {
    chain_state(blobs) + key_bytes(vkey)
}

/// Every chain value is 32 bytes long.
pub proof fn lemma_chain_over_len(digests: Seq<Seq<u8>>)
    ensures
        chain_over(digests).len() == 32,
    decreases digests.len(),
{
    if digests.len() > 0 {
        lemma_chain_over_len(digests.drop_last());
    }
}

/// Folds one digest into the chain: Keccak-256 of `state` followed by `digest`.
pub fn fold_digest(state: &[u8; 32], digest: &[u8; 32]) -> (r: [u8; 32])
    ensures
        r@ == chain_step(state@, digest@),
{
    let mut buf: Vec<u8> = Vec::with_capacity(64);
    let mut i: usize = 0;
    while i < 32
        invariant
            i <= 32,
            buf@ == state@.take(i as int),
        decreases 32 - i,
    {
        buf.push(state[i]);
        i += 1;
    }
    let mut j: usize = 0;
    while j < 32
        invariant
            j <= 32,
            buf@ == state@ + digest@.take(j as int),
        decreases 32 - j,
    {
        buf.push(digest[j]);
        j += 1;
    }
    assert(state@.take(32) == state@);
    assert(digest@.take(32) == digest@);
    keccak256(buf.as_slice())
}

/// The big-endian bytes of one word.
fn word_be_bytes(w: u32) -> (r: [u8; 4])
    ensures
        r@ == seq![be_byte(w, 0), be_byte(w, 1), be_byte(w, 2), be_byte(w, 3)],
{
    let b0 = (w >> 24u32) as u8;
    let b1 = ((w >> 16u32) & 0xff) as u8;
    let b2 = ((w >> 8u32) & 0xff) as u8;
    let b3 = (w & 0xff) as u8;
    assert(b0 == ((w as int / 0x100_0000) % 256) as u8) by (bit_vector)
        requires
            b0 == (w >> 24u32) as u8,
    ;
    assert(b1 == ((w as int / 0x1_0000) % 256) as u8) by (bit_vector)
        requires
            b1 == ((w >> 16u32) & 0xff) as u8,
    ;
    assert(b2 == ((w as int / 0x100) % 256) as u8) by (bit_vector)
        requires
            b2 == ((w >> 8u32) & 0xff) as u8,
    ;
    assert(b3 == ((w as int / 1) % 256) as u8) by (bit_vector)
        requires
            b3 == (w & 0xff) as u8,
    ;
    let r = [b0, b1, b2, b3];
    assert(r@ =~= seq![be_byte(w, 0), be_byte(w, 1), be_byte(w, 2), be_byte(w, 3)]);
    r
}

/// The verification key's eight words as 32 big-endian bytes.
pub fn key_to_be_bytes(vkey: &[u32; 8]) -> (r: Vec<u8>)
    ensures
        r@ == key_bytes(vkey@),
        r@.len() == 32,
{
    let mut out: Vec<u8> = Vec::with_capacity(32);
    let mut i: usize = 0;
    while i < 8
        invariant
            i <= 8,
            out@ == key_bytes(vkey@.take(i as int)),
        decreases 8 - i,
    {
        let bytes = word_be_bytes(vkey[i]);
        out.push(bytes[0]);
        out.push(bytes[1]);
        out.push(bytes[2]);
        out.push(bytes[3]);
        assert(out@ =~= key_bytes(vkey@.take(i as int + 1)));
        i += 1;
    }
    assert(vkey@.take(8) =~= vkey@);
    out
}

/// Two distinct byte strings share a SHA-256 digest.
pub open spec fn sha256_collides() -> bool {
    exists|x: Seq<u8>, y: Seq<u8>| x != y && #[trigger] sha256_of(x) == #[trigger] sha256_of(y)
}

/// Two distinct byte strings share a Keccak-256 digest.
pub open spec fn keccak256_collides() -> bool {
    exists|x: Seq<u8>, y: Seq<u8>|
        x != y && #[trigger] keccak256_of(x) == #[trigger] keccak256_of(y)
}

/// `blobs` with the entries at `i` and `j` exchanged.
pub open spec fn swapped(blobs: Seq<Seq<u8>>, i: int, j: int) -> Seq<Seq<u8>> {
    blobs.update(i, blobs[j]).update(j, blobs[i])
}

/// Two different digest sequences of one length, every digest 32 bytes long,
/// reach the same chain value only through a Keccak-256 collision.
pub proof fn lemma_chain_over_injective(a: Seq<Seq<u8>>, b: Seq<Seq<u8>>)
    requires
        a.len() == b.len(),
        forall|k: int| 0 <= k < a.len() ==> (#[trigger] a[k]).len() == 32,
        forall|k: int| 0 <= k < b.len() ==> (#[trigger] b[k]).len() == 32,
        a != b,
        chain_over(a) == chain_over(b),
    ensures
        keccak256_collides(),
    decreases a.len(),
{
    if a.len() == 0 {
        assert(a =~= b);
    } else {
        let a0 = a.drop_last();
        let b0 = b.drop_last();
        let x = chain_over(a0) + a.last();
        let y = chain_over(b0) + b.last();
        lemma_chain_over_len(a0);
        lemma_chain_over_len(b0);
        assert(keccak256_of(x) =~= keccak256_of(y));
        if x != y {
            assert(x != y && keccak256_of(x) == keccak256_of(y));
        } else {
            assert(chain_over(a0) =~= x.take(32));
            assert(chain_over(b0) =~= y.take(32));
            assert(a.last() =~= x.skip(32));
            assert(b.last() =~= y.skip(32));
            if a0 == b0 {
                assert(a =~= a0.push(a.last()));
                assert(b =~= b0.push(b.last()));
            } else {
                lemma_chain_over_injective(a0, b0);
            }
        }
    }
}

/// Content sensitivity: two different batches of one length leave the same
/// chain state only through a SHA-256 or a Keccak-256 collision.
pub proof fn lemma_chain_state_injective(blobs1: Seq<Seq<u8>>, blobs2: Seq<Seq<u8>>)
    requires
        blobs1.len() == blobs2.len(),
        blobs1 != blobs2,
        chain_state(blobs1) == chain_state(blobs2),
    ensures
        sha256_collides() || keccak256_collides(),
{
    let d1 = blob_digests(blobs1);
    let d2 = blob_digests(blobs2);
    if d1 == d2 {
        assert(!(blobs1 =~= blobs2));
        let k = choose|k: int| 0 <= k < blobs1.len() && blobs1[k] != blobs2[k];
        assert(d1[k] == d2[k]);
        assert(sha256_of(blobs1[k]) =~= sha256_of(blobs2[k]));
        assert(blobs1[k] != blobs2[k] && sha256_of(blobs1[k]) == sha256_of(blobs2[k]));
    } else {
        lemma_chain_over_injective(d1, d2);
    }
}

/// Order sensitivity: exchanging two blobs of different content changes the
/// chain state, unless SHA-256 or Keccak-256 has a collision.
pub proof fn lemma_swap_changes_chain(blobs: Seq<Seq<u8>>, i: int, j: int)
    requires
        0 <= i < j < blobs.len(),
        blobs[i] != blobs[j],
    ensures
        chain_state(blobs) != chain_state(swapped(blobs, i, j)) || sha256_collides()
            || keccak256_collides(),
{
    let t = swapped(blobs, i, j);
    assert(t[i] == blobs[j]);
    if chain_state(blobs) == chain_state(t) {
        lemma_chain_state_injective(blobs, t);
    }
}

/// The chain over no blobs at all is the initial all-zero state.
pub proof fn lemma_empty_batch_chain()
    ensures
        chain_state(Seq::<Seq<u8>>::empty()) == initial_chain_state(),
{
}

/// Determinism: two successful chained aggregations of the same key and the
/// same blobs commit the same 64 bytes.
pub proof fn lemma_output_deterministic(
    vkey: [u32; 8],
    blobs: Seq<Seq<u8>>,
    out1: Seq<u8>,
    out2: Seq<u8>,
)
    requires
        out1 == committed_output(blobs, vkey@),
        out2 == committed_output(blobs, vkey@),
    ensures
        out1 == out2,
        out1.len() == 64,
{
    lemma_chain_over_len(blob_digests(blobs));
}

} // verus!
