//! The two aggregation modes. Both digest each blob with SHA-256 and hand the
//! digest, with a verification key, to a proof verifier supplied by the caller
//! (inside the zkVM, the recursive-proof syscall). A rejection ends the whole
//! batch with one error: no partial output is ever returned.
use vstd::prelude::*;

use crate::chain::{
    blob_digests, chain_state, committed_output, fold_digest, initial_chain_state, key_to_be_bytes,
};
use crate::hashing::{public_values_digest, sha256_of};

verus! {

/// Why a batch produced no output.
#[derive(Debug, Clone, Copy, PartialEq, Eq, Structural)]
pub enum AggregationError {
    /// The key list and the blob list differ in length; nothing was verified.
    LengthMismatch { keys: usize, blobs: usize },
    /// The verifier rejected the digest of the blob at `index`.
    VerificationFailed { index: usize },
}

/// The contents of each blob.
pub open spec fn blob_views(blobs: Seq<Vec<u8>>) -> Seq<Seq<u8>> {
    blobs.map_values(|b: Vec<u8>| b@)
}

/// The verifier, called on `key` and `digest`, may accept.
pub open spec fn may_accept<F: Fn([u32; 8], [u8; 32]) -> bool>(
    verify: F,
    key: [u32; 8],
    digest: [u8; 32],
) -> bool {
    verify.ensures((key, digest), true)
}

/// The verifier, called on `key` and `digest`, accepts whenever it returns.
pub open spec fn always_accepts<F: Fn([u32; 8], [u8; 32]) -> bool>(
    verify: F,
    key: [u32; 8],
    digest: [u8; 32],
) -> bool {
    forall|b: bool| verify.ensures((key, digest), b) ==> b
}

/// Where the key for each blob comes from.
enum KeySource<'a> {
    /// One key for every blob.
    Shared([u32; 8]),
    /// The key at the blob's own index.
    PerBlob(&'a Vec<[u32; 8]>),
}

/// The key that the blob at index `i` is verified against.
spec fn key_for(keys: KeySource, i: int) -> [u32; 8] {
    match keys {
        KeySource::Shared(k) => k,
        KeySource::PerBlob(ks) => ks@[i],
    }
}

/// A key source has a key for each of `n` blobs.
spec fn covers(keys: KeySource, n: int) -> bool {
    match keys {
        KeySource::Shared(_) => true,
        KeySource::PerBlob(ks) => ks.len() == n,
    }
}

impl<'a> KeySource<'a> {
    /// The key for the blob at index `i`.
    fn key_at(&self, i: usize) -> (r: [u32; 8])
        requires
            match *self {
                KeySource::Shared(_) => true,
                KeySource::PerBlob(ks) => i < ks.len(),
            },
        ensures
            r == key_for(*self, i as int),
    {
        match self {
            KeySource::Shared(k) => *k,
            KeySource::PerBlob(ks) => ks[i],
        }
    }
}

/// The one batch routine behind both modes: digests each blob in order, has
/// the verifier check it against the blob's key, and, when `fold` is set,
/// folds the digest into the hash chain. The first rejection ends the batch.
/// The result is the chain state (the initial state when `fold` is unset).
fn verify_batch<F: Fn([u32; 8], [u8; 32]) -> bool>(
    keys: &KeySource,
    blobs: &Vec<Vec<u8>>,
    fold: bool,
    verify: F,
) -> (r: Result<[u8; 32], AggregationError>)
    requires
        covers(*keys, blobs.len() as int),
        forall|k: [u32; 8], d: [u8; 32]| verify.requires((k, d)),
    ensures
        match r {
            Ok(state) => {
                &&& fold ==> state@ == chain_state(blob_views(blobs@))
                &&& forall|i: int|
                    0 <= i < blobs.len() ==> may_accept(
                        verify,
                        key_for(*keys, i),
                        sha256_of(#[trigger] blobs@[i]@),
                    )
            },
            Err(AggregationError::VerificationFailed { index }) => {
                &&& index < blobs.len()
                &&& verify.ensures(
                    (key_for(*keys, index as int), sha256_of(blobs@[index as int]@)),
                    false,
                )
                &&& forall|i: int|
                    0 <= i < index ==> may_accept(
                        verify,
                        key_for(*keys, i),
                        sha256_of(#[trigger] blobs@[i]@),
                    )
            },
            Err(AggregationError::LengthMismatch { .. }) => false,
        },
{
    let ghost views = blob_views(blobs@);
    let mut state: [u8; 32] = [0u8; 32];
    assert(state@ =~= initial_chain_state());
    assert(views.take(0) =~= Seq::<Seq<u8>>::empty());
    let mut i: usize = 0;
    while i < blobs.len()
        invariant
            i <= blobs.len(),
            views == blob_views(blobs@),
            covers(*keys, blobs.len() as int),
            fold ==> state@ == chain_state(views.take(i as int)),
            forall|k: [u32; 8], d: [u8; 32]| verify.requires((k, d)),
            forall|j: int|
                0 <= j < i ==> may_accept(verify, key_for(*keys, j), sha256_of(#[trigger] blobs@[j]@)),
        decreases blobs.len() - i,
    {
        let digest = public_values_digest(blobs[i].as_slice());
        if !verify(keys.key_at(i), digest) {
            return Err(AggregationError::VerificationFailed { index: i });
        }
        if fold {
            state = fold_digest(&state, &digest);
            proof {
                let d = blob_digests(views.take(i as int + 1));
                assert(d.drop_last() =~= blob_digests(views.take(i as int)));
                assert(d.last() == sha256_of(blobs@[i as int]@)@);
            }
        }
        i += 1;
    }
    assert(views.take(blobs.len() as int) =~= views);
    Ok(state)
}

/// Verifies every blob of a batch against one shared key and folds the blob
/// digests, in order, into a Keccak-256 hash chain.
///
/// On success the result is the 64 committed bytes: the final chain state
/// followed by the key's words in big-endian order. The first rejected blob
/// ends the batch with `VerificationFailed`, and nothing else is returned.
pub fn chained_aggregate<F: Fn([u32; 8], [u8; 32]) -> bool>(
    vkey: [u32; 8],
    blobs: &Vec<Vec<u8>>,
    verify: F,
) -> (r: Result<Vec<u8>, AggregationError>)
    requires
        forall|k: [u32; 8], d: [u8; 32]| verify.requires((k, d)),
    ensures
        match r {
            Ok(out) => {
                &&& out@ == committed_output(blob_views(blobs@), vkey@)
                &&& out@.len() == 64
                &&& forall|i: int|
                    0 <= i < blobs.len() ==> may_accept(verify, vkey, sha256_of(#[trigger] blobs@[i]@))
            },
            Err(AggregationError::VerificationFailed { index }) => {
                &&& index < blobs.len()
                &&& verify.ensures((vkey, sha256_of(blobs@[index as int]@)), false)
                &&& forall|i: int|
                    0 <= i < index ==> may_accept(verify, vkey, sha256_of(#[trigger] blobs@[i]@))
            },
            Err(AggregationError::LengthMismatch { .. }) => false,
        },
        (forall|i: int|
            0 <= i < blobs.len() ==> always_accepts(verify, vkey, sha256_of(#[trigger] blobs@[i]@)))
            ==> r is Ok,
        (exists|i: int|
            0 <= i < blobs.len() && !may_accept(verify, vkey, sha256_of(#[trigger] blobs@[i]@)))
            ==> r is Err,
        blobs.len() == 0 ==> r is Ok && r->Ok_0@.take(32) == initial_chain_state(),
{
    let keys = KeySource::Shared(vkey);
    let state = match verify_batch(&keys, blobs, true, verify) {
        Ok(state) => state,
        Err(e) => {
            return Err(e);
        },
    };
    let mut out: Vec<u8> = Vec::with_capacity(64);
    let mut j: usize = 0;
    while j < 32
        invariant
            j <= 32,
            out@ == state@.take(j as int),
        decreases 32 - j,
    {
        out.push(state[j]);
        j += 1;
    }
    let mut key_bytes = key_to_be_bytes(&vkey);
    out.append(&mut key_bytes);
    assert(state@.take(32) =~= state@);
    Ok(out)
}

/// Verifies every blob of a batch against its own key, at the same index of
/// `vkeys`. Lists of different lengths are refused before anything is
/// verified; the first rejected blob ends the batch. Nothing is committed.
pub fn plain_aggregate<F: Fn([u32; 8], [u8; 32]) -> bool>(
    vkeys: &Vec<[u32; 8]>,
    blobs: &Vec<Vec<u8>>,
    verify: F,
) -> (r: Result<(), AggregationError>)
    requires
        forall|k: [u32; 8], d: [u8; 32]| verify.requires((k, d)),
    ensures
        (vkeys.len() != blobs.len()) <==> r == Err::<(), AggregationError>(
            AggregationError::LengthMismatch { keys: vkeys.len(), blobs: blobs.len() },
        ),
        match r {
            Ok(()) => forall|i: int|
                0 <= i < blobs.len() ==> may_accept(verify, vkeys@[i], sha256_of(#[trigger] blobs@[i]@)),
            Err(AggregationError::VerificationFailed { index }) => {
                &&& vkeys.len() == blobs.len()
                &&& index < blobs.len()
                &&& verify.ensures((vkeys@[index as int], sha256_of(blobs@[index as int]@)), false)
                &&& forall|i: int|
                    0 <= i < index ==> may_accept(verify, vkeys@[i], sha256_of(#[trigger] blobs@[i]@))
            },
            Err(AggregationError::LengthMismatch { .. }) => true,
        },
        vkeys.len() == blobs.len() && (forall|i: int|
            0 <= i < blobs.len() ==> always_accepts(verify, vkeys@[i], sha256_of(#[trigger] blobs@[i]@)))
            ==> r is Ok,
        (exists|i: int|
            0 <= i < blobs.len() && i < vkeys.len() && !may_accept(verify, vkeys@[i], sha256_of(#[trigger] blobs@[i]@)))
            ==> r is Err,
{
    if vkeys.len() != blobs.len() {
        return Err(AggregationError::LengthMismatch { keys: vkeys.len(), blobs: blobs.len() });
    }
    let keys = KeySource::PerBlob(vkeys);
    match verify_batch(&keys, blobs, false, verify) {
        Ok(_) => Ok(()),
        Err(e) => Err(e),
    }
}

} // verus!
