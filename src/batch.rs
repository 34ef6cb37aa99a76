use vstd::prelude::*;
use crate::engine::{hash, hash_outcome, hash_spec, DigestError, HashEngine, BLOCK_SIZE};

verus! {

/// The first item of a batch that could not be hashed, and why.
#[derive(Debug, Clone, Copy, PartialEq, Eq)]
pub struct BatchError {
    pub index: usize,
    pub error: DigestError,
}

/// The digests of `items`, in their order.
pub open spec fn batch_spec(items: Seq<Vec<u8>>) -> Seq<Seq<u8>> {
    Seq::new(items.len(), |i: int| hash_spec(items[i]@))
}

/// Hashes each item in order. The first item that fails, the first longer
/// than a block, ends the batch: no digest is returned, and the items after
/// it are not hashed.
pub fn batch_hash(engine: &mut HashEngine, items: &[Vec<u8>]) -> (r: Result<Vec<Vec<u8>>, BatchError>)
    ensures
        match r {
            Ok(out) => {
                &&& out@.len() == items@.len()
                &&& forall|i: int| 0 <= i < items@.len() ==> items@[i]@.len() <= BLOCK_SIZE
                &&& forall|i: int| 0 <= i < out@.len() ==> (#[trigger] out@[i])@.len() == 32
                &&& out@.map_values(|v: Vec<u8>| v@) == batch_spec(items@)
            },
            Err(BatchError { index, error }) => {
                &&& index < items@.len()
                &&& hash_outcome(items@[index as int]@, Err(error))
                &&& forall|j: int| 0 <= j < index ==> (#[trigger] items@[j])@.len() <= BLOCK_SIZE
            },
        },
        r is Ok <==> forall|i: int| 0 <= i < items@.len() ==> (#[trigger] items@[i])@.len() <= BLOCK_SIZE,
{
    let mut out: Vec<Vec<u8>> = Vec::new();
    let mut i: usize = 0;
    while i < items.len()
        invariant
            0 <= i <= items@.len(),
            out@.len() == i,
            forall|j: int| 0 <= j < i ==> (#[trigger] items@[j])@.len() <= BLOCK_SIZE,
            forall|j: int| 0 <= j < i ==> (#[trigger] out@[j])@.len() == 32,
            forall|j: int| 0 <= j < i ==> (#[trigger] out@[j])@ == hash_spec(items@[j]@),
        decreases items@.len() - i,
    {
        match hash(engine, items[i].as_slice()) {
            Ok(h) => {
                out.push(h);
            },
            Err(error) => {
                return Err(BatchError { index: i, error });
            },
        }
        i = i + 1;
    }
    assert(out@.map_values(|v: Vec<u8>| v@) =~= batch_spec(items@));
    Ok(out)
}

/// The digests of two lists joined are the digests of each, joined.
pub proof fn lemma_batch_concat(a: Seq<Vec<u8>>, b: Seq<Vec<u8>>)
    ensures
        batch_spec(a + b) == batch_spec(a) + batch_spec(b),
{
    assert(batch_spec(a + b) =~= batch_spec(a) + batch_spec(b));
}

} // verus!
