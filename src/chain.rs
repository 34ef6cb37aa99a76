use vstd::prelude::*;
use vstd::slice::slice_to_vec;
use crate::engine::{hash, hash_spec, DigestError, HashEngine, BLOCK_SIZE};

verus! {

/// `data` hashed `k` times over, each digest fed back in as the next input.
pub open spec fn chain_spec(data: Seq<u8>, k: nat) -> Seq<u8>
    decreases k,
{
    if k == 0 {
        data
    } else {
        hash_spec(chain_spec(data, (k - 1) as nat))
    }
}

/// Hashes `data`, then the digest, `iterations` times in all; zero
/// iterations hand `data` back unchanged. Only the first step can fail, on
/// an input longer than a block; every digest after it fits in one.
pub fn xelis_hash_multiple(engine: &mut HashEngine, data: &[u8], iterations: u32) -> (r: Result<Vec<u8>, DigestError>)
    ensures
        iterations == 0 ==> (r is Ok && r->Ok_0@ == data@),
        iterations > 0 && data@.len() > BLOCK_SIZE ==> r == Err::<Vec<u8>, DigestError>(
            DigestError::InputTooLong { len: data@.len() as usize },
        ),
        iterations > 0 && data@.len() <= BLOCK_SIZE ==> (r is Ok && r->Ok_0@ == chain_spec(
            data@,
            iterations as nat,
        ) && r->Ok_0@.len() == 32),
{
    if iterations == 0 {
        return Ok(slice_to_vec(data));
    }
    let mut result = match hash(engine, data) {
        Ok(h) => h,
        Err(e) => {
            return Err(e);
        },
    };
    assert(chain_spec(data@, 0) == data@);
    assert(chain_spec(data@, 1) == hash_spec(data@));
    let mut i: u32 = 1;
    while i < iterations
        invariant
            1 <= i <= iterations,
            data@.len() <= BLOCK_SIZE,
            result@ == chain_spec(data@, i as nat),
            result@.len() == 32,
        decreases iterations - i,
    {
        let next = hash(engine, result.as_slice());
        match next {
            Ok(h) => {
                result = h;
            },
            Err(e) => {
                return Err(e);
            },
        }
        i = i + 1;
    }
    Ok(result)
}

/// Hashing zero times is the identity.
pub proof fn lemma_chain_identity(data: Seq<u8>)
    ensures
        chain_spec(data, 0) == data,
{
}

/// Hashing `k` times is hashing the result of `k - 1` times once more.
pub proof fn lemma_chain_step(data: Seq<u8>, k: nat)
    requires
        k >= 1,
    ensures
        chain_spec(data, k) == hash_spec(chain_spec(data, (k - 1) as nat)),
{
}

/// Hashing `a + b` times is hashing `b` times the result of hashing `a`
/// times.
pub proof fn lemma_chain_split(data: Seq<u8>, a: nat, b: nat)
    ensures
        chain_spec(data, a + b) == chain_spec(chain_spec(data, a), b),
    decreases b,
{
    if b > 0 {
        lemma_chain_split(data, a, (b - 1) as nat);
        assert((a + b - 1) as nat == a + (b - 1) as nat);
    }
}

} // verus!
