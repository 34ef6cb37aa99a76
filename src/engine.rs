use vstd::prelude::*;
use vstd::string::StringSliceAdditionalSpecFns;
use ::xelis_hash::{AlignedInput, ScratchPad};
use crate::codec::{bytes_to_hex, hex_text};

verus! {

/// Bytes in the input block that the digest function reads. Shorter inputs
/// are padded with zeros; longer ones are refused.
pub const BLOCK_SIZE: usize = 200;

#[verifier::external_type_specification]
#[verifier::external_body]
pub struct ExScratchPad(::xelis_hash::ScratchPad);

#[verifier::external_type_specification]
#[verifier::external_body]
pub struct ExXelisError(::xelis_hash::Error);

/// The digest that the memory-hard function gives for a full input block.
pub uninterp spec fn xelis_digest(block: Seq<u8>) -> Seq<u8>;

/// Relies on `ScratchPad::default`: zeroed working memory of the size that
/// the digest function needs.
#[verifier::external_body]
fn new_scratch_pad() -> ScratchPad {
    ScratchPad::default()
}

/// Relies on `xelis_hash::xelis_hash`: the 32-byte digest of the input
/// block. The block is first copied into the crate's `AlignedInput`, the
/// 8-byte aligned, 200-byte form that the function reads. The function's only
/// error paths are byte casts, which cannot fail on that aligned input, on the
/// fixed-size scratch pad or on its 8-byte chunks, and `as_mut_slice` cannot
/// fail on a default `AlignedInput`; so the call succeeds. The scratch pad is
/// overwritten before it is read, so a digest depends on the block alone.
#[verifier::external_body]
fn digest_block(block: &Vec<u8>, pad: &mut ScratchPad) -> (r: Result<Vec<u8>, ::xelis_hash::Error>)
    requires
        block@.len() == BLOCK_SIZE,
    ensures
        r is Ok,
        r is Ok ==> r->Ok_0@ == xelis_digest(block@),
        r is Ok ==> r->Ok_0@.len() == 32,
{
    let mut input = AlignedInput::default();
    let slot = input.as_mut_slice()?;
    slot.copy_from_slice(block);
    ::xelis_hash::xelis_hash(slot, pad).map(|h| h.to_vec())
}

/// Why a digest could not be computed.
#[derive(Debug, Clone, Copy, PartialEq, Eq)]
pub enum DigestError {
    /// The input holds `len` bytes, more than one input block.
    InputTooLong { len: usize },
    /// The digest function reported an error. Its source shows no such
    /// error on a full, aligned block, so hashing never returns it.
    Failed,
}

/// The input block for `data`: its bytes, then zeros up to the block size.
pub open spec fn input_block(data: Seq<u8>) -> Seq<u8> {
    data + Seq::new((BLOCK_SIZE - data.len()) as nat, |i: int| 0u8)
}

/// The digest of `data`.
pub open spec fn hash_spec(data: Seq<u8>) -> Seq<u8> {
    xelis_digest(input_block(data))
}

/// What hashing `data` gives: the error for an over-long input exactly when
/// it is over-long, otherwise its digest, which is 32 bytes long.
pub open spec fn hash_outcome(data: Seq<u8>, r: Result<Seq<u8>, DigestError>) -> bool {
    if data.len() > BLOCK_SIZE {
        r == Err::<Seq<u8>, DigestError>(DigestError::InputTooLong { len: data.len() as usize })
    } else {
        r == Ok::<Seq<u8>, DigestError>(hash_spec(data)) && hash_spec(data).len() == 32
    }
}

/// The result of a hash call, with its digest seen as a sequence.
pub open spec fn view_result(r: Result<Vec<u8>, DigestError>) -> Result<Seq<u8>, DigestError> {
    match r {
        Ok(v) => Ok(v@),
        Err(e) => Err(e),
    }
}

/// One worker's scratch pad. Each digest borrows it exclusively through
/// `&mut`, and it is reused from one call to the next.
pub struct HashEngine {
    pad: ScratchPad,
}

impl HashEngine {
    /// An engine with a fresh scratch pad.
    pub fn new() -> (r: HashEngine) {
        HashEngine { pad: new_scratch_pad() }
    }
}

/// The input block for `data`, which fits in one.
fn fill_block(data: &[u8]) -> (r: Vec<u8>)
    requires
        data@.len() <= BLOCK_SIZE,
    ensures
        r@ == input_block(data@),
{
    let mut block: Vec<u8> = Vec::with_capacity(BLOCK_SIZE);
    let mut i: usize = 0;
    while i < data.len()
        invariant
            0 <= i <= data@.len(),
            block@ == data@.subrange(0, i as int),
        decreases data@.len() - i,
    {
        block.push(data[i]);
        i = i + 1;
    }
    while block.len() < BLOCK_SIZE
        invariant
            data@.len() <= block@.len() <= BLOCK_SIZE,
            block@.subrange(0, data@.len() as int) == data@,
            forall|j: int| data@.len() <= j < block@.len() ==> block@[j] == 0u8,
        decreases BLOCK_SIZE - block@.len(),
    {
        block.push(0u8);
    }
    assert(block@ =~= input_block(data@));
    block
}

/// The digest of `data`, computed with the engine's scratch pad.
pub fn hash(engine: &mut HashEngine, data: &[u8]) -> (r: Result<Vec<u8>, DigestError>)
    ensures
        hash_outcome(data@, view_result(r)),
{
    if data.len() > BLOCK_SIZE {
        return Err(DigestError::InputTooLong { len: data.len() });
    }
    let block = fill_block(data);
    match digest_block(&block, &mut engine.pad) {
        Ok(h) => Ok(h),
        Err(_) => Err(DigestError::Failed),
    }
}

/// The digest of `data` as lowercase hexadecimal text.
pub fn xelis_hash_hex(engine: &mut HashEngine, data: &[u8]) -> (r: Result<String, DigestError>)
    ensures
        data@.len() > BLOCK_SIZE ==> r == Err::<String, DigestError>(
            DigestError::InputTooLong { len: data@.len() as usize },
        ),
        data@.len() <= BLOCK_SIZE ==> (r is Ok && r->Ok_0@ == hex_text(hash_spec(data@))
            && r->Ok_0@.len() == 64),
{
    match hash(engine, data) {
        Ok(h) => Ok(bytes_to_hex(h.as_slice())),
        Err(e) => Err(e),
    }
}

/// The digest of the UTF-8 bytes of `input`, as lowercase hexadecimal text.
pub fn hash_string(engine: &mut HashEngine, input: &str) -> (r: Result<String, DigestError>)
    ensures
        input.spec_bytes().len() > BLOCK_SIZE ==> r == Err::<String, DigestError>(
            DigestError::InputTooLong { len: input.spec_bytes().len() as usize },
        ),
        input.spec_bytes().len() <= BLOCK_SIZE ==> (r is Ok && r->Ok_0@ == hex_text(hash_spec(input.spec_bytes()))
            && r->Ok_0@.len() == 64),
{
    xelis_hash_hex(engine, input.as_bytes())
}

/// What hashing gives depends on the bytes hashed alone, not on the engine
/// or on what its scratch pad held before: two calls on equal inputs, on a
/// reused engine or a fresh one, give the same result.
pub proof fn lemma_hash_deterministic(
    d1: Seq<u8>,
    d2: Seq<u8>,
    r1: Result<Seq<u8>, DigestError>,
    r2: Result<Seq<u8>, DigestError>,
)
    requires
        d1 == d2,
        hash_outcome(d1, r1),
        hash_outcome(d2, r2),
    ensures
        r1 == r2,
{
}

} // verus!
