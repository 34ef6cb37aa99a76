use vstd::prelude::*;
use crate::codec::{bytes_to_hex, hex_text};
use crate::engine::{hash, hash_spec, DigestError, HashEngine, BLOCK_SIZE};

verus! {

/// A digest, its hexadecimal text and its size in bytes.
#[derive(Debug, Clone, PartialEq, Eq)]
pub struct DetailedHashResult {
    pub bytes: Vec<u8>,
    pub hex: String,
    pub size: usize,
}

/// A digest and its hexadecimal text, with the lengths of the input and of
/// the digest.
#[derive(Debug, Clone, PartialEq, Eq)]
pub struct MetadataHashResult {
    pub input_length: usize,
    pub hash_length: usize,
    pub hash_bytes: Vec<u8>,
    pub hash_hex: String,
}

impl DetailedHashResult {
    /// Packages `digest` with its hexadecimal text and its size.
    pub fn from_digest(digest: Vec<u8>) -> (r: DetailedHashResult)
        ensures
            r.bytes@ == digest@,
            r.hex@ == hex_text(digest@),
            r.size == digest@.len(),
    {
        let hex = bytes_to_hex(digest.as_slice());
        let size = digest.len();
        DetailedHashResult { bytes: digest, hex, size }
    }
}

impl MetadataHashResult {
    /// Packages `digest` with its hexadecimal text, its length and the length
    /// of the input it was computed from.
    pub fn from_digest(input_length: usize, digest: Vec<u8>) -> (r: MetadataHashResult)
        ensures
            r.input_length == input_length,
            r.hash_bytes@ == digest@,
            r.hash_hex@ == hex_text(digest@),
            r.hash_length == digest@.len(),
    {
        let hash_hex = bytes_to_hex(digest.as_slice());
        let hash_length = digest.len();
        MetadataHashResult { input_length, hash_length, hash_bytes: digest, hash_hex }
    }
}

/// The digest of `data` with its hexadecimal text and size.
pub fn xelis_hash_detailed(engine: &mut HashEngine, data: &[u8]) -> (r: Result<DetailedHashResult, DigestError>)
    ensures
        data@.len() > BLOCK_SIZE ==> r == Err::<DetailedHashResult, DigestError>(
            DigestError::InputTooLong { len: data@.len() as usize },
        ),
        data@.len() <= BLOCK_SIZE ==> r is Ok,
        match r {
            Ok(d) => {
                &&& d.bytes@ == hash_spec(data@)
                &&& d.hex@ == hex_text(d.bytes@)
                &&& d.size == d.bytes@.len()
                &&& d.size == 32
            },
            Err(_) => data@.len() > BLOCK_SIZE,
        },
{
    let hash_bytes = match hash(engine, data) {
        Ok(h) => h,
        Err(e) => {
            return Err(e);
        },
    };
    Ok(DetailedHashResult::from_digest(hash_bytes))
}

/// The digest of `data` with its hexadecimal text, the input's length and
/// the digest's length.
pub fn hash_with_metadata(engine: &mut HashEngine, data: &[u8]) -> (r: Result<MetadataHashResult, DigestError>)
    ensures
        data@.len() > BLOCK_SIZE ==> r == Err::<MetadataHashResult, DigestError>(
            DigestError::InputTooLong { len: data@.len() as usize },
        ),
        data@.len() <= BLOCK_SIZE ==> r is Ok,
        match r {
            Ok(m) => {
                &&& m.input_length == data@.len()
                &&& m.hash_bytes@ == hash_spec(data@)
                &&& m.hash_hex@ == hex_text(m.hash_bytes@)
                &&& m.hash_length == m.hash_bytes@.len()
                &&& m.hash_length == 32
            },
            Err(_) => data@.len() > BLOCK_SIZE,
        },
{
    let hash_bytes = match hash(engine, data) {
        Ok(h) => h,
        Err(e) => {
            return Err(e);
        },
    };
    Ok(MetadataHashResult::from_digest(data.len(), hash_bytes))
}

} // verus!
