//! Hashing service around the XelisHash memory-hard digest: one reusable
//! scratch pad per worker, iterated and batched hashing, hexadecimal
//! encoding and result records, each with a verified contract.


pub mod batch;
pub mod chain;
pub mod codec;
pub mod engine;
pub mod records;

pub use batch::{batch_hash, BatchError};
pub use chain::xelis_hash_multiple;
pub use codec::{bytes_to_hex, get_hash_size, hex_to_bytes, verify_hash, DecodeError, VerifyError};
pub use engine::{hash, hash_string, xelis_hash_hex, DigestError, HashEngine};
pub use records::{hash_with_metadata, xelis_hash_detailed, DetailedHashResult, MetadataHashResult};
