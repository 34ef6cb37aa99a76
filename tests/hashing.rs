use xelis_hash_service::{
    batch_hash, bytes_to_hex, get_hash_size, hash, hash_string, hash_with_metadata, hex_to_bytes,
    verify_hash, xelis_hash_detailed, xelis_hash_hex, xelis_hash_multiple, BatchError,
    DecodeError, DetailedHashResult, DigestError, HashEngine, MetadataHashResult, VerifyError,
};

const ZERO_BLOCK_DIGEST: &str = "0ebbbd8a31edadfe098f2d770d84b719588675ab88a0a17067d00a8f36182265";

const XELIS_INPUT_DIGEST: [u8; 32] = [
    106, 106, 173, 8, 207, 59, 118, 108, 176, 196, 9, 124, 250, 195, 3, 61, 30, 146, 238, 182, 88,
    83, 115, 81, 139, 56, 3, 28, 176, 86, 68, 21,
];

#[test]
fn empty_string_digest_is_the_zero_block_digest() {
    let mut engine = HashEngine::new();
    let first = hash_string(&mut engine, "").unwrap();
    assert_eq!(first, ZERO_BLOCK_DIGEST);
    let second = hash_string(&mut engine, "").unwrap();
    assert_eq!(first, second);
}

#[test]
fn short_input_is_padded_with_zeros() {
    let mut engine = HashEngine::new();
    let empty = hash(&mut engine, &[]).unwrap();
    let zeros = hash(&mut engine, &[0u8; 200]).unwrap();
    assert_eq!(empty, zeros);
    assert_eq!(bytes_to_hex(&empty), ZERO_BLOCK_DIGEST);
}

#[test]
fn known_input_gives_known_digest() {
    let mut engine = HashEngine::new();
    let digest = hash(&mut engine, b"xelis-hashing-algorithm").unwrap();
    assert_eq!(digest, XELIS_INPUT_DIGEST.to_vec());
    let text = hash_string(&mut engine, "xelis-hashing-algorithm").unwrap();
    assert_eq!(text, bytes_to_hex(&XELIS_INPUT_DIGEST));
}

#[test]
fn digest_does_not_depend_on_earlier_calls() {
    let mut engine = HashEngine::new();
    let first = hash(&mut engine, b"payload").unwrap();
    let _ = hash(&mut engine, b"something else entirely").unwrap();
    let second = hash(&mut engine, b"payload").unwrap();
    let mut fresh = HashEngine::new();
    let third = hash(&mut fresh, b"payload").unwrap();
    assert_eq!(first, second);
    assert_eq!(first, third);
}

#[test]
fn digests_are_thirty_two_bytes() {
    assert_eq!(get_hash_size(), 32);
    let mut engine = HashEngine::new();
    for input in [&b""[..], &b"a"[..], &[7u8; 200][..]] {
        assert_eq!(hash(&mut engine, input).unwrap().len(), 32);
        assert_eq!(xelis_hash_hex(&mut engine, input).unwrap().len(), 64);
    }
}

#[test]
fn input_longer_than_a_block_is_refused() {
    let mut engine = HashEngine::new();
    let long = vec![1u8; 201];
    assert_eq!(hash(&mut engine, &long), Err(DigestError::InputTooLong { len: 201 }));
    assert_eq!(xelis_hash_hex(&mut engine, &long), Err(DigestError::InputTooLong { len: 201 }));
    let text = "x".repeat(300);
    assert_eq!(hash_string(&mut engine, &text), Err(DigestError::InputTooLong { len: 300 }));
}

#[test]
fn hex_digest_is_the_encoded_digest() {
    let mut engine = HashEngine::new();
    let bytes = hash(&mut engine, b"abc").unwrap();
    let text = xelis_hash_hex(&mut engine, b"abc").unwrap();
    assert_eq!(text, bytes_to_hex(&bytes));
    assert_eq!(hash_string(&mut engine, "abc").unwrap(), text);
}

#[test]
fn bytes_to_hex_is_lowercase() {
    assert_eq!(bytes_to_hex(&[0xde, 0xad, 0xbe, 0xef]), "deadbeef");
    assert_eq!(bytes_to_hex(&[0x00, 0x0f, 0xa0]), "000fa0");
    assert_eq!(bytes_to_hex(&[]), "");
}

#[test]
fn hex_round_trip() {
    let all: Vec<u8> = (0..=255u8).collect();
    for data in [vec![], vec![0u8], vec![0xffu8, 0x10], all] {
        let text = bytes_to_hex(&data);
        assert_eq!(text.len(), 2 * data.len());
        assert_eq!(hex_to_bytes(&text).unwrap(), data);
    }
}

#[test]
fn hex_to_bytes_reads_either_case() {
    assert_eq!(hex_to_bytes("DEADbeef").unwrap(), vec![0xde, 0xad, 0xbe, 0xef]);
    assert_eq!(hex_to_bytes("").unwrap(), Vec::<u8>::new());
}

#[test]
fn hex_to_bytes_rejects_odd_length() {
    assert_eq!(hex_to_bytes("abc"), Err(DecodeError::OddLength));
}

#[test]
fn hex_to_bytes_rejects_bad_digit() {
    assert_eq!(hex_to_bytes("zz"), Err(DecodeError::InvalidCharacter { c: 'z', index: 0 }));
    assert_eq!(hex_to_bytes("0g"), Err(DecodeError::InvalidCharacter { c: 'g', index: 1 }));
    assert_eq!(hex_to_bytes("00 1"), Err(DecodeError::InvalidCharacter { c: ' ', index: 2 }));
}

#[test]
fn hex_to_bytes_counts_utf8_bytes() {
    // one character, two bytes: even length, so the first byte is reported
    assert_eq!(
        hex_to_bytes("\u{e9}"),
        Err(DecodeError::InvalidCharacter { c: 0xc3u8 as char, index: 0 })
    );
}

#[test]
fn verify_hash_compares_decoded_bytes() {
    assert_eq!(verify_hash("deadbeef", "deadbeef"), Ok(true));
    assert_eq!(verify_hash("deadbeef", "deadbee0"), Ok(false));
    assert_eq!(verify_hash("DEADBEEF", "deadbeef"), Ok(true));
    assert_eq!(verify_hash("", ""), Ok(true));
    assert_eq!(verify_hash("dead", "deadbeef"), Ok(false));
}

#[test]
fn verify_hash_is_reflexive_on_digests() {
    let mut engine = HashEngine::new();
    let h = xelis_hash_hex(&mut engine, b"reflexive").unwrap();
    assert_eq!(verify_hash(&h, &h), Ok(true));
}

#[test]
fn verify_hash_names_the_malformed_operand() {
    assert_eq!(verify_hash("abc", "zz"), Err(VerifyError::First(DecodeError::OddLength)));
    assert_eq!(
        verify_hash("deadbeef", "zz"),
        Err(VerifyError::Second(DecodeError::InvalidCharacter { c: 'z', index: 0 }))
    );
}

#[test]
fn zero_iterations_return_the_input() {
    let mut engine = HashEngine::new();
    let data = b"unchanged".to_vec();
    assert_eq!(xelis_hash_multiple(&mut engine, &data, 0).unwrap(), data);
    let long = vec![9u8; 500];
    assert_eq!(xelis_hash_multiple(&mut engine, &long, 0).unwrap(), long);
}

#[test]
fn three_iterations_hash_three_times() {
    let mut engine = HashEngine::new();
    let data = b"chain".to_vec();
    let once = hash(&mut engine, &data).unwrap();
    let twice = hash(&mut engine, &once).unwrap();
    let thrice = hash(&mut engine, &twice).unwrap();
    assert_eq!(xelis_hash_multiple(&mut engine, &data, 1).unwrap(), once);
    assert_eq!(xelis_hash_multiple(&mut engine, &data, 2).unwrap(), twice);
    assert_eq!(xelis_hash_multiple(&mut engine, &data, 3).unwrap(), thrice);
}

#[test]
fn chain_step_is_one_more_hash() {
    let mut engine = HashEngine::new();
    let data = b"step".to_vec();
    let four = xelis_hash_multiple(&mut engine, &data, 4).unwrap();
    let three = xelis_hash_multiple(&mut engine, &data, 3).unwrap();
    assert_eq!(four, hash(&mut engine, &three).unwrap());
}

#[test]
fn chain_on_long_input_fails() {
    let mut engine = HashEngine::new();
    let long = vec![9u8; 250];
    assert_eq!(
        xelis_hash_multiple(&mut engine, &long, 2),
        Err(DigestError::InputTooLong { len: 250 })
    );
}

#[test]
fn batch_keeps_input_order() {
    let mut engine = HashEngine::new();
    let items = vec![b"a".to_vec(), b"b".to_vec(), b"c".to_vec()];
    let expected: Vec<Vec<u8>> =
        items.iter().map(|i| hash(&mut engine, i).unwrap()).collect();
    assert_eq!(batch_hash(&mut engine, &items).unwrap(), expected);
    assert_eq!(batch_hash(&mut engine, &[]).unwrap(), Vec::<Vec<u8>>::new());
}

#[test]
fn batch_stops_at_first_failure() {
    let mut engine = HashEngine::new();
    let items = vec![b"valid".to_vec(), vec![0u8; 201], vec![1u8; 300]];
    assert_eq!(
        batch_hash(&mut engine, &items),
        Err(BatchError { index: 1, error: DigestError::InputTooLong { len: 201 } })
    );
    let first_bad = vec![vec![0u8; 256], b"valid".to_vec()];
    assert_eq!(
        batch_hash(&mut engine, &first_bad),
        Err(BatchError { index: 0, error: DigestError::InputTooLong { len: 256 } })
    );
}

#[test]
fn detailed_result_is_consistent() {
    let mut engine = HashEngine::new();
    let d = xelis_hash_detailed(&mut engine, b"xelis-hashing-algorithm").unwrap();
    assert_eq!(d.bytes, XELIS_INPUT_DIGEST.to_vec());
    assert_eq!(d.size, 32);
    assert_eq!(d.size, d.bytes.len());
    assert_eq!(d.hex, bytes_to_hex(&XELIS_INPUT_DIGEST));
    assert_eq!(
        xelis_hash_detailed(&mut engine, &[0u8; 201]),
        Err(DigestError::InputTooLong { len: 201 })
    );
}

#[test]
fn metadata_result_is_consistent() {
    let mut engine = HashEngine::new();
    let m = hash_with_metadata(&mut engine, b"").unwrap();
    assert_eq!(m.input_length, 0);
    assert_eq!(m.hash_length, 32);
    assert_eq!(m.hash_bytes.len(), 32);
    assert_eq!(m.hash_hex, ZERO_BLOCK_DIGEST);
    let m = hash_with_metadata(&mut engine, b"abcde").unwrap();
    assert_eq!(m.input_length, 5);
    assert_eq!(m.hash_bytes, hash(&mut engine, b"abcde").unwrap());
}

#[test]
fn records_package_a_given_digest() {
    let d = DetailedHashResult::from_digest(vec![0xab, 0x01]);
    assert_eq!(d.hex, "ab01");
    assert_eq!(d.size, 2);
    let m = MetadataHashResult::from_digest(7, vec![0xff]);
    assert_eq!(m.input_length, 7);
    assert_eq!(m.hash_length, 1);
    assert_eq!(m.hash_hex, "ff");
    assert_eq!(m.hash_bytes, vec![0xff]);
}

#[test]
fn chain_of_a_plus_b_is_chain_of_b_after_a() {
    let mut engine = HashEngine::new();
    let data = b"split".to_vec();
    let five = xelis_hash_multiple(&mut engine, &data, 5).unwrap();
    let two = xelis_hash_multiple(&mut engine, &data, 2).unwrap();
    assert_eq!(xelis_hash_multiple(&mut engine, &two, 3).unwrap(), five);
}

#[test]
fn batch_of_joined_lists_is_joined_batches() {
    let mut engine = HashEngine::new();
    let a = vec![b"x".to_vec(), vec![5u8; 200]];
    let b = vec![b"".to_vec()];
    let mut joined = a.clone();
    joined.extend(b.iter().cloned());
    let mut expected = batch_hash(&mut engine, &a).unwrap();
    expected.extend(batch_hash(&mut engine, &b).unwrap());
    assert_eq!(batch_hash(&mut engine, &joined).unwrap(), expected);
}

#[test]
fn records_agree_with_plain_hash() {
    let mut engine = HashEngine::new();
    let plain = hash(&mut engine, b"agree").unwrap();
    let d = xelis_hash_detailed(&mut engine, b"agree").unwrap();
    let m = hash_with_metadata(&mut engine, b"agree").unwrap();
    assert_eq!(d.bytes, plain);
    assert_eq!(m.hash_bytes, d.bytes);
    assert_eq!(m.hash_hex, d.hex);
    assert_eq!(hex_to_bytes(&d.hex).unwrap(), plain);
}
