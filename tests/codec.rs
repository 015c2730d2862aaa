use vector_gpt::database::{
    calc_data_size, convert_binary_to_embeddings, convert_embeddings_to_binary, CodecError,
};

fn bits(v: &[f32]) -> Vec<u32> {
    v.iter().map(|x| x.to_bits()).collect()
}

#[test]
fn encode_writes_little_endian_words() {
    let bytes = convert_embeddings_to_binary(&bits(&[1.0, -2.5]));
    assert_eq!(bytes, vec![0x00, 0x00, 0x80, 0x3f, 0x00, 0x00, 0x20, 0xc0]);
}

#[test]
fn encode_empty_is_empty() {
    assert!(convert_embeddings_to_binary(&[]).is_empty());
}

#[test]
fn round_trip_keeps_finite_values() {
    let v = vec![0.1f32, 0.2, 0.3, -1.5e-7, 3.4e38, 0.0, -0.0];
    let bytes = convert_embeddings_to_binary(&bits(&v));
    assert_eq!(bytes.len(), 4 * v.len());
    let back: Vec<f32> = convert_binary_to_embeddings(&bytes)
        .unwrap()
        .into_iter()
        .map(f32::from_bits)
        .collect();
    assert_eq!(back, v);
    assert!(back[6].is_sign_negative());
}

#[test]
fn round_trip_keeps_nan_and_infinity_bits() {
    let words = vec![0x7fc0_0001u32, 0xffc0_1234, f32::INFINITY.to_bits(), f32::NEG_INFINITY.to_bits()];
    let bytes = convert_embeddings_to_binary(&words);
    assert_eq!(convert_binary_to_embeddings(&bytes).unwrap(), words);
}

#[test]
fn decode_reads_little_endian_words() {
    let v = convert_binary_to_embeddings(&[0x00, 0x00, 0x80, 0x3f]).unwrap();
    assert_eq!(v, vec![1.0f32.to_bits()]);
}

#[test]
fn decode_three_bytes_is_truncated() {
    assert_eq!(convert_binary_to_embeddings(&[0x00, 0x00, 0x80]), Err(CodecError::TruncatedInput));
}

#[test]
fn decode_trailing_partial_chunk_is_truncated() {
    let r = convert_binary_to_embeddings(&[0, 0, 0x80, 0x3f, 1]);
    assert_eq!(r, Err(CodecError::TruncatedInput));
}

#[test]
fn decode_empty_is_empty() {
    assert_eq!(convert_binary_to_embeddings(&[]), Ok(vec![]));
}

#[test]
fn data_size_in_kilobytes() {
    assert_eq!(calc_data_size(&vec![0u32; 1536]), 6);
    assert_eq!(calc_data_size(&vec![0u32; 244]), 1);
    assert_eq!(calc_data_size(&vec![0u32; 243]), 0);
    assert_eq!(calc_data_size(&[]), 0);
}
