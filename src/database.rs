//! Binary codec for embeddings.
//!
//! An embedding element is an IEEE-754 binary32 value, held here as its bit
//! pattern (`f32::to_bits`), so that every value, NaN payloads included,
//! survives a round trip bit for bit.

use vstd::prelude::*;

verus! {

/// Why a byte buffer could not be read as an embedding.
#[derive(Debug, Clone, Copy, PartialEq, Eq, Structural)]
pub enum CodecError {
    /// The buffer's length is not a multiple of four.
    TruncatedInput,
}

/// Byte `k` (0 = least significant) of `x`.
pub open spec fn le_byte(x: u32, k: int) -> u8 {
    if k == 0 {
        (x & 0xff) as u8
    } else if k == 1 {
        ((x >> 8u32) & 0xff) as u8
    } else if k == 2 {
        ((x >> 16u32) & 0xff) as u8
    } else {
        (x >> 24u32) as u8
    }
}

/// The word whose little-endian bytes are `b0, b1, b2, b3`.
pub open spec fn le_word(b0: u8, b1: u8, b2: u8, b3: u8) -> u32 {
    (b0 as u32) | ((b1 as u32) << 8u32) | ((b2 as u32) << 16u32) | ((b3 as u32) << 24u32)
}

/// Each element written as four little-endian bytes, in input order.
pub open spec fn encoding(v: Seq<u32>) -> Seq<u8> {
    Seq::new(4 * v.len(), |j: int| le_byte(v[j / 4], j % 4))
}

/// Each group of four bytes read as one little-endian element.
pub open spec fn decoding(b: Seq<u8>) -> Seq<u32> {
    Seq::new(b.len() / 4, |i: int| le_word(b[4 * i], b[4 * i + 1], b[4 * i + 2], b[4 * i + 3]))
}

proof fn lemma_word_of_bytes(x: u32)
    ensures
        le_word(le_byte(x, 0), le_byte(x, 1), le_byte(x, 2), le_byte(x, 3)) == x,
{
    assert(((x & 0xff) as u8 as u32) | ((((x >> 8u32) & 0xff) as u8 as u32) << 8u32) | ((((x
        >> 16u32) & 0xff) as u8 as u32) << 16u32) | (((x >> 24u32) as u8 as u32) << 24u32) == x)
        by (bit_vector);
}

/// Decoding an encoded embedding gives back the same bit patterns, hence the
/// same values.
pub proof fn lemma_round_trip(v: Seq<u32>)
    ensures
        decoding(encoding(v)) == v,
{
    let e = encoding(v);
    assert forall|i: int| 0 <= i < v.len() implies #[trigger] decoding(e)[i] == v[i] by {
        assert((4 * i) / 4 == i && (4 * i) % 4 == 0);
        assert((4 * i + 1) / 4 == i && (4 * i + 1) % 4 == 1);
        assert((4 * i + 2) / 4 == i && (4 * i + 2) % 4 == 2);
        assert((4 * i + 3) / 4 == i && (4 * i + 3) % 4 == 3);
        lemma_word_of_bytes(v[i]);
    }
    assert(decoding(e) =~= v);
}

/// Writes each element as four little-endian bytes, in order, with no
/// padding and no length prefix.
pub fn convert_embeddings_to_binary(embeddings: &[u32]) -> (bytes: Vec<u8>)
    ensures
        bytes@ == encoding(embeddings@),
{
    let mut bytes: Vec<u8> = Vec::new();
    let mut i: usize = 0;
    while i < embeddings.len()
        invariant
            i <= embeddings@.len(),
            bytes@.len() == 4 * i,
            forall|j: int| 0 <= j < 4 * i ==> #[trigger] bytes@[j] == le_byte(embeddings@[j / 4], j % 4),
        decreases embeddings@.len() - i,
    {
        let x: u32 = embeddings[i];
        bytes.push((x & 0xff) as u8);
        bytes.push(((x >> 8u32) & 0xff) as u8);
        bytes.push(((x >> 16u32) & 0xff) as u8);
        bytes.push((x >> 24u32) as u8);
        assert forall|j: int| 4 * i <= j < 4 * i + 4 implies #[trigger] bytes@[j] == le_byte(
            embeddings@[j / 4],
            j % 4,
        ) by {
            assert(j / 4 == i as int);
        }
        i = i + 1;
    }
    assert(bytes@ =~= encoding(embeddings@));
    bytes
}

/// Reads a buffer as consecutive little-endian four-byte elements; a buffer
/// whose length is not a multiple of four is rejected.
pub fn convert_binary_to_embeddings(binary_data: &[u8]) -> (r: Result<Vec<u32>, CodecError>)
    ensures
        match r {
            Ok(v) => binary_data@.len() % 4 == 0 && v@ == decoding(binary_data@),
            Err(e) => binary_data@.len() % 4 != 0 && e == CodecError::TruncatedInput,
        },
{
    let n = binary_data.len();
    if n % 4 != 0 {
        return Err(CodecError::TruncatedInput);
    }
    let mut embeddings: Vec<u32> = Vec::new();
    let mut i: usize = 0;
    while i < n / 4
        invariant
            n == binary_data@.len(),
            n % 4 == 0,
            i <= n / 4,
            embeddings@ =~= decoding(binary_data@).subrange(0, i as int),
        decreases n / 4 - i,
    {
        let k: usize = 4 * i;
        let word: u32 = (binary_data[k] as u32) | ((binary_data[k + 1] as u32) << 8u32) | ((
        binary_data[k + 2] as u32) << 16u32) | ((binary_data[k + 3] as u32) << 24u32);
        embeddings.push(word);
        i = i + 1;
    }
    Ok(embeddings)
}

/// Size in kilobytes (of 1000 bytes) of an embedding stored as four bytes
/// per element after a 24-byte header, rounded down.
pub fn calc_data_size(embedding: &[u32]) -> (kb: usize)
    ensures
        kb == (4 * embedding@.len() + 24) / 1000,
{
    let n = embedding.len();
    let q = n / 250;
    let rem = n % 250;
    assert((4 * (n as int) + 24) / 1000 == q + (rem + 6) / 250) by (nonlinear_arith)
        requires
            q == n as int / 250,
            rem == n as int % 250,
            n >= 0,
    {
        assert(n as int == 250 * q + rem);
        assert(4 * (n as int) + 24 == 1000 * q + 4 * (rem + 6));
    }
    q + (rem + 6) / 250
}

} // verus!
