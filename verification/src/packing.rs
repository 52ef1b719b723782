use vstd::prelude::*;

verus! {

/// 32-bit words per star instance record (centre x, centre y, size, brightness,
/// speed, phase, depth, waveform).
pub const STAR_WORDS: usize = 8usize;

/// Bytes per star instance record.
pub const STAR_BYTES: usize = STAR_WORDS * 4;

/// Bytes per unit-quad vertex (two 32-bit words).
pub const QUAD_VERTEX_BYTES: u64 = 8u64;

/// Vertices of the unit quad (two triangles).
pub const QUAD_VERTICES: u32 = 6u32;

/// Bytes of the per-frame globals block: time, padding, width, height.
pub const GLOBALS_BYTES: u64 = 16u64;

/// The little-endian bytes of a 32-bit word.
pub open spec fn le_bytes(w: u32) -> Seq<u8> {
    seq![
        (w & 0xffu32) as u8,
        ((w >> 8u32) & 0xffu32) as u8,
        ((w >> 16u32) & 0xffu32) as u8,
        ((w >> 24u32) & 0xffu32) as u8,
    ]
}

/// The word that four little-endian bytes encode.
pub open spec fn word_from_le(b0: u8, b1: u8, b2: u8, b3: u8) -> u32 {
    (b0 as u32) | ((b1 as u32) << 8u32) | ((b2 as u32) << 16u32) | ((b3 as u32) << 24u32)
}

/// The words laid out one after the other, each in little-endian order.
pub open spec fn words_le(ws: Seq<u32>) -> Seq<u8>
    decreases ws.len(),
{
    if ws.len() == 0 {
        Seq::empty()
    } else {
        words_le(ws.drop_last()) + le_bytes(ws.last())
    }
}

/// Appends the four little-endian bytes of `w` to `buf`.
pub fn push_word_le(buf: &mut Vec<u8>, w: u32)
    ensures
        final(buf)@ == old(buf)@ + le_bytes(w),
{
    buf.push((w & 0xff) as u8);
    buf.push(((w >> 8) & 0xff) as u8);
    buf.push(((w >> 16) & 0xff) as u8);
    buf.push(((w >> 24) & 0xff) as u8);
    assert(buf@ =~= old(buf)@ + le_bytes(w));
}

/// Lays `words` out as bytes, each word little-endian, in order.
pub fn pack_words(words: &Vec<u32>) -> (r: Vec<u8>)
    requires
        4 * words.len() <= usize::MAX,
    ensures
        r@ == words_le(words@),
        r.len() == 4 * words.len(),
{
    let mut buf: Vec<u8> = Vec::with_capacity(words.len() * 4);
    let mut i: usize = 0;
    while i < words.len()
        invariant
            i <= words.len(),
            buf@ == words_le(words@.subrange(0, i as int)),
        decreases words.len() - i,
    {
        push_word_le(&mut buf, words[i]);
        assert(words@.subrange(0, i + 1).drop_last() =~= words@.subrange(0, i as int));
        i = i + 1;
    }
    assert(words@.subrange(0, words.len() as int) =~= words@);
    proof {
        lemma_words_le_len(words@);
    }
    buf
}

/// Size of the star instance buffer for `byte_len` bytes of records: never below one
/// record, so that the buffer exists even for an empty starfield.
pub fn instance_buffer_size(byte_len: usize) -> (r: u64)
    ensures
        r == if byte_len < STAR_BYTES { STAR_BYTES as int } else { byte_len as int },
{
    if byte_len < STAR_BYTES {
        STAR_BYTES as u64
    } else {
        byte_len as u64
    }
}

/// One vertex attribute of a star instance record: the shader location it feeds,
/// its byte offset in the record, and how many 32-bit words it spans.
#[derive(Clone, Copy, Debug, PartialEq, Eq, Structural)]
pub struct StarAttribute {
    pub location: u32,
    pub offset: u64,
    pub words: u32,
}

/// Vertex attributes per star record: the two-word centre, then size, brightness,
/// speed, phase, depth and waveform, one word each.
pub const STAR_ATTRIBUTES: usize = 7usize;

/// The `i`-th attribute of a star record: the centre at location 1, offset 0, two
/// words; every other field at location `i + 1`, offset `4 * (i + 1)`, one word.
pub open spec fn spec_star_attribute(i: int) -> StarAttribute {
    if i == 0 {
        StarAttribute { location: 1, offset: 0, words: 2 }
    } else {
        StarAttribute { location: (i + 1) as u32, offset: (4 * (i + 1)) as u64, words: 1 }
    }
}

/// The vertex attributes of a star instance record, in record order.
pub fn star_attributes() -> (r: Vec<StarAttribute>)
    ensures
        r.len() == STAR_ATTRIBUTES,
        forall|i: int| 0 <= i < STAR_ATTRIBUTES ==> r[i] == spec_star_attribute(i),
{
    let mut r: Vec<StarAttribute> = Vec::with_capacity(STAR_ATTRIBUTES);
    r.push(StarAttribute { location: 1, offset: 0, words: 2 });
    let mut k: u32 = 0;
    while k < 6
        invariant
            k <= 6,
            r.len() == k + 1,
            forall|i: int| 0 <= i < r.len() ==> r[i] == spec_star_attribute(i),
        decreases 6 - k,
    {
        r.push(StarAttribute { location: 2 + k, offset: 8 + 4 * (k as u64), words: 1 });
        k = k + 1;
    }
    r
}

/// The star attributes tile the record: the first starts at offset 0, each next one
/// starts where the previous ends, the last ends at `STAR_BYTES`, and together they
/// span the record's `STAR_WORDS` words, fed to consecutive shader locations.
pub proof fn lemma_star_attributes_tile_record()
    ensures
        spec_star_attribute(0).offset == 0,
        forall|i: int|
            0 <= i < STAR_ATTRIBUTES - 1 ==> #[trigger] spec_star_attribute(i + 1).offset
                == spec_star_attribute(i).offset + 4 * spec_star_attribute(i).words
                && spec_star_attribute(i + 1).location == spec_star_attribute(i).location + 1,
        spec_star_attribute(STAR_ATTRIBUTES - 1).offset + 4 * spec_star_attribute(
            STAR_ATTRIBUTES - 1,
        ).words == STAR_BYTES,
        STAR_WORDS == 2 + (STAR_ATTRIBUTES - 1),
{
}

/// The packed bytes are four per word.
pub proof fn lemma_words_le_len(ws: Seq<u32>)
    ensures
        words_le(ws).len() == 4 * ws.len(),
    decreases ws.len(),
{
    if ws.len() > 0 {
        lemma_words_le_len(ws.drop_last());
    }
}

/// Byte `j` of word `i` sits at offset `4 * i + j` of the packed bytes.
pub proof fn lemma_words_le_index(ws: Seq<u32>, i: int, j: int)
    requires
        0 <= i < ws.len(),
        0 <= j < 4,
    ensures
        words_le(ws)[4 * i + j] == le_bytes(ws[i])[j],
    decreases ws.len(),
{
    lemma_words_le_len(ws.drop_last());
    if i < ws.len() - 1 {
        lemma_words_le_index(ws.drop_last(), i, j);
    }
}

/// Reading a word's four little-endian bytes back gives the word.
pub proof fn lemma_le_bytes_roundtrip(w: u32)
    ensures
        word_from_le(le_bytes(w)[0], le_bytes(w)[1], le_bytes(w)[2], le_bytes(w)[3]) == w,
{
    assert(word_from_le(
        (w & 0xffu32) as u8,
        ((w >> 8u32) & 0xffu32) as u8,
        ((w >> 16u32) & 0xffu32) as u8,
        ((w >> 24u32) & 0xffu32) as u8,
    ) == w) by (bit_vector);
}

/// Every word of a packed buffer can be read back at byte offset `4 * i`: the layout
/// that the vertex shader reads, one record after the other with no gaps.
pub proof fn lemma_word_readback(ws: Seq<u32>, i: int)
    requires
        0 <= i < ws.len(),
    ensures
        word_from_le(
            words_le(ws)[4 * i],
            words_le(ws)[4 * i + 1],
            words_le(ws)[4 * i + 2],
            words_le(ws)[4 * i + 3],
        ) == ws[i],
{
    lemma_words_le_index(ws, i, 0);
    lemma_words_le_index(ws, i, 1);
    lemma_words_le_index(ws, i, 2);
    lemma_words_le_index(ws, i, 3);
    lemma_le_bytes_roundtrip(ws[i]);
}

} // verus!
