use livestar::packing::{
    instance_buffer_size, pack_words, push_word_le, star_attributes, StarAttribute, STAR_ATTRIBUTES,
    STAR_BYTES, STAR_WORDS,
};

#[test]
fn word_is_little_endian() {
    let mut buf = vec![9u8];
    push_word_le(&mut buf, 0x0102_0304);
    assert_eq!(buf, vec![9, 4, 3, 2, 1]);
}

#[test]
fn float_bits_pack_as_le_bytes() {
    let mut buf = Vec::new();
    push_word_le(&mut buf, 1.5f32.to_bits());
    assert_eq!(buf, 1.5f32.to_le_bytes().to_vec());
}

#[test]
fn words_pack_in_order() {
    let words = vec![0xAABB_CCDD, 0, 0xFFFF_FFFF, 1];
    let bytes = pack_words(&words);
    assert_eq!(
        bytes,
        vec![0xDD, 0xCC, 0xBB, 0xAA, 0, 0, 0, 0, 0xFF, 0xFF, 0xFF, 0xFF, 1, 0, 0, 0]
    );
    for (i, w) in words.iter().enumerate() {
        let back = u32::from_le_bytes([bytes[4 * i], bytes[4 * i + 1], bytes[4 * i + 2], bytes[4 * i + 3]]);
        assert_eq!(back, *w);
    }
}

#[test]
fn empty_pack() {
    assert!(pack_words(&Vec::new()).is_empty());
}

#[test]
fn star_record_is_32_bytes() {
    assert_eq!(STAR_BYTES, STAR_WORDS * 4);
    let record: Vec<u32> = (0..STAR_WORDS as u32).collect();
    assert_eq!(pack_words(&record).len(), STAR_BYTES);
}

#[test]
fn instance_buffer_never_smaller_than_one_record() {
    assert_eq!(instance_buffer_size(0), 32);
    assert_eq!(instance_buffer_size(31), 32);
    assert_eq!(instance_buffer_size(32), 32);
    assert_eq!(instance_buffer_size(64), 64);
    assert_eq!(instance_buffer_size(1500 * 32), 48000);
}

#[test]
fn star_attributes_tile_the_record() {
    let attrs = star_attributes();
    assert_eq!(attrs.len(), STAR_ATTRIBUTES);
    assert_eq!(attrs[0], StarAttribute { location: 1, offset: 0, words: 2 });
    let offsets: Vec<u64> = attrs.iter().map(|a| a.offset).collect();
    assert_eq!(offsets, vec![0, 8, 12, 16, 20, 24, 28]);
    let locations: Vec<u32> = attrs.iter().map(|a| a.location).collect();
    assert_eq!(locations, vec![1, 2, 3, 4, 5, 6, 7]);
    let last = attrs[STAR_ATTRIBUTES - 1];
    assert_eq!(last.offset as usize + 4 * last.words as usize, STAR_BYTES);
}
