use hdrview::bytes::{decode_u16_le, encode_u32_le};
use hdrview::glyphs::glyph_index_for_char;
use hdrview::text_overlay::{
    text_block_size, TextBuffer, GLYPH_ADVANCE, MAX_TEXT_CHARS, TEXT_BUFFER_BYTES,
};

fn word(bytes: &[u8], k: usize) -> u32 {
    u32::from_le_bytes([bytes[4 * k], bytes[4 * k + 1], bytes[4 * k + 2], bytes[4 * k + 3]])
}

#[test]
fn text_block_is_ninety_six_advances_wide() {
    assert_eq!(GLYPH_ADVANCE, 14);
    assert_eq!(text_block_size(), (1344, 14));
}

#[test]
fn blank_buffer_shows_nothing() {
    let b = TextBuffer::blank();
    assert_eq!(b.text_len(), 0);
    for i in 0..MAX_TEXT_CHARS {
        assert_eq!(b.glyph_index(i), 0);
    }
    let bytes = b.to_bytes();
    assert_eq!(bytes.len(), TEXT_BUFFER_BYTES);
    assert!(bytes.iter().all(|&x| x == 0));
}

#[test]
fn text_maps_to_glyph_indices() {
    let b = TextBuffer::from_text("RGB: (0.00, 0.00, 0.00)");
    assert_eq!(b.text_len(), 23);
    assert_eq!(b.glyph_index(0), glyph_index_for_char('R'));
    assert_eq!(b.glyph_index(0), 35);
    assert_eq!(b.glyph_index(3), 2);
    assert_eq!(b.glyph_index(4), 0);
    assert_eq!(b.glyph_index(5), 4);
    assert_eq!(b.glyph_index(22), 5);
    assert_eq!(b.glyph_index(23), 0);
    assert_eq!(b.glyph_index(95), 0);
}

#[test]
fn lower_case_text_shows_upper_case_glyphs() {
    let lower = TextBuffer::from_text("exp 1.00 tm aces");
    let upper = TextBuffer::from_text("EXP 1.00 TM ACES");
    assert_eq!(lower.to_bytes(), upper.to_bytes());
}

#[test]
fn long_text_is_cut_at_ninety_six_characters() {
    let text: String = std::iter::repeat("AB").take(60).collect();
    let b = TextBuffer::from_text(&text);
    assert_eq!(b.text_len(), 96);
    assert_eq!(b.glyph_index(94), glyph_index_for_char('A'));
    assert_eq!(b.glyph_index(95), glyph_index_for_char('B'));
}

#[test]
fn multibyte_characters_count_once() {
    let b = TextBuffer::from_text("é1");
    assert_eq!(b.text_len(), 2);
    assert_eq!(b.glyph_index(0), 0);
    assert_eq!(b.glyph_index(1), 9);
}

#[test]
fn packed_buffer_layout() {
    let b = TextBuffer::from_text("HI");
    let bytes = b.to_bytes();
    assert_eq!(bytes.len(), 416);
    assert_eq!(word(&bytes, 0), 2);
    assert_eq!(word(&bytes, 1), 0);
    assert_eq!(word(&bytes, 2), 0);
    assert_eq!(word(&bytes, 3), 0);
    assert_eq!(word(&bytes, 4), glyph_index_for_char('H'));
    assert_eq!(word(&bytes, 5), glyph_index_for_char('I'));
    for k in 6..104 {
        assert_eq!(word(&bytes, k), 0);
    }
}

#[test]
fn words_are_packed_little_endian() {
    assert_eq!(encode_u32_le(&vec![0x0102_0304, 0xdead_beef]), vec![4, 3, 2, 1, 0xef, 0xbe, 0xad, 0xde]);
    assert_eq!(encode_u32_le(&vec![]), Vec::<u8>::new());
}

#[test]
fn samples_are_read_little_endian() {
    assert_eq!(decode_u16_le(&[0x34, 0x12, 0xff, 0x00, 0x7f]), vec![0x1234, 0x00ff]);
    assert_eq!(decode_u16_le(&[]), Vec::<u16>::new());
}

#[test]
fn packed_words_read_back() {
    let b = TextBuffer::from_text("PEAK 1.25");
    let bytes = b.to_bytes();
    assert_eq!(word(&bytes, 0), b.text_len());
    for i in 0..MAX_TEXT_CHARS {
        assert_eq!(word(&bytes, 4 + i), b.glyph_index(i));
    }
}
