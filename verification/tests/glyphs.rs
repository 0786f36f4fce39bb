use hdrview::glyphs::{
    build_glyph_atlas_pixels, glyph_charset_chars, glyph_index_for_char, glyph_row_5x7,
    to_ascii_upper, ATLAS_H, ATLAS_W, GLYPH_COUNT, SPACE_GLYPH_INDEX,
};

#[test]
fn upper_casing_changes_only_ascii_lowercase() {
    assert_eq!(to_ascii_upper('a'), 'A');
    assert_eq!(to_ascii_upper('z'), 'Z');
    assert_eq!(to_ascii_upper('Q'), 'Q');
    assert_eq!(to_ascii_upper('1'), '1');
    assert_eq!(to_ascii_upper('é'), 'é');
    assert_eq!(to_ascii_upper('{'), '{');
}

#[test]
fn glyph_indices_follow_the_charset() {
    assert_eq!(glyph_index_for_char(' '), 0);
    assert_eq!(glyph_index_for_char('.'), 1);
    assert_eq!(glyph_index_for_char('+'), 7);
    assert_eq!(glyph_index_for_char('0'), 8);
    assert_eq!(glyph_index_for_char('9'), 17);
    assert_eq!(glyph_index_for_char('A'), 18);
    assert_eq!(glyph_index_for_char('Z'), 43);
}

#[test]
fn glyph_indices_ignore_case() {
    for (lower, upper) in ('a'..='z').zip('A'..='Z') {
        assert_eq!(glyph_index_for_char(lower), glyph_index_for_char(upper));
    }
}

#[test]
fn unknown_characters_draw_as_space() {
    for ch in ['#', '!', '/', 'é', '\n', '\u{1F600}'] {
        assert_eq!(glyph_index_for_char(ch), SPACE_GLYPH_INDEX);
    }
}

#[test]
fn every_charset_character_maps_back_to_its_index() {
    let charset = glyph_charset_chars();
    assert_eq!(charset.len(), GLYPH_COUNT as usize);
    for (i, ch) in charset.iter().enumerate() {
        assert_eq!(glyph_index_for_char(*ch), i as u32);
    }
}

#[test]
fn glyph_rows_match_the_font() {
    assert_eq!(glyph_row_5x7('A', 0), 0b01110);
    assert_eq!(glyph_row_5x7('A', 3), 0b11111);
    assert_eq!(glyph_row_5x7('a', 3), 0b11111);
    assert_eq!(glyph_row_5x7('0', 2), 0b10011);
    assert_eq!(glyph_row_5x7('.', 6), 0b00100);
    assert_eq!(glyph_row_5x7('Q', 6), 0b01101);
    assert_eq!(glyph_row_5x7('-', 3), 0b11111);
}

#[test]
fn blank_glyphs_have_no_rows() {
    assert_eq!(glyph_row_5x7(' ', 0), 0);
    assert_eq!(glyph_row_5x7(' ', 20), 0);
    assert_eq!(glyph_row_5x7('#', 3), 0);
    assert_eq!(glyph_row_5x7('#', 100), 0);
}

#[test]
fn glyph_rows_fit_in_five_bits() {
    for ch in glyph_charset_chars() {
        for row in 0..7 {
            assert!(glyph_row_5x7(ch, row) < 32);
        }
    }
}

#[test]
fn atlas_has_three_rows_of_sixteen_cells() {
    let (pixels, w, h) = build_glyph_atlas_pixels();
    assert_eq!((w, h), (80, 21));
    assert_eq!((ATLAS_W, ATLAS_H), (80, 21));
    assert_eq!(pixels.len(), 80 * 21);
}

#[test]
fn atlas_pixels_are_the_glyph_bits() {
    let (pixels, w, _h) = build_glyph_atlas_pixels();
    let charset = glyph_charset_chars();
    for (g, ch) in charset.iter().enumerate() {
        let base_x = (g as u32 % 16) * 5;
        let base_y = (g as u32 / 16) * 7;
        for row in 0..7u32 {
            let bits = glyph_row_5x7(*ch, row as usize);
            for col in 0..5u32 {
                let lit = (bits >> (4 - col)) & 1 == 1;
                let idx = ((base_y + row) * w + base_x + col) as usize;
                assert_eq!(pixels[idx], if lit { 255 } else { 0 });
            }
        }
    }
}

#[test]
fn atlas_example_pixels() {
    let (pixels, _w, _h) = build_glyph_atlas_pixels();
    // The full stop is glyph 1: its only lit pixel is the middle of its bottom row.
    assert_eq!(pixels[6 * 80 + 5 + 2], 255);
    assert_eq!(pixels[6 * 80 + 5 + 1], 0);
    assert_eq!(pixels[5 * 80 + 5 + 2], 0);
    // The space (glyph 0) is blank.
    for y in 0..7 {
        for x in 0..5 {
            assert_eq!(pixels[y * 80 + x], 0);
        }
    }
    // 'A' is glyph 18: cell (2, 1); its top row is .###.
    let top = 7 * 80 + 2 * 5;
    assert_eq!(&pixels[top..top + 5], &[0, 255, 255, 255, 0]);
}

#[test]
fn atlas_cells_past_the_last_glyph_are_blank() {
    let (pixels, _w, _h) = build_glyph_atlas_pixels();
    // Glyphs 44 to 47 would occupy columns 12 to 15 of the third cell row.
    for y in 14..21 {
        for x in 60..80 {
            assert_eq!(pixels[y * 80 + x], 0);
        }
    }
}

#[test]
fn every_glyph_but_space_has_ink() {
    for ch in glyph_charset_chars() {
        let ink = (0..7).any(|row| glyph_row_5x7(ch, row) != 0);
        assert_eq!(ink, ch != ' ', "glyph {:?}", ch);
    }
}

#[test]
fn no_two_glyphs_look_alike() {
    let charset = glyph_charset_chars();
    let rows = |ch: char| -> Vec<u8> { (0..7).map(|r| glyph_row_5x7(ch, r)).collect() };
    for (i, a) in charset.iter().enumerate() {
        for b in charset.iter().skip(i + 1) {
            assert_ne!(rows(*a), rows(*b), "{:?} and {:?}", a, b);
        }
    }
    assert_ne!(rows('0'), rows('O'));
    assert_ne!(rows('5'), rows('S'));
    assert_ne!(rows('E'), rows('F'));
}
