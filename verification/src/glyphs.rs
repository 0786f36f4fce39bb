//! The built-in 5x7 bitmap font: its character set, the rows of each glyph,
//! and the atlas texture that packs every glyph into one 8-bit image.
use vstd::prelude::*;

verus! {

/// Width of one glyph, in atlas pixels.
pub const GLYPH_W: u32 = 5;

/// Height of one glyph, in atlas pixels.
pub const GLYPH_H: u32 = 7;

/// Number of glyph cells per row of the atlas.
pub const ATLAS_COLUMNS: u32 = 16;

/// Number of glyphs in the font.
pub const GLYPH_COUNT: u32 = 44;

/// Glyph index used for the space character, and for every character the font lacks.
pub const SPACE_GLYPH_INDEX: u32 = 0;

/// Width of the atlas image, in pixels.
pub const ATLAS_W: u32 = 80;

/// Height of the atlas image, in pixels (three rows of glyph cells).
pub const ATLAS_H: u32 = 21;

/// Value of a lit atlas pixel.
pub const LIT: u8 = 255;

/// The characters of the font, in glyph-index order.
pub open spec fn glyph_charset() -> Seq<char> {
    seq![' ', '.', ':', ',', '(', ')', '-', '+', '0', '1', '2', '3', '4', '5', '6', '7', '8', '9', 'A', 'B', 'C', 'D', 'E', 'F', 'G', 'H', 'I', 'J', 'K', 'L', 'M', 'N', 'O', 'P', 'Q', 'R', 'S', 'T', 'U', 'V', 'W', 'X', 'Y', 'Z']
}

/// ASCII upper-casing: `a`..`z` become `A`..`Z`, every other character is kept.
pub open spec fn ascii_upper(c: char) -> char {
    if 'a' <= c && c <= 'z' {
        ((c as u32) - 32) as char
    } else {
        c
    }
}

/// The seven rows of a glyph's bitmap, most significant of the five bits on the left;
/// `None` for the space and for characters outside the font (both are drawn blank).
pub open spec fn glyph_bitmap(c: char) -> Option<Seq<u8>> {
    match c {
        '.' => Some(seq![0u8, 0, 0, 0, 0, 0, 0b00100]),
        ':' => Some(seq![0u8, 0, 0b00100, 0, 0b00100, 0, 0]),
        ',' => Some(seq![0u8, 0, 0, 0, 0, 0b00100, 0b01000]),
        '(' => Some(seq![0b00010u8, 0b00100, 0b01000, 0b01000, 0b01000, 0b00100, 0b00010]),
        ')' => Some(seq![0b01000u8, 0b00100, 0b00010, 0b00010, 0b00010, 0b00100, 0b01000]),
        '-' => Some(seq![0u8, 0, 0, 0b11111, 0, 0, 0]),
        '+' => Some(seq![0u8, 0b00100, 0b00100, 0b11111, 0b00100, 0b00100, 0]),
        '0' => Some(seq![0b01110u8, 0b10001, 0b10011, 0b10101, 0b11001, 0b10001, 0b01110]),
        '1' => Some(seq![0b00100u8, 0b01100, 0b00100, 0b00100, 0b00100, 0b00100, 0b01110]),
        '2' => Some(seq![0b11110u8, 0b00001, 0b00001, 0b11110, 0b10000, 0b10000, 0b11111]),
        '3' => Some(seq![0b11110u8, 0b00001, 0b00001, 0b01110, 0b00001, 0b00001, 0b11110]),
        '4' => Some(seq![0b10010u8, 0b10010, 0b10010, 0b11111, 0b00010, 0b00010, 0b00010]),
        '5' => Some(seq![0b11111u8, 0b10000, 0b10000, 0b11110, 0b00001, 0b00001, 0b11110]),
        '6' => Some(seq![0b01110u8, 0b10000, 0b10000, 0b11110, 0b10001, 0b10001, 0b01110]),
        '7' => Some(seq![0b11111u8, 0b00001, 0b00010, 0b00100, 0b01000, 0b01000, 0b01000]),
        '8' => Some(seq![0b01110u8, 0b10001, 0b10001, 0b01110, 0b10001, 0b10001, 0b01110]),
        '9' => Some(seq![0b01110u8, 0b10001, 0b10001, 0b01111, 0b00001, 0b00001, 0b01110]),
        'A' => Some(seq![0b01110u8, 0b10001, 0b10001, 0b11111, 0b10001, 0b10001, 0b10001]),
        'B' => Some(seq![0b11110u8, 0b10001, 0b10001, 0b11110, 0b10001, 0b10001, 0b11110]),
        'C' => Some(seq![0b01111u8, 0b10000, 0b10000, 0b10000, 0b10000, 0b10000, 0b01111]),
        'D' => Some(seq![0b11110u8, 0b10001, 0b10001, 0b10001, 0b10001, 0b10001, 0b11110]),
        'E' => Some(seq![0b11111u8, 0b10000, 0b10000, 0b11110, 0b10000, 0b10000, 0b11111]),
        'F' => Some(seq![0b11111u8, 0b10000, 0b10000, 0b11110, 0b10000, 0b10000, 0b10000]),
        'G' => Some(seq![0b01110u8, 0b10001, 0b10000, 0b10111, 0b10001, 0b10001, 0b01111]),
        'H' => Some(seq![0b10001u8, 0b10001, 0b10001, 0b11111, 0b10001, 0b10001, 0b10001]),
        'I' => Some(seq![0b01110u8, 0b00100, 0b00100, 0b00100, 0b00100, 0b00100, 0b01110]),
        'J' => Some(seq![0b00001u8, 0b00001, 0b00001, 0b00001, 0b10001, 0b10001, 0b01110]),
        'K' => Some(seq![0b10001u8, 0b10010, 0b10100, 0b11000, 0b10100, 0b10010, 0b10001]),
        'L' => Some(seq![0b10000u8, 0b10000, 0b10000, 0b10000, 0b10000, 0b10000, 0b11111]),
        'M' => Some(seq![0b10001u8, 0b11011, 0b10101, 0b10101, 0b10001, 0b10001, 0b10001]),
        'N' => Some(seq![0b10001u8, 0b10001, 0b11001, 0b10101, 0b10011, 0b10001, 0b10001]),
        'O' => Some(seq![0b01110u8, 0b10001, 0b10001, 0b10001, 0b10001, 0b10001, 0b01110]),
        'P' => Some(seq![0b11110u8, 0b10001, 0b10001, 0b11110, 0b10000, 0b10000, 0b10000]),
        'Q' => Some(seq![0b01110u8, 0b10001, 0b10001, 0b10001, 0b10101, 0b10010, 0b01101]),
        'R' => Some(seq![0b11110u8, 0b10001, 0b10001, 0b11110, 0b10100, 0b10010, 0b10001]),
        'S' => Some(seq![0b01111u8, 0b10000, 0b10000, 0b01110, 0b00001, 0b00001, 0b11110]),
        'T' => Some(seq![0b11111u8, 0b00100, 0b00100, 0b00100, 0b00100, 0b00100, 0b00100]),
        'U' => Some(seq![0b10001u8, 0b10001, 0b10001, 0b10001, 0b10001, 0b10001, 0b01110]),
        'V' => Some(seq![0b10001u8, 0b10001, 0b10001, 0b10001, 0b10001, 0b01010, 0b00100]),
        'W' => Some(seq![0b10001u8, 0b10001, 0b10001, 0b10101, 0b10101, 0b10101, 0b01010]),
        'X' => Some(seq![0b10001u8, 0b10001, 0b01010, 0b00100, 0b01010, 0b10001, 0b10001]),
        'Y' => Some(seq![0b10001u8, 0b10001, 0b01010, 0b00100, 0b00100, 0b00100, 0b00100]),
        'Z' => Some(seq![0b11111u8, 0b00001, 0b00010, 0b00100, 0b01000, 0b10000, 0b11111]),
        _ => None,
    }
}

/// The bits of row `row` of the glyph drawn for `ch` (upper-cased first).
pub open spec fn glyph_row_bits(ch: char, row: int) -> u8 {
    match glyph_bitmap(ascii_upper(ch)) {
        Some(rows) => rows[row],
        None => 0,
    }
}

/// Whether column `col` (0 = leftmost) is set in a row of five bits.
pub open spec fn glyph_bit(bits: u8, col: u32) -> bool {
    (bits >> ((GLYPH_W - 1 - col) as u32)) & 1u8 != 0
}

/// The value of atlas pixel `p` (row-major, `ATLAS_W` pixels per row): lit when it
/// lies in the cell of a glyph of the font and the matching bit of that glyph is set.
pub open spec fn atlas_pixel(p: int) -> u8 {
    let x = p % (ATLAS_W as int);
    let y = p / (ATLAS_W as int);
    let g = (y / (GLYPH_H as int)) * (ATLAS_COLUMNS as int) + x / (GLYPH_W as int);
    if g < GLYPH_COUNT && glyph_bit(
        glyph_row_bits(glyph_charset()[g], y % (GLYPH_H as int)),
        (x % (GLYPH_W as int)) as u32,
    ) {
        LIT
    } else {
        0
    }
}

/// Upper-cases an ASCII letter; leaves every other character as it is.
pub fn to_ascii_upper(c: char) -> (r: char)
    ensures
        r == ascii_upper(c),
{
    if 'a' <= c && c <= 'z' {
        let code: u32 = c as u32;
        let upper: u8 = (code - 32) as u8;
        upper as char
    } else {
        c
    }
}

/// The characters of the font, in glyph-index order.
pub fn glyph_charset_chars() -> (r: [char; 44])
    ensures
        r@ == glyph_charset(),
{
    let r: [char; 44] = [' ', '.', ':', ',', '(', ')', '-', '+', '0', '1', '2', '3', '4', '5', '6', '7', '8', '9', 'A', 'B', 'C', 'D', 'E', 'F', 'G', 'H', 'I', 'J', 'K', 'L', 'M', 'N', 'O', 'P', 'Q', 'R', 'S', 'T', 'U', 'V', 'W', 'X', 'Y', 'Z'];
    assert(r@ =~= glyph_charset());
    r
}

/// Index of the glyph that draws `ch`: the first position of its upper-case form in
/// the character set, or the space glyph when the font lacks it.
pub open spec fn glyph_index_of(ch: char) -> u32 {
    match glyph_charset().index_of_first(ascii_upper(ch)) {
        Some(i) => i as u32,
        None => SPACE_GLYPH_INDEX,
    }
}

/// Index of the glyph that draws `ch`: the position of its upper-case form in the
/// character set, or the space glyph when the font lacks it.
pub fn glyph_index_for_char(ch: char) -> (r: u32)
    ensures
        r == glyph_index_of(ch),
        r < GLYPH_COUNT,
{
    let upper = to_ascii_upper(ch);
    let charset = glyph_charset_chars();
    proof {
        glyph_charset().index_of_first_ensures(upper);
    }
    let mut i: usize = 0;
    while i < 44
        invariant
            0 <= i <= 44,
            charset@ == glyph_charset(),
            upper == ascii_upper(ch),
            forall|j: int| 0 <= j < i ==> glyph_charset()[j] != upper,
            match glyph_charset().index_of_first(upper) {
                Some(index) => {
                    &&& glyph_charset().contains(upper)
                    &&& 0 <= index < glyph_charset().len()
                    &&& glyph_charset()[index] == upper
                    &&& forall|j: int| 0 <= j < index < glyph_charset().len() ==> glyph_charset()[j] != upper
                },
                None => !glyph_charset().contains(upper),
            },
        decreases 44 - i,
    {
        if charset[i] == upper {
            assert(glyph_charset().contains(upper));
            return i as u32;
        }
        i = i + 1;
    }
    assert(!glyph_charset().contains(upper));
    SPACE_GLYPH_INDEX
}

/// Row `row` of the 5x7 bitmap of the glyph for `ch` (upper-cased first); blank
/// rows for the space and for characters outside the font.
pub fn glyph_row_5x7(ch: char, row: usize) -> (r: u8)
    requires
        glyph_bitmap(ascii_upper(ch)) is Some ==> row < GLYPH_H,
    ensures
        r == glyph_row_bits(ch, row as int),
        row < GLYPH_H ==> r as int == row_value(glyph_picture(ascii_upper(ch))[row as int]),
{
    proof {
        if row < GLYPH_H {
            lemma_glyph_pictures(ch, row as int);
        }
    }
    let c = to_ascii_upper(ch);
    match c {
        ' ' => 0,
            '.' => [0u8, 0, 0, 0, 0, 0, 0b00100][row],
            ':' => [0u8, 0, 0b00100, 0, 0b00100, 0, 0][row],
            ',' => [0u8, 0, 0, 0, 0, 0b00100, 0b01000][row],
            '(' => [0b00010u8, 0b00100, 0b01000, 0b01000, 0b01000, 0b00100, 0b00010][row],
            ')' => [0b01000u8, 0b00100, 0b00010, 0b00010, 0b00010, 0b00100, 0b01000][row],
            '-' => [0u8, 0, 0, 0b11111, 0, 0, 0][row],
            '+' => [0u8, 0b00100, 0b00100, 0b11111, 0b00100, 0b00100, 0][row],
            '0' => [0b01110u8, 0b10001, 0b10011, 0b10101, 0b11001, 0b10001, 0b01110][row],
            '1' => [0b00100u8, 0b01100, 0b00100, 0b00100, 0b00100, 0b00100, 0b01110][row],
            '2' => [0b11110u8, 0b00001, 0b00001, 0b11110, 0b10000, 0b10000, 0b11111][row],
            '3' => [0b11110u8, 0b00001, 0b00001, 0b01110, 0b00001, 0b00001, 0b11110][row],
            '4' => [0b10010u8, 0b10010, 0b10010, 0b11111, 0b00010, 0b00010, 0b00010][row],
            '5' => [0b11111u8, 0b10000, 0b10000, 0b11110, 0b00001, 0b00001, 0b11110][row],
            '6' => [0b01110u8, 0b10000, 0b10000, 0b11110, 0b10001, 0b10001, 0b01110][row],
            '7' => [0b11111u8, 0b00001, 0b00010, 0b00100, 0b01000, 0b01000, 0b01000][row],
            '8' => [0b01110u8, 0b10001, 0b10001, 0b01110, 0b10001, 0b10001, 0b01110][row],
            '9' => [0b01110u8, 0b10001, 0b10001, 0b01111, 0b00001, 0b00001, 0b01110][row],
            'A' => [0b01110u8, 0b10001, 0b10001, 0b11111, 0b10001, 0b10001, 0b10001][row],
            'B' => [0b11110u8, 0b10001, 0b10001, 0b11110, 0b10001, 0b10001, 0b11110][row],
            'C' => [0b01111u8, 0b10000, 0b10000, 0b10000, 0b10000, 0b10000, 0b01111][row],
            'D' => [0b11110u8, 0b10001, 0b10001, 0b10001, 0b10001, 0b10001, 0b11110][row],
            'E' => [0b11111u8, 0b10000, 0b10000, 0b11110, 0b10000, 0b10000, 0b11111][row],
            'F' => [0b11111u8, 0b10000, 0b10000, 0b11110, 0b10000, 0b10000, 0b10000][row],
            'G' => [0b01110u8, 0b10001, 0b10000, 0b10111, 0b10001, 0b10001, 0b01111][row],
            'H' => [0b10001u8, 0b10001, 0b10001, 0b11111, 0b10001, 0b10001, 0b10001][row],
            'I' => [0b01110u8, 0b00100, 0b00100, 0b00100, 0b00100, 0b00100, 0b01110][row],
            'J' => [0b00001u8, 0b00001, 0b00001, 0b00001, 0b10001, 0b10001, 0b01110][row],
            'K' => [0b10001u8, 0b10010, 0b10100, 0b11000, 0b10100, 0b10010, 0b10001][row],
            'L' => [0b10000u8, 0b10000, 0b10000, 0b10000, 0b10000, 0b10000, 0b11111][row],
            'M' => [0b10001u8, 0b11011, 0b10101, 0b10101, 0b10001, 0b10001, 0b10001][row],
            'N' => [0b10001u8, 0b10001, 0b11001, 0b10101, 0b10011, 0b10001, 0b10001][row],
            'O' => [0b01110u8, 0b10001, 0b10001, 0b10001, 0b10001, 0b10001, 0b01110][row],
            'P' => [0b11110u8, 0b10001, 0b10001, 0b11110, 0b10000, 0b10000, 0b10000][row],
            'Q' => [0b01110u8, 0b10001, 0b10001, 0b10001, 0b10101, 0b10010, 0b01101][row],
            'R' => [0b11110u8, 0b10001, 0b10001, 0b11110, 0b10100, 0b10010, 0b10001][row],
            'S' => [0b01111u8, 0b10000, 0b10000, 0b01110, 0b00001, 0b00001, 0b11110][row],
            'T' => [0b11111u8, 0b00100, 0b00100, 0b00100, 0b00100, 0b00100, 0b00100][row],
            'U' => [0b10001u8, 0b10001, 0b10001, 0b10001, 0b10001, 0b10001, 0b01110][row],
            'V' => [0b10001u8, 0b10001, 0b10001, 0b10001, 0b10001, 0b01010, 0b00100][row],
            'W' => [0b10001u8, 0b10001, 0b10001, 0b10101, 0b10101, 0b10101, 0b01010][row],
            'X' => [0b10001u8, 0b10001, 0b01010, 0b00100, 0b01010, 0b10001, 0b10001][row],
            'Y' => [0b10001u8, 0b10001, 0b01010, 0b00100, 0b00100, 0b00100, 0b00100][row],
            'Z' => [0b11111u8, 0b00001, 0b00010, 0b00100, 0b01000, 0b10000, 0b11111][row],
            _ => 0,
    }
}

/// Position of atlas pixel `p` in the order in which the atlas is drawn: glyph by
/// glyph, each glyph row by row, each row column by column.
pub open spec fn atlas_draw_key(p: int) -> int {
    let x = p % (ATLAS_W as int);
    let y = p / (ATLAS_W as int);
    let g = (y / (GLYPH_H as int)) * (ATLAS_COLUMNS as int) + x / (GLYPH_W as int);
    g * 35 + (y % (GLYPH_H as int)) * 5 + x % (GLYPH_W as int)
}

/// The atlas pixel at column `col` of row `row` of glyph `glyph` is the one with
/// draw key `glyph * 35 + row * 5 + col`, and no other pixel has that key.
proof fn lemma_atlas_cell(glyph: int, row: int, col: int)
    requires
        0 <= glyph < GLYPH_COUNT,
        0 <= row < GLYPH_H,
        0 <= col < GLYPH_W,
    ensures
        ({
            let p = ((glyph / 16) * 7 + row) * 80 + (glyph % 16) * 5 + col;
            &&& 0 <= p < 1680
            &&& p % 80 == (glyph % 16) * 5 + col
            &&& p / 80 == (glyph / 16) * 7 + row
            &&& atlas_draw_key(p) == glyph * 35 + row * 5 + col
            &&& atlas_pixel(p) == if glyph_bit(
                glyph_row_bits(glyph_charset()[glyph], row),
                col as u32,
            ) {
                LIT
            } else {
                0u8
            }
            &&& forall|q: int|
                0 <= q < 1680 && #[trigger] atlas_draw_key(q) == glyph * 35 + row * 5 + col
                    ==> q == p
        }),
{
    let gx = glyph % 16;
    let gy = glyph / 16;
    let x = gx * 5 + col;
    let y = gy * 7 + row;
    let p = y * 80 + x;
    assert(gy < 3);
    vstd::arithmetic::div_mod::lemma_fundamental_div_mod_converse(p, 80, y, x);
    vstd::arithmetic::div_mod::lemma_fundamental_div_mod_converse(x, 5, gx, col);
    vstd::arithmetic::div_mod::lemma_fundamental_div_mod_converse(y, 7, gy, row);
    assert forall|q: int|
        0 <= q < 1680 && #[trigger] atlas_draw_key(q) == glyph * 35 + row * 5 + col implies q == p by {
        let qx = q % 80;
        let qy = q / 80;
        vstd::arithmetic::div_mod::lemma_fundamental_div_mod(q, 80);
        vstd::arithmetic::div_mod::lemma_fundamental_div_mod(qx, 5);
        vstd::arithmetic::div_mod::lemma_fundamental_div_mod(qy, 7);
        vstd::arithmetic::div_mod::lemma_mod_bound(q, 80);
        vstd::arithmetic::div_mod::lemma_mod_bound(qx, 5);
        vstd::arithmetic::div_mod::lemma_mod_bound(qy, 7);
        let qg = (qy / 7) * 16 + qx / 5;
        assert(qg * 35 + (qy % 7) * 5 + qx % 5 == glyph * 35 + row * 5 + col);
        assert(qg == glyph);
        assert(qy % 7 == row);
        assert(qx % 5 == col);
        vstd::arithmetic::div_mod::lemma_fundamental_div_mod_converse(glyph, 16, qy / 7, qx / 5);
    }
}

/// A pixel whose draw key lies past the last glyph is blank in the atlas.
proof fn lemma_atlas_tail(p: int)
    requires
        0 <= p < 1680,
        atlas_draw_key(p) >= GLYPH_COUNT * 35,
    ensures
        atlas_pixel(p) == 0,
{
    let x = p % 80;
    let y = p / 80;
    vstd::arithmetic::div_mod::lemma_mod_bound(x, 5);
    vstd::arithmetic::div_mod::lemma_mod_bound(y, 7);
}

/// Draws every glyph of the font into one 8-bit atlas image: glyph `i` occupies the
/// cell in column `i % 16` and row `i / 16`; a set font bit becomes a lit (255) pixel.
/// Returns the pixels, row-major, with the atlas width and height.
pub fn build_glyph_atlas_pixels() -> (res: (Vec<u8>, u32, u32))
    ensures
        res.1 == ATLAS_W,
        res.2 == ATLAS_H,
        res.0@.len() == ATLAS_W * ATLAS_H,
        forall|p: int| 0 <= p < res.0@.len() ==> #[trigger] res.0@[p] == atlas_pixel(p),
{
    let charset = glyph_charset_chars();
    let glyph_count: u32 = GLYPH_COUNT;
    let atlas_rows: u32 = (glyph_count + ATLAS_COLUMNS - 1) / ATLAS_COLUMNS;
    let atlas_w: u32 = ATLAS_COLUMNS * GLYPH_W;
    let atlas_h: u32 = atlas_rows * GLYPH_H;
    assert(atlas_w == 80 && atlas_h == 21);
    let mut pixels: Vec<u8> = vec![0u8; (atlas_w * atlas_h) as usize];

    for glyph_idx in 0..glyph_count
        invariant
            glyph_count == GLYPH_COUNT,
            atlas_w == 80,
            atlas_h == 21,
            charset@ == glyph_charset(),
            pixels@.len() == 1680,
            forall|p: int|
                0 <= p < 1680 ==> #[trigger] pixels@[p] == if atlas_draw_key(p) < glyph_idx * 35 {
                    atlas_pixel(p)
                } else {
                    0u8
                },
    {
        let ch = charset[glyph_idx as usize];
        let gx: u32 = glyph_idx % ATLAS_COLUMNS;
        let gy: u32 = glyph_idx / ATLAS_COLUMNS;
        let base_x: u32 = gx * GLYPH_W;
        let base_y: u32 = gy * GLYPH_H;

        for row in 0..GLYPH_H
            invariant
                glyph_idx < GLYPH_COUNT,
                atlas_w == 80,
                ch == glyph_charset()[glyph_idx as int],
                gx == glyph_idx % 16,
                gy == glyph_idx / 16,
                base_x == gx * 5,
                base_y == gy * 7,
                pixels@.len() == 1680,
                forall|p: int|
                    0 <= p < 1680 ==> #[trigger] pixels@[p] == if atlas_draw_key(p) < glyph_idx
                        * 35 + row * 5 {
                        atlas_pixel(p)
                    } else {
                        0u8
                    },
        {
            let bits = glyph_row_5x7(ch, row as usize);
            for col in 0..GLYPH_W
                invariant
                    glyph_idx < GLYPH_COUNT,
                    row < GLYPH_H,
                    atlas_w == 80,
                    ch == glyph_charset()[glyph_idx as int],
                    bits == glyph_row_bits(ch, row as int),
                    gx == glyph_idx % 16,
                    gy == glyph_idx / 16,
                    base_x == gx * 5,
                    base_y == gy * 7,
                    pixels@.len() == 1680,
                    forall|p: int|
                        0 <= p < 1680 ==> #[trigger] pixels@[p] == if atlas_draw_key(p)
                            < glyph_idx * 35 + row * 5 + col {
                            atlas_pixel(p)
                        } else {
                            0u8
                        },
            {
                proof {
                    lemma_atlas_cell(glyph_idx as int, row as int, col as int);
                }
                let bit: u8 = (bits >> (GLYPH_W - 1 - col)) & 1;
                if bit != 0 {
                    let px: u32 = base_x + col;
                    let py: u32 = base_y + row;
                    let idx: usize = (py * atlas_w + px) as usize;
                    pixels.set(idx, LIT);
                }
            }
        }
    }
    proof {
        assert forall|p: int| 0 <= p < 1680 implies #[trigger] pixels@[p] == atlas_pixel(p) by {
            if atlas_draw_key(p) >= GLYPH_COUNT * 35 {
                lemma_atlas_tail(p);
            }
        }
    }
    (pixels, atlas_w, atlas_h)
}

/// Upper-casing twice is upper-casing once.
pub proof fn lemma_ascii_upper_idempotent(c: char)
    ensures
        ascii_upper(ascii_upper(c)) == ascii_upper(c),
{
}

/// The font ignores case: a character and its upper-case form get the same glyph and
/// the same bitmap rows.
pub proof fn lemma_case_insensitive(c: char, row: int)
    ensures
        glyph_index_of(c) == glyph_index_of(ascii_upper(c)),
        glyph_row_bits(c, row) == glyph_row_bits(ascii_upper(c), row),
{
    lemma_ascii_upper_idempotent(c);
}

/// No character occurs twice in the character set, so each glyph index names one
/// character and the character at index `i` is drawn by glyph `i`.
pub proof fn lemma_charset_distinct(i: int, j: int)
    requires
        0 <= i < GLYPH_COUNT,
        0 <= j < GLYPH_COUNT,
        i != j,
    ensures
        glyph_charset()[i] != glyph_charset()[j],
{
}

/// The character at index `i` of the set is drawn by glyph `i`.
pub proof fn lemma_charset_index_roundtrip(i: int)
    requires
        0 <= i < GLYPH_COUNT,
    ensures
        glyph_index_of(glyph_charset()[i]) == i,
{
    let c = glyph_charset()[i];
    assert(ascii_upper(c) == c);
    assert(glyph_charset().contains(c));
    glyph_charset().index_of_first_ensures(c);
    let k = glyph_charset().index_of_first(c).unwrap();
    if k != i {
        lemma_charset_distinct(i, k);
    }
}

/// Every row of every glyph fits in the glyph's five columns.
pub proof fn lemma_rows_fit(c: char, row: int)
    requires
        0 <= row < GLYPH_H,
    ensures
        glyph_row_bits(c, row) < 32,
{
}

/// The font draws exactly its character set: every character of the set but the
/// space has a bitmap of seven rows, and every character with a bitmap is in the set.
pub proof fn lemma_bitmaps_cover_charset(c: char)
    ensures
        glyph_bitmap(c) is Some ==> glyph_charset().contains(c) && c != ' ',
        glyph_charset().contains(c) && c != ' ' ==> glyph_bitmap(c) is Some,
        glyph_bitmap(c) matches Some(rows) ==> rows.len() == GLYPH_H,
{
    match c {
        '.' => {
            assert(glyph_charset()[1] == c);
        },
        ':' => {
            assert(glyph_charset()[2] == c);
        },
        ',' => {
            assert(glyph_charset()[3] == c);
        },
        '(' => {
            assert(glyph_charset()[4] == c);
        },
        ')' => {
            assert(glyph_charset()[5] == c);
        },
        '-' => {
            assert(glyph_charset()[6] == c);
        },
        '+' => {
            assert(glyph_charset()[7] == c);
        },
        '0' => {
            assert(glyph_charset()[8] == c);
        },
        '1' => {
            assert(glyph_charset()[9] == c);
        },
        '2' => {
            assert(glyph_charset()[10] == c);
        },
        '3' => {
            assert(glyph_charset()[11] == c);
        },
        '4' => {
            assert(glyph_charset()[12] == c);
        },
        '5' => {
            assert(glyph_charset()[13] == c);
        },
        '6' => {
            assert(glyph_charset()[14] == c);
        },
        '7' => {
            assert(glyph_charset()[15] == c);
        },
        '8' => {
            assert(glyph_charset()[16] == c);
        },
        '9' => {
            assert(glyph_charset()[17] == c);
        },
        'A' => {
            assert(glyph_charset()[18] == c);
        },
        'B' => {
            assert(glyph_charset()[19] == c);
        },
        'C' => {
            assert(glyph_charset()[20] == c);
        },
        'D' => {
            assert(glyph_charset()[21] == c);
        },
        'E' => {
            assert(glyph_charset()[22] == c);
        },
        'F' => {
            assert(glyph_charset()[23] == c);
        },
        'G' => {
            assert(glyph_charset()[24] == c);
        },
        'H' => {
            assert(glyph_charset()[25] == c);
        },
        'I' => {
            assert(glyph_charset()[26] == c);
        },
        'J' => {
            assert(glyph_charset()[27] == c);
        },
        'K' => {
            assert(glyph_charset()[28] == c);
        },
        'L' => {
            assert(glyph_charset()[29] == c);
        },
        'M' => {
            assert(glyph_charset()[30] == c);
        },
        'N' => {
            assert(glyph_charset()[31] == c);
        },
        'O' => {
            assert(glyph_charset()[32] == c);
        },
        'P' => {
            assert(glyph_charset()[33] == c);
        },
        'Q' => {
            assert(glyph_charset()[34] == c);
        },
        'R' => {
            assert(glyph_charset()[35] == c);
        },
        'S' => {
            assert(glyph_charset()[36] == c);
        },
        'T' => {
            assert(glyph_charset()[37] == c);
        },
        'U' => {
            assert(glyph_charset()[38] == c);
        },
        'V' => {
            assert(glyph_charset()[39] == c);
        },
        'W' => {
            assert(glyph_charset()[40] == c);
        },
        'X' => {
            assert(glyph_charset()[41] == c);
        },
        'Y' => {
            assert(glyph_charset()[42] == c);
        },
        'Z' => {
            assert(glyph_charset()[43] == c);
        },
        _ => {
            assert(!glyph_charset().contains(c) || c == ' ') by {
                if glyph_charset().contains(c) {
                    let i = choose|i: int| 0 <= i < glyph_charset().len() && glyph_charset()[i] == c;
                    assert(glyph_charset()[i] == c);
                }
            }
        },
    }
}

/// The seven rows of the glyph drawn for `c`, read as one number (row `k` in base-32
/// digit `k`); two glyphs with the same rows have the same fingerprint.
pub open spec fn glyph_fingerprint(c: char) -> int {
    glyph_row_bits(c, 0) as int + 32 * (glyph_row_bits(c, 1) as int) + 1024 * (glyph_row_bits(c, 2) as int)
        + 32768 * (glyph_row_bits(c, 3) as int) + 1048576 * (glyph_row_bits(c, 4) as int)
        + 33554432 * (glyph_row_bits(c, 5) as int) + 1073741824 * (glyph_row_bits(c, 6) as int)
}

/// The fingerprint of glyph `i`.
spec fn fingerprint_at(i: int) -> int {
    if i == 0 {
        0
    } else if i == 1 {
        4294967296
    } else if i == 2 {
        4198400
    } else if i == 3 {
        8724152320
    } else if i == 4 {
        2290360450
    } else if i == 5 {
        8726317192
    } else if i == 6 {
        1015808
    } else if i == 7 {
        139432064
    } else if i == 8 {
        15629733422
    } else if i == 9 {
        15170933124
    } else if i == 10 {
        33840628798
    } else if i == 11 {
        32247317566
    } else if i == 12 {
        2217724498
    } else if i == 13 {
        32247857695
    } else if i == 14 {
        15621636622
    } else if i == 15 {
        8866891839
    } else if i == 16 {
        15621113390
    } else if i == 17 {
        15067498030
    } else if i == 18 {
        18842895918
    } else if i == 19 {
        32801506878
    } else if i == 20 {
        16660316687
    } else if i == 21 {
        32801080894
    } else if i == 22 {
        33840644639
    } else if i == 23 {
        17734517279
    } else if i == 24 {
        16695149102
    } else if i == 25 {
        18842895921
    } else if i == 26 {
        15170932878
    } else if i == 27 {
        15620670497
    } else if i == 28 {
        18879369809
    } else if i == 29 {
        33840185872
    } else if i == 30 {
        18842572657
    } else if i == 31 {
        18844673585
    } else if i == 32 {
        15621211694
    } else if i == 33 {
        17734518334
    } else if i == 34 {
        14585218606
    } else if i == 35 {
        18879563326
    } else if i == 36 {
        32247333391
    } else if i == 37 {
        4433514655
    } else if i == 38 {
        15621211697
    } else if i == 39 {
        4648912433
    } else if i == 40 {
        11464787505
    } else if i == 41 {
        18834663985
    } else if i == 42 {
        4433521201
    } else if i == 43 {
        33831389247
    } else {
        -1
    }
}

/// The glyph with fingerprint `v`, or -1 when no glyph has it.
spec fn glyph_with_fingerprint(v: int) -> int {
    if v == 0 {
        0
    } else if v == 4294967296 {
        1
    } else if v == 4198400 {
        2
    } else if v == 8724152320 {
        3
    } else if v == 2290360450 {
        4
    } else if v == 8726317192 {
        5
    } else if v == 1015808 {
        6
    } else if v == 139432064 {
        7
    } else if v == 15629733422 {
        8
    } else if v == 15170933124 {
        9
    } else if v == 33840628798 {
        10
    } else if v == 32247317566 {
        11
    } else if v == 2217724498 {
        12
    } else if v == 32247857695 {
        13
    } else if v == 15621636622 {
        14
    } else if v == 8866891839 {
        15
    } else if v == 15621113390 {
        16
    } else if v == 15067498030 {
        17
    } else if v == 18842895918 {
        18
    } else if v == 32801506878 {
        19
    } else if v == 16660316687 {
        20
    } else if v == 32801080894 {
        21
    } else if v == 33840644639 {
        22
    } else if v == 17734517279 {
        23
    } else if v == 16695149102 {
        24
    } else if v == 18842895921 {
        25
    } else if v == 15170932878 {
        26
    } else if v == 15620670497 {
        27
    } else if v == 18879369809 {
        28
    } else if v == 33840185872 {
        29
    } else if v == 18842572657 {
        30
    } else if v == 18844673585 {
        31
    } else if v == 15621211694 {
        32
    } else if v == 17734518334 {
        33
    } else if v == 14585218606 {
        34
    } else if v == 18879563326 {
        35
    } else if v == 32247333391 {
        36
    } else if v == 4433514655 {
        37
    } else if v == 15621211697 {
        38
    } else if v == 4648912433 {
        39
    } else if v == 11464787505 {
        40
    } else if v == 18834663985 {
        41
    } else if v == 4433521201 {
        42
    } else if v == 33831389247 {
        43
    } else {
        -1
    }
}

proof fn lemma_fingerprint_at(i: int)
    requires
        0 <= i < GLYPH_COUNT,
    ensures
        glyph_fingerprint(glyph_charset()[i]) == fingerprint_at(i),
        glyph_with_fingerprint(fingerprint_at(i)) == i,
{
    if i == 0 {
    } else if i == 1 {
    } else if i == 2 {
    } else if i == 3 {
    } else if i == 4 {
    } else if i == 5 {
    } else if i == 6 {
    } else if i == 7 {
    } else if i == 8 {
    } else if i == 9 {
    } else if i == 10 {
    } else if i == 11 {
    } else if i == 12 {
    } else if i == 13 {
    } else if i == 14 {
    } else if i == 15 {
    } else if i == 16 {
    } else if i == 17 {
    } else if i == 18 {
    } else if i == 19 {
    } else if i == 20 {
    } else if i == 21 {
    } else if i == 22 {
    } else if i == 23 {
    } else if i == 24 {
    } else if i == 25 {
    } else if i == 26 {
    } else if i == 27 {
    } else if i == 28 {
    } else if i == 29 {
    } else if i == 30 {
    } else if i == 31 {
    } else if i == 32 {
    } else if i == 33 {
    } else if i == 34 {
    } else if i == 35 {
    } else if i == 36 {
    } else if i == 37 {
    } else if i == 38 {
    } else if i == 39 {
    } else if i == 40 {
    } else if i == 41 {
    } else if i == 42 {
    } else if i == 43 {
    }
}

/// No two glyphs of the font look alike: the bitmaps of two different characters of
/// the set differ in at least one row (so, with the space blank, every other glyph
/// has at least one lit pixel).
pub proof fn lemma_glyphs_distinct(c1: char, c2: char)
    requires
        glyph_charset().contains(c1),
        glyph_charset().contains(c2),
        c1 != c2,
    ensures
        exists|row: int| 0 <= row < GLYPH_H && glyph_row_bits(c1, row) != glyph_row_bits(c2, row),
{
    let i = choose|i: int| 0 <= i < glyph_charset().len() && glyph_charset()[i] == c1;
    let j = choose|j: int| 0 <= j < glyph_charset().len() && glyph_charset()[j] == c2;
    lemma_fingerprint_at(i);
    lemma_fingerprint_at(j);
    if !(exists|row: int| 0 <= row < GLYPH_H && glyph_row_bits(c1, row) != glyph_row_bits(c2, row)) {
        assert(glyph_row_bits(c1, 0) == glyph_row_bits(c2, 0));
        assert(glyph_row_bits(c1, 1) == glyph_row_bits(c2, 1));
        assert(glyph_row_bits(c1, 2) == glyph_row_bits(c2, 2));
        assert(glyph_row_bits(c1, 3) == glyph_row_bits(c2, 3));
        assert(glyph_row_bits(c1, 4) == glyph_row_bits(c2, 4));
        assert(glyph_row_bits(c1, 5) == glyph_row_bits(c2, 5));
        assert(glyph_row_bits(c1, 6) == glyph_row_bits(c2, 6));
        assert(glyph_fingerprint(c1) == glyph_fingerprint(c2));
        assert(i == j);
    }
}

/// Every character of the set but the space has at least one lit pixel.
pub proof fn lemma_glyphs_have_ink(c: char)
    requires
        glyph_charset().contains(c),
        c != ' ',
    ensures
        exists|row: int| 0 <= row < GLYPH_H && glyph_row_bits(c, row) != 0,
{
    assert(glyph_charset()[0] == ' ');
    assert(glyph_charset().contains(' '));
    lemma_glyphs_distinct(c, ' ');
    let row = choose|row: int| 0 <= row < GLYPH_H && glyph_row_bits(c, row) != glyph_row_bits(' ', row);
    assert(glyph_row_bits(' ', row) == 0);
}

/// The glyph chosen for a character draws that character: when the font has the
/// upper-case form of `c`, the glyph index points at exactly that character of the set;
/// when it has not, the index is the space. Every index lies inside the font.
pub proof fn lemma_glyph_index_draws_char(c: char)
    ensures
        0 <= glyph_index_of(c) < GLYPH_COUNT,
        glyph_charset().contains(ascii_upper(c)) ==> glyph_charset()[glyph_index_of(c) as int]
            == ascii_upper(c),
        !glyph_charset().contains(ascii_upper(c)) ==> glyph_index_of(c) == SPACE_GLYPH_INDEX,
{
    glyph_charset().index_of_first_ensures(ascii_upper(c));
}

/// What each glyph looks like: its seven rows from the top, `#` for a lit pixel and
/// `.` for a blank one; the space and characters outside the font are blank.
pub open spec fn glyph_picture(c: char) -> Seq<Seq<char>> {
    match c {
        '.' => seq!["....."@, "....."@, "....."@, "....."@, "....."@, "....."@, "..#.."@],
        ':' => seq!["....."@, "....."@, "..#.."@, "....."@, "..#.."@, "....."@, "....."@],
        ',' => seq!["....."@, "....."@, "....."@, "....."@, "....."@, "..#.."@, ".#..."@],
        '(' => seq!["...#."@, "..#.."@, ".#..."@, ".#..."@, ".#..."@, "..#.."@, "...#."@],
        ')' => seq![".#..."@, "..#.."@, "...#."@, "...#."@, "...#."@, "..#.."@, ".#..."@],
        '-' => seq!["....."@, "....."@, "....."@, "#####"@, "....."@, "....."@, "....."@],
        '+' => seq!["....."@, "..#.."@, "..#.."@, "#####"@, "..#.."@, "..#.."@, "....."@],
        '0' => seq![".###."@, "#...#"@, "#..##"@, "#.#.#"@, "##..#"@, "#...#"@, ".###."@],
        '1' => seq!["..#.."@, ".##.."@, "..#.."@, "..#.."@, "..#.."@, "..#.."@, ".###."@],
        '2' => seq!["####."@, "....#"@, "....#"@, "####."@, "#...."@, "#...."@, "#####"@],
        '3' => seq!["####."@, "....#"@, "....#"@, ".###."@, "....#"@, "....#"@, "####."@],
        '4' => seq!["#..#."@, "#..#."@, "#..#."@, "#####"@, "...#."@, "...#."@, "...#."@],
        '5' => seq!["#####"@, "#...."@, "#...."@, "####."@, "....#"@, "....#"@, "####."@],
        '6' => seq![".###."@, "#...."@, "#...."@, "####."@, "#...#"@, "#...#"@, ".###."@],
        '7' => seq!["#####"@, "....#"@, "...#."@, "..#.."@, ".#..."@, ".#..."@, ".#..."@],
        '8' => seq![".###."@, "#...#"@, "#...#"@, ".###."@, "#...#"@, "#...#"@, ".###."@],
        '9' => seq![".###."@, "#...#"@, "#...#"@, ".####"@, "....#"@, "....#"@, ".###."@],
        'A' => seq![".###."@, "#...#"@, "#...#"@, "#####"@, "#...#"@, "#...#"@, "#...#"@],
        'B' => seq!["####."@, "#...#"@, "#...#"@, "####."@, "#...#"@, "#...#"@, "####."@],
        'C' => seq![".####"@, "#...."@, "#...."@, "#...."@, "#...."@, "#...."@, ".####"@],
        'D' => seq!["####."@, "#...#"@, "#...#"@, "#...#"@, "#...#"@, "#...#"@, "####."@],
        'E' => seq!["#####"@, "#...."@, "#...."@, "####."@, "#...."@, "#...."@, "#####"@],
        'F' => seq!["#####"@, "#...."@, "#...."@, "####."@, "#...."@, "#...."@, "#...."@],
        'G' => seq![".###."@, "#...#"@, "#...."@, "#.###"@, "#...#"@, "#...#"@, ".####"@],
        'H' => seq!["#...#"@, "#...#"@, "#...#"@, "#####"@, "#...#"@, "#...#"@, "#...#"@],
        'I' => seq![".###."@, "..#.."@, "..#.."@, "..#.."@, "..#.."@, "..#.."@, ".###."@],
        'J' => seq!["....#"@, "....#"@, "....#"@, "....#"@, "#...#"@, "#...#"@, ".###."@],
        'K' => seq!["#...#"@, "#..#."@, "#.#.."@, "##..."@, "#.#.."@, "#..#."@, "#...#"@],
        'L' => seq!["#...."@, "#...."@, "#...."@, "#...."@, "#...."@, "#...."@, "#####"@],
        'M' => seq!["#...#"@, "##.##"@, "#.#.#"@, "#.#.#"@, "#...#"@, "#...#"@, "#...#"@],
        'N' => seq!["#...#"@, "#...#"@, "##..#"@, "#.#.#"@, "#..##"@, "#...#"@, "#...#"@],
        'O' => seq![".###."@, "#...#"@, "#...#"@, "#...#"@, "#...#"@, "#...#"@, ".###."@],
        'P' => seq!["####."@, "#...#"@, "#...#"@, "####."@, "#...."@, "#...."@, "#...."@],
        'Q' => seq![".###."@, "#...#"@, "#...#"@, "#...#"@, "#.#.#"@, "#..#."@, ".##.#"@],
        'R' => seq!["####."@, "#...#"@, "#...#"@, "####."@, "#.#.."@, "#..#."@, "#...#"@],
        'S' => seq![".####"@, "#...."@, "#...."@, ".###."@, "....#"@, "....#"@, "####."@],
        'T' => seq!["#####"@, "..#.."@, "..#.."@, "..#.."@, "..#.."@, "..#.."@, "..#.."@],
        'U' => seq!["#...#"@, "#...#"@, "#...#"@, "#...#"@, "#...#"@, "#...#"@, ".###."@],
        'V' => seq!["#...#"@, "#...#"@, "#...#"@, "#...#"@, "#...#"@, ".#.#."@, "..#.."@],
        'W' => seq!["#...#"@, "#...#"@, "#...#"@, "#.#.#"@, "#.#.#"@, "#.#.#"@, ".#.#."@],
        'X' => seq!["#...#"@, "#...#"@, ".#.#."@, "..#.."@, ".#.#."@, "#...#"@, "#...#"@],
        'Y' => seq!["#...#"@, "#...#"@, ".#.#."@, "..#.."@, "..#.."@, "..#.."@, "..#.."@],
        'Z' => seq!["#####"@, "....#"@, "...#."@, "..#.."@, ".#..."@, "#...."@, "#####"@],
        _ => seq!["....."@, "....."@, "....."@, "....."@, "....."@, "....."@, "....."@],
    }
}

/// The five-bit value of a picture row: the leftmost column is the most significant bit.
pub open spec fn row_value(row: Seq<char>) -> int {
    (if row[0] == '#' { 16int } else { 0 }) + (if row[1] == '#' { 8int } else { 0 }) + (if row[2]
        == '#' { 4int } else { 0 }) + (if row[3] == '#' { 2int } else { 0 }) + (if row[4] == '#' {
        1int
    } else {
        0
    })
}

/// The value of each picture row that occurs in the font.
proof fn lemma_row_values()
    ensures
        row_value("#####"@) == 31,
        row_value("####."@) == 30,
        row_value("##.##"@) == 27,
        row_value("##..#"@) == 25,
        row_value("##..."@) == 24,
        row_value("#.###"@) == 23,
        row_value("#.#.#"@) == 21,
        row_value("#.#.."@) == 20,
        row_value("#..##"@) == 19,
        row_value("#..#."@) == 18,
        row_value("#...#"@) == 17,
        row_value("#...."@) == 16,
        row_value(".####"@) == 15,
        row_value(".###."@) == 14,
        row_value(".##.#"@) == 13,
        row_value(".##.."@) == 12,
        row_value(".#.#."@) == 10,
        row_value(".#..."@) == 8,
        row_value("..#.."@) == 4,
        row_value("...#."@) == 2,
        row_value("....#"@) == 1,
        row_value("....."@) == 0,
{
    reveal_strlit("#####");
    assert(row_value("#####"@) == 31);
    reveal_strlit("####.");
    assert(row_value("####."@) == 30);
    reveal_strlit("##.##");
    assert(row_value("##.##"@) == 27);
    reveal_strlit("##..#");
    assert(row_value("##..#"@) == 25);
    reveal_strlit("##...");
    assert(row_value("##..."@) == 24);
    reveal_strlit("#.###");
    assert(row_value("#.###"@) == 23);
    reveal_strlit("#.#.#");
    assert(row_value("#.#.#"@) == 21);
    reveal_strlit("#.#..");
    assert(row_value("#.#.."@) == 20);
    reveal_strlit("#..##");
    assert(row_value("#..##"@) == 19);
    reveal_strlit("#..#.");
    assert(row_value("#..#."@) == 18);
    reveal_strlit("#...#");
    assert(row_value("#...#"@) == 17);
    reveal_strlit("#....");
    assert(row_value("#...."@) == 16);
    reveal_strlit(".####");
    assert(row_value(".####"@) == 15);
    reveal_strlit(".###.");
    assert(row_value(".###."@) == 14);
    reveal_strlit(".##.#");
    assert(row_value(".##.#"@) == 13);
    reveal_strlit(".##..");
    assert(row_value(".##.."@) == 12);
    reveal_strlit(".#.#.");
    assert(row_value(".#.#."@) == 10);
    reveal_strlit(".#...");
    assert(row_value(".#..."@) == 8);
    reveal_strlit("..#..");
    assert(row_value("..#.."@) == 4);
    reveal_strlit("...#.");
    assert(row_value("...#."@) == 2);
    reveal_strlit("....#");
    assert(row_value("....#"@) == 1);
    reveal_strlit(".....");
    assert(row_value("....."@) == 0);
}

/// Every glyph is drawn as its picture: row `r` of the glyph for `c` holds exactly the
/// lit pixels of row `r` of the picture of `c`'s upper-case form.
pub proof fn lemma_glyph_pictures(c: char, r: int)
    requires
        0 <= r < GLYPH_H,
    ensures
        glyph_row_bits(c, r) as int == row_value(glyph_picture(ascii_upper(c))[r]),
{
    lemma_row_values();
}

/// Bit `k` of a five-bit row, read with shifts, is its base-2 digit `k`.
proof fn lemma_row_bits_digits(x: u8)
    by (bit_vector)
    requires
        x < 32,
    ensures
        ((x >> 4u32) & 1u8 != 0) == ((x / 16) % 2 == 1),
        ((x >> 3u32) & 1u8 != 0) == ((x / 8) % 2 == 1),
        ((x >> 2u32) & 1u8 != 0) == ((x / 4) % 2 == 1),
        ((x >> 1u32) & 1u8 != 0) == ((x / 2) % 2 == 1),
        ((x >> 0u32) & 1u8 != 0) == (x % 2 == 1),
{
}

/// Column `col` of a picture row is lit exactly when the matching bit of its value is set.
proof fn lemma_row_value_bit(row: Seq<char>, col: int)
    requires
        row.len() == 5,
        0 <= col < 5,
    ensures
        0 <= row_value(row) < 32,
        glyph_bit(row_value(row) as u8, col as u32) == (row[col] == '#'),
{
    let x = row_value(row) as u8;
    lemma_row_bits_digits(x);
    let b0: int = if row[0] == '#' { 1 } else { 0 };
    let b1: int = if row[1] == '#' { 1 } else { 0 };
    let b2: int = if row[2] == '#' { 1 } else { 0 };
    let b3: int = if row[3] == '#' { 1 } else { 0 };
    let b4: int = if row[4] == '#' { 1 } else { 0 };
    assert(row_value(row) == 16 * b0 + 8 * b1 + 4 * b2 + 2 * b3 + b4);
    vstd::arithmetic::div_mod::lemma_fundamental_div_mod_converse(x as int, 16, b0, 8 * b1 + 4 * b2 + 2 * b3 + b4);
    vstd::arithmetic::div_mod::lemma_fundamental_div_mod_converse(x as int, 8, 2 * b0 + b1, 4 * b2 + 2 * b3 + b4);
    vstd::arithmetic::div_mod::lemma_fundamental_div_mod_converse(x as int, 4, 4 * b0 + 2 * b1 + b2, 2 * b3 + b4);
    vstd::arithmetic::div_mod::lemma_fundamental_div_mod_converse(x as int, 2, 8 * b0 + 4 * b1 + 2 * b2 + b3, b4);
    vstd::arithmetic::div_mod::lemma_fundamental_div_mod_converse(b0, 2, 0, b0);
    vstd::arithmetic::div_mod::lemma_fundamental_div_mod_converse(2 * b0 + b1, 2, b0, b1);
    vstd::arithmetic::div_mod::lemma_fundamental_div_mod_converse(4 * b0 + 2 * b1 + b2, 2, 2 * b0 + b1, b2);
    vstd::arithmetic::div_mod::lemma_fundamental_div_mod_converse(8 * b0 + 4 * b1 + 2 * b2 + b3, 2, 4 * b0 + 2 * b1 + b2, b3);
}

/// The atlas shows every glyph as its picture: in the cell of glyph `g` (column `g % 16`,
/// row `g / 16` of cells), the pixel at column `col` of glyph row `row` is lit exactly
/// when that place of the picture of the glyph's character is `#`.
pub proof fn lemma_atlas_shows_pictures(g: int, row: int, col: int)
    requires
        0 <= g < GLYPH_COUNT,
        0 <= row < GLYPH_H,
        0 <= col < GLYPH_W,
    ensures
        atlas_pixel(((g / 16) * 7 + row) * 80 + (g % 16) * 5 + col) == if glyph_picture(
            glyph_charset()[g],
        )[row][col] == '#' {
            LIT
        } else {
            0u8
        },
{
    let c = glyph_charset()[g];
    assert(ascii_upper(c) == c);
    lemma_atlas_cell(g, row, col);
    lemma_glyph_pictures(c, row);
    lemma_bitmaps_cover_charset(c);
    let pic_row = glyph_picture(c)[row];
    assert(pic_row.len() == 5) by {
        lemma_row_values();
        reveal_strlit(".....");
        reveal_strlit("....#");
        reveal_strlit("...#.");
        reveal_strlit("..#..");
        reveal_strlit(".#...");
        reveal_strlit("#....");
        reveal_strlit("##...");
        reveal_strlit("#...#");
        reveal_strlit("#..#.");
        reveal_strlit("#.#..");
        reveal_strlit(".#.#.");
        reveal_strlit("#####");
        reveal_strlit(".###.");
        reveal_strlit("####.");
        reveal_strlit(".####");
        reveal_strlit("#..##");
        reveal_strlit("#.#.#");
        reveal_strlit("##..#");
        reveal_strlit("##.##");
        reveal_strlit("#.###");
        reveal_strlit(".##..");
        reveal_strlit(".##.#");
    }
    lemma_row_value_bit(pic_row, col);
}

/// ASCII upper-casing moves `a`..`z` down by 32 onto `A`..`Z` and changes nothing else.
pub proof fn lemma_ascii_upper_codes(c: char)
    ensures
        'a' <= c <= 'z' ==> ascii_upper(c) as u32 == c as u32 - 32 && 'A' <= ascii_upper(c) <= 'Z',
        !('a' <= c <= 'z') ==> ascii_upper(c) == c,
{
}

/// The layout of the character set: space, `.`, `:`, `,`, `(`, `)`, `-`, `+`, then the
/// digits `0` to `9` at indices 8 to 17, then the letters `A` to `Z` at 18 to 43.
pub proof fn lemma_charset_layout()
    ensures
        glyph_charset().len() == GLYPH_COUNT,
        glyph_charset().subrange(0, 8) == seq![' ', '.', ':', ',', '(', ')', '-', '+'],
        forall|d: int| 0 <= d < 10 ==> #[trigger] glyph_charset()[8 + d] as u32 == '0' as u32 + d,
        forall|k: int| 0 <= k < 26 ==> #[trigger] glyph_charset()[18 + k] as u32 == 'A' as u32 + k,
{
    assert(glyph_charset().subrange(0, 8) =~= seq![' ', '.', ':', ',', '(', ')', '-', '+']);
}

} // verus!
