//! What the text overlay sends to the GPU: the glyph index of each character shown,
//! and the size of the block of text on screen.
use vstd::prelude::*;
use vstd::std_specs::iter::IteratorSpec;

use crate::bytes::{encode_u32_le, le_word_at, le_words_bytes, lemma_words_bytes_decode};
use crate::glyphs::{
    ascii_upper, glyph_charset, glyph_index_for_char, glyph_index_of, lemma_case_insensitive,
    lemma_glyph_index_draws_char, GLYPH_COUNT, GLYPH_H, GLYPH_W, SPACE_GLYPH_INDEX,
};

verus! {

/// Most characters the overlay shows; the rest of a longer text is cut off.
pub const MAX_TEXT_CHARS: usize = 96;

/// Screen pixels per font pixel.
pub const GLYPH_SCALE: u32 = 2;

/// Horizontal distance between the starts of two neighbouring characters, in screen pixels.
pub const GLYPH_ADVANCE: u32 = (GLYPH_W + 2) * GLYPH_SCALE;

/// Distance of the text block from the top-left corner of the window, in screen pixels.
pub const TEXT_MARGIN: u32 = 12;

/// Size of the packed text buffer: the length, three padding words, one word per
/// character slot, four padding words.
pub const TEXT_BUFFER_BYTES: usize = 416;

/// The glyph indices shown for `text`: one per character, for at most the first
/// `MAX_TEXT_CHARS` characters.
pub open spec fn text_glyphs(text: Seq<char>) -> Seq<u32> {
    let n = if text.len() < MAX_TEXT_CHARS { text.len() as int } else { MAX_TEXT_CHARS as int };
    Seq::new(n as nat, |i: int| glyph_index_of(text[i]))
}

/// The characters of the overlay, as the shader reads them: how many are shown, and
/// the glyph index in each of the `MAX_TEXT_CHARS` slots (unused slots show a space).
pub struct TextBuffer {
    text_len: u32,
    glyph_indices: Vec<u32>,
}

impl TextBuffer {
    #[verifier::type_invariant]
    spec fn well_formed(self) -> bool {
        &&& self.glyph_indices@.len() == MAX_TEXT_CHARS
        &&& self.text_len <= MAX_TEXT_CHARS
        &&& forall|i: int|
            self.text_len <= i < MAX_TEXT_CHARS ==> #[trigger] self.glyph_indices@[i]
                == SPACE_GLYPH_INDEX
    }

    /// The glyph indices of the characters shown, in order.
    pub closed spec fn glyphs(self) -> Seq<u32> {
        self.glyph_indices@.take(self.text_len as int)
    }

    /// Every character slot: the glyphs shown, then spaces up to `MAX_TEXT_CHARS`.
    pub open spec fn slots(self) -> Seq<u32> {
        self.glyphs() + Seq::new((MAX_TEXT_CHARS - self.glyphs().len()) as nat, |i: int| SPACE_GLYPH_INDEX)
    }

    /// The buffer as 32-bit words: the length, three zero words, the slots, four zero words.
    pub open spec fn words(self) -> Seq<u32> {
        seq![self.glyphs().len() as u32, 0u32, 0u32, 0u32] + self.slots() + seq![0u32, 0u32, 0u32, 0u32]
    }

    /// A buffer that shows nothing.
    pub fn blank() -> (r: Self)
        ensures
            r.glyphs() == Seq::<u32>::empty(),
    {
        let mut glyph_indices: Vec<u32> = Vec::new();
        while glyph_indices.len() < MAX_TEXT_CHARS
            invariant
                glyph_indices@.len() <= MAX_TEXT_CHARS,
                forall|i: int| 0 <= i < glyph_indices@.len() ==> #[trigger] glyph_indices@[i] == SPACE_GLYPH_INDEX,
            decreases MAX_TEXT_CHARS - glyph_indices@.len(),
        {
            glyph_indices.push(SPACE_GLYPH_INDEX);
        }
        let r = TextBuffer { text_len: 0, glyph_indices };
        assert(r.glyphs() =~= Seq::<u32>::empty());
        r
    }

    /// The buffer that shows `text`: the glyph of each of its first `MAX_TEXT_CHARS`
    /// characters, upper-cased, with characters outside the font drawn as spaces.
    pub fn from_text(text: &str) -> (r: Self)
        ensures
            r.glyphs() == text_glyphs(text@),
            r.glyphs().len() == if text@.len() < MAX_TEXT_CHARS { text@.len() } else { MAX_TEXT_CHARS as nat },
            forall|i: int| 0 <= i < r.glyphs().len() ==> #[trigger] r.glyphs()[i] == glyph_index_of(text@[i]),
    {
        broadcast use vstd::string::axiom_spec_iter, vstd::string::next_postcondition;

        let mut chars = text.chars();
        let mut glyph_indices: Vec<u32> = Vec::new();
        let mut text_len: u32 = 0;
        let mut exhausted = false;
        while !exhausted && (text_len as usize) < MAX_TEXT_CHARS
            invariant
                text_len <= MAX_TEXT_CHARS,
                text_len <= text@.len(),
                glyph_indices@.len() == text_len,
                chars.remaining() == text@.skip(text_len as int),
                exhausted ==> text_len == text@.len(),
                forall|i: int| 0 <= i < text_len ==> #[trigger] glyph_indices@[i] == glyph_index_of(text@[i]),
            decreases MAX_TEXT_CHARS - text_len, if exhausted { 0int } else { 1int },
        {
            let ghost rest = chars.remaining();
            match chars.next() {
                Some(ch) => {
                    assert(ch == text@[text_len as int]);
                    glyph_indices.push(glyph_index_for_char(ch));
                    text_len = text_len + 1;
                    assert(chars.remaining() =~= text@.skip(text_len as int));
                },
                None => {
                    exhausted = true;
                },
            }
        }
        while glyph_indices.len() < MAX_TEXT_CHARS
            invariant
                text_len <= glyph_indices@.len() <= MAX_TEXT_CHARS,
                forall|i: int| 0 <= i < text_len ==> #[trigger] glyph_indices@[i] == glyph_index_of(text@[i]),
                forall|i: int| text_len <= i < glyph_indices@.len() ==> #[trigger] glyph_indices@[i] == SPACE_GLYPH_INDEX,
            decreases MAX_TEXT_CHARS - glyph_indices@.len(),
        {
            glyph_indices.push(SPACE_GLYPH_INDEX);
        }
        let r = TextBuffer { text_len, glyph_indices };
        assert(r.glyphs() =~= text_glyphs(text@));
        proof {
            lemma_text_shows_each_char_all(text@);
        }
        r
    }

    /// Number of characters shown.
    pub fn text_len(&self) -> (n: u32)
        ensures
            n == self.glyphs().len(),
    {
        proof {
            use_type_invariant(self);
        }
        self.text_len
    }

    /// Glyph index in character slot `i`.
    pub fn glyph_index(&self, i: usize) -> (g: u32)
        requires
            i < MAX_TEXT_CHARS,
        ensures
            g == self.slots()[i as int],
    {
        proof {
            use_type_invariant(self);
        }
        self.glyph_indices[i]
    }

    /// The buffer packed for upload: `words()` as little-endian bytes.
    pub fn to_bytes(&self) -> (bytes: Vec<u8>)
        ensures
            bytes@ == le_words_bytes(self.words()),
            bytes@.len() == TEXT_BUFFER_BYTES,
            le_word_at(bytes@, 0) == self.glyphs().len(),
            forall|k: int| 1 <= k < 4 ==> #[trigger] le_word_at(bytes@, k) == 0,
            forall|i: int| 0 <= i < MAX_TEXT_CHARS ==> #[trigger] le_word_at(bytes@, 4 + i) == self.slots()[i],
            forall|k: int| 100 <= k < 104 ==> #[trigger] le_word_at(bytes@, k) == 0,
    {
        proof {
            use_type_invariant(self);
        }
        let mut words: Vec<u32> = Vec::new();
        words.push(self.text_len);
        words.push(0);
        words.push(0);
        words.push(0);
        let mut i: usize = 0;
        while i < MAX_TEXT_CHARS
            invariant
                0 <= i <= MAX_TEXT_CHARS,
                self.glyph_indices@.len() == MAX_TEXT_CHARS,
                words@ == seq![self.text_len, 0u32, 0u32, 0u32] + self.glyph_indices@.take(i as int),
            decreases MAX_TEXT_CHARS - i,
        {
            words.push(self.glyph_indices[i]);
            i = i + 1;
            assert(words@ =~= seq![self.text_len, 0u32, 0u32, 0u32] + self.glyph_indices@.take(i as int));
        }
        words.push(0);
        words.push(0);
        words.push(0);
        words.push(0);
        assert(self.glyph_indices@.take(MAX_TEXT_CHARS as int) =~= self.slots());
        assert(words@ =~= self.words());
        let bytes = encode_u32_le(&words);
        proof {
            assert forall|k: int| 0 <= k < 104 implies #[trigger] le_word_at(bytes@, k) == self.words()[k] by {
                lemma_words_bytes_decode(self.words(), k);
            }
            assert(le_word_at(bytes@, 0) == self.words()[0]);
            assert forall|i: int| 0 <= i < MAX_TEXT_CHARS implies #[trigger] le_word_at(bytes@, 4 + i) == self.slots()[i] by {
                assert(le_word_at(bytes@, 4 + i) == self.words()[4 + i]);
            }
            assert forall|k: int| 1 <= k < 4 implies #[trigger] le_word_at(bytes@, k) == 0 by {
                assert(le_word_at(bytes@, k) == self.words()[k]);
            }
            assert forall|k: int| 100 <= k < 104 implies #[trigger] le_word_at(bytes@, k) == 0 by {
                assert(le_word_at(bytes@, k) == self.words()[k]);
            }
        }
        bytes
    }
}

/// Size of the text block on screen, in pixels: `MAX_TEXT_CHARS` character advances
/// wide, one scaled glyph high.
pub fn text_block_size() -> (r: (u32, u32))
    ensures
        r.0 == GLYPH_ADVANCE * MAX_TEXT_CHARS,
        r.1 == GLYPH_H * GLYPH_SCALE,
{
    let text_width: u32 = GLYPH_ADVANCE * (MAX_TEXT_CHARS as u32);
    let text_height: u32 = GLYPH_H * GLYPH_SCALE;
    (text_width, text_height)
}

/// The overlay ignores case: a text and its upper-cased form show the same glyphs.
pub proof fn lemma_text_case_insensitive(text: Seq<char>)
    ensures
        text_glyphs(text) == text_glyphs(text.map_values(|c: char| ascii_upper(c))),
{
    let upper = text.map_values(|c: char| ascii_upper(c));
    assert forall|i: int| 0 <= i < text_glyphs(text).len() implies #[trigger] text_glyphs(text)[i]
        == text_glyphs(upper)[i] by {
        lemma_case_insensitive(text[i], 0);
    }
    assert(text_glyphs(text) =~= text_glyphs(upper));
}

/// Only the first `MAX_TEXT_CHARS` characters matter: what follows them is not shown.
pub proof fn lemma_text_cut(text: Seq<char>, rest: Seq<char>)
    requires
        text.len() >= MAX_TEXT_CHARS,
    ensures
        text_glyphs(text + rest) == text_glyphs(text),
        text_glyphs(text).len() == MAX_TEXT_CHARS,
{
    assert(text_glyphs(text + rest) =~= text_glyphs(text));
}

/// A text no longer than `MAX_TEXT_CHARS` is shown whole, one glyph per character.
pub proof fn lemma_short_text_shown_whole(text: Seq<char>)
    requires
        text.len() <= MAX_TEXT_CHARS,
    ensures
        text_glyphs(text).len() == text.len(),
{
}

/// The overlay shows each of the first `MAX_TEXT_CHARS` characters of a text, in order,
/// with the glyph that draws that very character: the shown slot `i` points at the
/// upper-case form of character `i` in the font's set, or at the space when the font
/// lacks it.
pub proof fn lemma_text_shows_each_char(text: Seq<char>, i: int)
    requires
        0 <= i < text.len(),
        i < MAX_TEXT_CHARS,
    ensures
        i < text_glyphs(text).len(),
        text_glyphs(text)[i] < GLYPH_COUNT,
        glyph_charset().contains(ascii_upper(text[i])) ==> glyph_charset()[text_glyphs(text)[i] as int]
            == ascii_upper(text[i]),
        !glyph_charset().contains(ascii_upper(text[i])) ==> text_glyphs(text)[i] == SPACE_GLYPH_INDEX,
{
    lemma_glyph_index_draws_char(text[i]);
}

/// The overlay shows as many characters as the text has, up to `MAX_TEXT_CHARS`, and
/// each shown slot holds the glyph index of its own character.
pub proof fn lemma_text_shows_each_char_all(text: Seq<char>)
    ensures
        text_glyphs(text).len() == if text.len() < MAX_TEXT_CHARS { text.len() } else { MAX_TEXT_CHARS as nat },
        forall|i: int| 0 <= i < text_glyphs(text).len() ==> #[trigger] text_glyphs(text)[i]
            == glyph_index_of(text[i]),
{
}

} // verus!
