//! Little-endian packing of integers into bytes, the layout in which the viewer hands
//! its buffers to the GPU, and unpacking of 16-bit samples read from raw image files.
use vstd::prelude::*;

verus! {

/// Byte `k` (0 = least significant) of the little-endian form of `w`.
pub open spec fn le_byte(w: u32, k: int) -> u8 {
    if k == 0 {
        (w % 256) as u8
    } else if k == 1 {
        ((w / 256) % 256) as u8
    } else if k == 2 {
        ((w / 65536) % 256) as u8
    } else {
        (w / 16777216) as u8
    }
}

/// The little-endian bytes of a sequence of 32-bit words, four bytes per word.
pub open spec fn le_words_bytes(words: Seq<u32>) -> Seq<u8> {
    Seq::new(4 * words.len(), |i: int| le_byte(words[i / 4], i % 4))
}

/// The 16-bit value whose little-endian bytes are `lo` and `hi`.
pub open spec fn u16_from_le(lo: u8, hi: u8) -> u16 {
    (lo as int + 256 * (hi as int)) as u16
}

/// The 16-bit little-endian samples held in `bytes`, two bytes each; a trailing odd
/// byte is not part of any sample.
pub open spec fn le_u16_samples(bytes: Seq<u8>) -> Seq<u16> {
    Seq::new(bytes.len() / 2, |i: int| u16_from_le(bytes[2 * i], bytes[2 * i + 1]))
}

/// The four bytes of a word, taken together, give back the word.
pub proof fn lemma_le_bytes_roundtrip(w: u32)
    ensures
        le_byte(w, 0) as int + 256 * (le_byte(w, 1) as int) + 65536 * (le_byte(w, 2) as int)
            + 16777216 * (le_byte(w, 3) as int) == w as int,
{
}

/// Appends the little-endian bytes of `w`.
fn push_u32_le(out: &mut Vec<u8>, w: u32)
    ensures
        final(out)@ == old(out)@ + seq![le_byte(w, 0), le_byte(w, 1), le_byte(w, 2), le_byte(w, 3)],
{
    out.push((w % 256) as u8);
    out.push(((w / 256) % 256) as u8);
    out.push(((w / 65536) % 256) as u8);
    out.push((w / 16777216) as u8);
}

/// Packs 32-bit words into bytes, little-endian, four bytes per word.
pub fn encode_u32_le(words: &Vec<u32>) -> (bytes: Vec<u8>)
    requires
        4 * words@.len() <= usize::MAX,
    ensures
        bytes@ == le_words_bytes(words@),
{
    let mut bytes: Vec<u8> = Vec::new();
    let mut k: usize = 0;
    while k < words.len()
        invariant
            0 <= k <= words@.len(),
            4 * words@.len() <= usize::MAX,
            bytes@.len() == 4 * k,
            forall|i: int| 0 <= i < 4 * k ==> #[trigger] bytes@[i] == le_byte(words@[i / 4], i % 4),
        decreases words@.len() - k,
    {
        let ghost before = bytes@;
        push_u32_le(&mut bytes, words[k]);
        assert forall|i: int| 0 <= i < 4 * (k + 1) implies #[trigger] bytes@[i] == le_byte(
            words@[i / 4],
            i % 4,
        ) by {
            if i >= 4 * k {
                vstd::arithmetic::div_mod::lemma_fundamental_div_mod_converse(
                    i,
                    4,
                    k as int,
                    i - 4 * k,
                );
            }
        }
        k = k + 1;
    }
    assert(bytes@ =~= le_words_bytes(words@));
    bytes
}

/// Reads consecutive 16-bit little-endian samples from `bytes`; a trailing odd byte
/// is ignored.
pub fn decode_u16_le(bytes: &[u8]) -> (samples: Vec<u16>)
    ensures
        samples@ == le_u16_samples(bytes@),
        samples@.len() == bytes@.len() / 2,
        forall|i: int| 0 <= i < samples@.len() ==> #[trigger] samples@[i] as int == bytes@[2 * i] as int + 256
            * (bytes@[2 * i + 1] as int),
{
    let mut samples: Vec<u16> = Vec::new();
    let n: usize = bytes.len() / 2;
    assert(bytes@.len() == bytes.len());
    let mut i: usize = 0;
    while i < n
        invariant
            n == bytes@.len() / 2,
            bytes@.len() <= usize::MAX,
            0 <= i <= n,
            samples@.len() == i,
            forall|j: int| 0 <= j < i ==> #[trigger] samples@[j] == u16_from_le(bytes@[2 * j], bytes@[2 * j + 1]),
        decreases n - i,
    {
        let lo: u8 = bytes[2 * i];
        let hi: u8 = bytes[2 * i + 1];
        samples.push((lo as u16) + 256 * (hi as u16));
        i = i + 1;
    }
    assert(samples@ =~= le_u16_samples(bytes@));
    samples
}

/// The 32-bit little-endian word made of bytes `4k` to `4k + 3` of `bytes`.
pub open spec fn le_word_at(bytes: Seq<u8>, k: int) -> int {
    bytes[4 * k] as int + 256 * (bytes[4 * k + 1] as int) + 65536 * (bytes[4 * k + 2] as int)
        + 16777216 * (bytes[4 * k + 3] as int)
}

/// Every word can be read back from its four bytes in the packed form.
pub proof fn lemma_words_bytes_decode(words: Seq<u32>, k: int)
    requires
        0 <= k < words.len(),
    ensures
        le_word_at(le_words_bytes(words), k) == words[k] as int,
{
    let b = le_words_bytes(words);
    assert forall|j: int| 0 <= j < 4 implies #[trigger] b[4 * k + j] == le_byte(words[k], j) by {
        vstd::arithmetic::div_mod::lemma_fundamental_div_mod_converse(4 * k + j, 4, k, j);
    }
    assert(b[4 * k + 0] == le_byte(words[k], 0));
    lemma_le_bytes_roundtrip(words[k]);
}

/// Decoding the little-endian bytes of 16-bit samples gives back the samples.
pub proof fn lemma_u16_roundtrip(x: u16)
    ensures
        u16_from_le((x % 256) as u8, (x / 256) as u8) == x,
{
}

/// The little-endian bytes of a sequence of 16-bit samples, two bytes per sample.
pub open spec fn le_u16_bytes(samples: Seq<u16>) -> Seq<u8> {
    Seq::new(2 * samples.len(), |i: int| if i % 2 == 0 { (samples[i / 2] % 256) as u8 } else { (samples[i / 2] / 256) as u8 })
}

/// Every decoded sample is the little-endian value of its own two bytes, wherever it
/// lies in the input: sample `i` is byte `2i` plus 256 times byte `2i + 1`.
pub proof fn lemma_samples_are_their_bytes(bytes: Seq<u8>, i: int)
    requires
        0 <= i < bytes.len() / 2,
    ensures
        le_u16_samples(bytes).len() == bytes.len() / 2,
        le_u16_samples(bytes)[i] as int == bytes[2 * i] as int + 256 * (bytes[2 * i + 1] as int),
{
}

/// Decoding gives back any samples from their little-endian bytes.
pub proof fn lemma_samples_roundtrip(samples: Seq<u16>)
    ensures
        le_u16_samples(le_u16_bytes(samples)) == samples,
{
    let b = le_u16_bytes(samples);
    assert forall|i: int| 0 <= i < samples.len() implies #[trigger] le_u16_samples(b)[i] == samples[i] by {
        vstd::arithmetic::div_mod::lemma_fundamental_div_mod_converse(2 * i, 2, i, 0);
        vstd::arithmetic::div_mod::lemma_fundamental_div_mod_converse(2 * i + 1, 2, i, 1);
    }
    assert(le_u16_samples(b) =~= samples);
}

/// Decoding two byte runs of even length one after the other is decoding them joined:
/// no sample depends on where it lies in the input.
pub proof fn lemma_samples_concat(a: Seq<u8>, b: Seq<u8>)
    requires
        a.len() % 2 == 0,
    ensures
        le_u16_samples(a + b) == le_u16_samples(a) + le_u16_samples(b),
{
    let j = a + b;
    assert((a.len() + b.len()) / 2 == a.len() / 2 + b.len() / 2);
    assert forall|i: int| 0 <= i < le_u16_samples(j).len() implies #[trigger] le_u16_samples(j)[i]
        == (le_u16_samples(a) + le_u16_samples(b))[i] by {
        if i >= a.len() / 2 {
            let k = i - a.len() / 2;
            assert(2 * i == a.len() + 2 * k);
            assert(j[2 * i] == b[2 * k]);
            assert(j[2 * i + 1] == b[2 * k + 1]);
        }
    }
    assert(le_u16_samples(j) =~= le_u16_samples(a) + le_u16_samples(b));
}

} // verus!
