//! Turning decoded image data into the three single-channel planes the viewer uploads:
//! splitting interleaved RGB samples, and cutting a raw 16-bit 4:2:0 YUV frame into
//! its Y, U and V planes.
use vstd::prelude::*;

use crate::bytes::{decode_u16_le, le_u16_samples};
use vstd::std_specs::iter::IteratorSpec;

verus! {

/// The three channels of interleaved three-sample pixels: channel `c` holds sample `c`
/// of every complete pixel; a trailing incomplete pixel is dropped.
pub open spec fn channel_of<T>(data: Seq<T>, c: int) -> Seq<T> {
    Seq::new(data.len() / 3, |i: int| data[3 * i + c])
}

/// Splits interleaved `[r, g, b, r, g, b, ...]` samples into separate red, green and
/// blue channels; a trailing incomplete pixel is dropped.
pub fn deinterleave3<T: Copy>(data: &[T]) -> (channels: (Vec<T>, Vec<T>, Vec<T>))
    ensures
        channels.0@ == channel_of(data@, 0),
        channels.1@ == channel_of(data@, 1),
        channels.2@ == channel_of(data@, 2),
{
    let n: usize = data.len() / 3;
    let mut r: Vec<T> = Vec::with_capacity(n);
    let mut g: Vec<T> = Vec::with_capacity(n);
    let mut b: Vec<T> = Vec::with_capacity(n);
    assert(data@.len() == data.len());
    let mut i: usize = 0;
    while i < n
        invariant
            n == data@.len() / 3,
            data@.len() <= usize::MAX,
            0 <= i <= n,
            r@.len() == i,
            g@.len() == i,
            b@.len() == i,
            forall|j: int| 0 <= j < i ==> #[trigger] r@[j] == data@[3 * j],
            forall|j: int| 0 <= j < i ==> #[trigger] g@[j] == data@[3 * j + 1],
            forall|j: int| 0 <= j < i ==> #[trigger] b@[j] == data@[3 * j + 2],
        decreases n - i,
    {
        r.push(data[3 * i]);
        g.push(data[3 * i + 1]);
        b.push(data[3 * i + 2]);
        i = i + 1;
    }
    assert(r@ =~= channel_of(data@, 0));
    assert(g@ =~= channel_of(data@, 1));
    assert(b@ =~= channel_of(data@, 2));
    (r, g, b)
}

/// Byte lengths of the Y, U and V planes of a 16-bit 4:2:0 frame of `w` by `h`
/// pixels: two bytes per luma sample, and chroma at half the resolution on each axis
/// (computed as `w / 2 * h / 2 * 2`, left to right).
pub open spec fn yuv420_lens(w: int, h: int) -> (int, int, int) {
    let y_len = w * h * 2;
    let u_len = (w / 2) * h / 2 * 2;
    (y_len, u_len, u_len)
}

/// The frame fits in 32-bit byte counts.
pub open spec fn yuv420_fits(w: int, h: int) -> bool {
    let (y, u, v) = yuv420_lens(w, h);
    y + u + v <= u32::MAX
}

/// Byte lengths of the Y, U and V planes of a 16-bit 4:2:0 frame of `w` by `h` pixels.
pub fn yuv420_plane_lens(w: u16, h: u16) -> (lens: (u32, u32, u32))
    requires
        yuv420_fits(w as int, h as int),
    ensures
        (lens.0 as int, lens.1 as int, lens.2 as int) == yuv420_lens(w as int, h as int),
{
    let w: u32 = w as u32;
    let h: u32 = h as u32;
    proof {
        let wi = w as int;
        let hi = h as int;
        assert(0 <= (wi / 2) * hi / 2 * 2 <= wi * hi) by (nonlinear_arith)
            requires
                0 <= wi,
                0 <= hi,
        ;
        assert(0 <= (wi / 2) * hi) by (nonlinear_arith)
            requires
                0 <= wi,
                0 <= hi,
        ;
        assert((wi / 2) * hi <= wi * hi) by (nonlinear_arith)
            requires
                0 <= wi,
                0 <= hi,
        ;
    }
    let y_len: u32 = w * h * 2;
    let u_len: u32 = w / 2 * h / 2 * 2;
    let v_len: u32 = u_len;
    (y_len, u_len, v_len)
}

/// Cuts a raw 16-bit little-endian 4:2:0 frame into its Y, U and V planes, each
/// decoded into samples. The frame must have exactly the length of its three planes.
pub fn split_yuv420(data: &[u8], w: u16, h: u16) -> (planes: (Vec<u16>, Vec<u16>, Vec<u16>))
    requires
        yuv420_fits(w as int, h as int),
        data@.len() == yuv420_lens(w as int, h as int).0 + yuv420_lens(w as int, h as int).1
            + yuv420_lens(w as int, h as int).2,
    ensures
        ({
            let (y_len, u_len, v_len) = yuv420_lens(w as int, h as int);
            &&& planes.0@ == le_u16_samples(data@.subrange(0, y_len))
            &&& planes.1@ == le_u16_samples(data@.subrange(y_len, y_len + u_len))
            &&& planes.2@ == le_u16_samples(data@.subrange(y_len + u_len, y_len + u_len + v_len))
        }),
        planes.0@.len() == yuv420_lens(w as int, h as int).0 / 2,
        forall|i: int| 0 <= i < planes.0@.len() ==> #[trigger] planes.0@[i] as int == data@[2 * i] as int
            + 256 * (data@[2 * i + 1] as int),
        forall|i: int| 0 <= i < planes.1@.len() ==> #[trigger] planes.1@[i] as int == data@[yuv420_lens(w as int, h as int).0 + 2 * i] as int
            + 256 * (data@[yuv420_lens(w as int, h as int).0 + 2 * i + 1] as int),
        forall|i: int| 0 <= i < planes.2@.len() ==> #[trigger] planes.2@[i] as int == data@[yuv420_lens(w as int, h as int).0 + yuv420_lens(w as int, h as int).1 + 2 * i] as int
            + 256 * (data@[yuv420_lens(w as int, h as int).0 + yuv420_lens(w as int, h as int).1 + 2 * i + 1] as int),
{
    let (y_len, u_len, _v_len) = yuv420_plane_lens(w, h);
    let (y_bytes, rest) = data.split_at(y_len as usize);
    let (u_bytes, v_bytes) = rest.split_at(u_len as usize);
    assert(y_bytes@ =~= data@.subrange(0, y_len as int));
    assert(u_bytes@ =~= data@.subrange(y_len as int, y_len + u_len));
    assert(v_bytes@ =~= data@.subrange(y_len + u_len, data@.len() as int));
    let y = decode_u16_le(y_bytes);
    let u = decode_u16_le(u_bytes);
    let v = decode_u16_le(v_bytes);
    (y, u, v)
}

/// Interleaving the three channels again gives back every complete pixel of the input.
pub proof fn lemma_deinterleave_roundtrip<T>(data: Seq<T>, i: int, c: int)
    requires
        0 <= i < data.len() / 3,
        0 <= c < 3,
    ensures
        channel_of(data, c)[i] == data[3 * i + c],
        channel_of(data, c).len() * 3 <= data.len(),
{
}

/// The three planes of a frame together take exactly its length, and each plane holds
/// half as many samples as it has bytes.
pub proof fn lemma_yuv420_partition(data: Seq<u8>, w: int, h: int)
    requires
        0 <= w,
        0 <= h,
        data.len() == yuv420_lens(w, h).0 + yuv420_lens(w, h).1 + yuv420_lens(w, h).2,
    ensures
        ({
            let (y_len, u_len, v_len) = yuv420_lens(w, h);
            &&& le_u16_samples(data.subrange(0, y_len)).len() == w * h
            &&& le_u16_samples(data.subrange(y_len, y_len + u_len)).len() == u_len / 2
            &&& le_u16_samples(data.subrange(y_len + u_len, y_len + u_len + v_len)).len() == v_len / 2
        }),
{
    let (y_len, u_len, v_len) = yuv420_lens(w, h);
    assert(0 <= (w / 2) * h / 2 * 2) by (nonlinear_arith)
        requires
            0 <= w,
            0 <= h,
    ;
    assert(0 <= w * h) by (nonlinear_arith)
        requires
            0 <= w,
            0 <= h,
    ;
}

/// How an image file is opened.
#[derive(Clone, Copy, Debug, PartialEq, Eq, Structural)]
pub enum SourceKind {
    /// A raw 16-bit 4:2:0 YUV frame.
    RawYuv420,
    /// An image file that the image decoder reads.
    Decoded,
}

/// The characters of `yuv`.
pub open spec fn yuv_word() -> Seq<char> {
    seq!['y', 'u', 'v']
}

/// The characters of `exr`.
pub open spec fn exr_word() -> Seq<char> {
    seq!['e', 'x', 'r']
}

/// The characters of `.yuv`.
pub open spec fn yuv_suffix() -> Seq<char> {
    seq!['.', 'y', 'u', 'v']
}

/// Whether an optional file extension is exactly `word`.
pub open spec fn extension_is(extension: Option<&str>, word: Seq<char>) -> bool {
    match extension {
        Some(e) => e@ == word,
        None => false,
    }
}

/// The characters of `s`, in order.
fn chars_of(s: &str) -> (v: Vec<char>)
    ensures
        v@ == s@,
{
    broadcast use vstd::string::axiom_spec_iter, vstd::string::next_postcondition;

    let mut chars = s.chars();
    let mut v: Vec<char> = Vec::new();
    let mut exhausted = false;
    while !exhausted
        invariant
            v@.len() <= s@.len(),
            chars.remaining() == s@.skip(v@.len() as int),
            v@ == s@.take(v@.len() as int),
            exhausted ==> v@.len() == s@.len(),
        decreases s@.len() - v@.len(), if exhausted { 0int } else { 1int },
    {
        match chars.next() {
            Some(ch) => {
                assert(ch == s@[v@.len() as int]);
                v.push(ch);
                assert(v@ =~= s@.take(v@.len() as int));
                assert(chars.remaining() =~= s@.skip(v@.len() as int));
            },
            None => {
                exhausted = true;
            },
        }
    }
    assert(v@ =~= s@);
    v
}

/// Whether the characters `v[start..]` are exactly `word`.
fn tail_equals(v: &Vec<char>, start: usize, word: &[char]) -> (r: bool)
    requires
        start <= v@.len(),
    ensures
        r == (v@.subrange(start as int, v@.len() as int) == word@),
{
    assert(v@.len() == v.len());
    if v.len() - start != word.len() {
        assert(v@.subrange(start as int, v@.len() as int).len() != word@.len());
        return false;
    }
    let mut i: usize = 0;
    while i < word.len()
        invariant
            start <= v@.len(),
            v@.len() <= usize::MAX,
            v@.len() - start == word@.len(),
            0 <= i <= word@.len(),
            forall|k: int| 0 <= k < i ==> v@[start + k] == word@[k],
        decreases word@.len() - i,
    {
        if v[start + i] != word[i] {
            assert(v@.subrange(start as int, v@.len() as int)[i as int] != word@[i as int]);
            return false;
        }
        i = i + 1;
    }
    assert(v@.subrange(start as int, v@.len() as int) =~= word@);
    true
}

/// Whether an optional file extension is exactly the word `word`.
fn extension_equals(extension: Option<&str>, word: &[char]) -> (r: bool)
    ensures
        r == extension_is(extension, word@),
{
    match extension {
        Some(e) => {
            let v = chars_of(e);
            let r = tail_equals(&v, 0, word);
            assert(v@.subrange(0, v@.len() as int) =~= v@);
            r
        },
        None => false,
    }
}

/// How to open an image, given its file extension: a `yuv` extension means a raw
/// 16-bit 4:2:0 frame, anything else (or no extension) goes to the image decoder.
pub fn source_kind(extension: Option<&str>) -> (k: SourceKind)
    ensures
        k == SourceKind::RawYuv420 <==> extension_is(extension, seq!['y', 'u', 'v']),
{
    let yuv: [char; 3] = ['y', 'u', 'v'];
    assert(yuv@ =~= yuv_word());
    if extension_equals(extension, &yuv) {
        SourceKind::RawYuv420
    } else {
        SourceKind::Decoded
    }
}

/// Whether a file's extension is `exr`.
pub fn is_exr_extension(extension: Option<&str>) -> (r: bool)
    ensures
        r == extension_is(extension, seq!['e', 'x', 'r']),
{
    let exr: [char; 3] = ['e', 'x', 'r'];
    assert(exr@ =~= exr_word());
    extension_equals(extension, &exr)
}

/// Whether decoded samples are already linear light, so that no gamma is undone: when
/// the image declares a linear transfer, and for every EXR file.
pub fn samples_are_linear(extension: Option<&str>, transfer_is_linear: bool) -> (r: bool)
    ensures
        r == (transfer_is_linear || extension_is(extension, seq!['e', 'x', 'r'])),
{
    transfer_is_linear || is_exr_extension(extension)
}

/// Whether an image path ends in `.yuv`: its samples are then YUV rather than RGB.
pub fn path_names_yuv(path: &str) -> (r: bool)
    ensures
        r == (path@.len() >= 4 && path@.subrange(path@.len() - 4, path@.len() as int)
            == seq!['.', 'y', 'u', 'v']),
{
    let v = chars_of(path);
    if v.len() < 4 {
        return false;
    }
    let suffix: [char; 4] = ['.', 'y', 'u', 'v'];
    assert(suffix@ =~= yuv_suffix());
    tail_equals(&v, v.len() - 4, &suffix)
}

/// A luma plane holds two bytes for each of the `w * h` pixels; each chroma plane holds
/// two bytes for each pixel of a frame halved on both axes (for even sides).
pub proof fn lemma_yuv420_plane_sizes(w: int, h: int)
    requires
        0 <= w,
        0 <= h,
    ensures
        yuv420_lens(w, h).0 == 2 * (w * h),
        yuv420_lens(w, h).1 == yuv420_lens(w, h).2,
        w % 2 == 0 && h % 2 == 0 ==> yuv420_lens(w, h).1 == 2 * ((w / 2) * (h / 2)),
        w % 2 == 0 && h % 2 == 0 ==> 4 * yuv420_lens(w, h).1 == yuv420_lens(w, h).0,
{
    if w % 2 == 0 && h % 2 == 0 {
        let a = w / 2;
        let b = h / 2;
        assert(w == 2 * a);
        assert(h == 2 * b);
        assert(a * h == 2 * (a * b)) by (nonlinear_arith)
            requires
                h == 2 * b,
        ;
        assert((a * h) / 2 == a * b);
        assert(w * h == 4 * (a * b)) by (nonlinear_arith)
            requires
                w == 2 * a,
                h == 2 * b,
        ;
    }
    assert(w * h * 2 == 2 * (w * h)) by (nonlinear_arith);
}

/// Splitting interleaved samples swaps no channels: the red channel holds the first
/// sample of each pixel, green the second, blue the third.
pub proof fn lemma_channels_in_order<T>(data: Seq<T>, i: int)
    requires
        0 <= i < data.len() / 3,
    ensures
        channel_of(data, 0)[i] == data[3 * i],
        channel_of(data, 1)[i] == data[3 * i + 1],
        channel_of(data, 2)[i] == data[3 * i + 2],
        channel_of(data, 0).len() == data.len() / 3,
{
}

} // verus!
