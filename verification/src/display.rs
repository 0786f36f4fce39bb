//! Choosing the display a window is on, and reading what the display reports about
//! itself: the overlap of the window with each monitor, whether a monitor's colour
//! space is an HDR one, and its device name.
use vstd::prelude::*;

verus! {

/// A screen rectangle in desktop coordinates; `right` and `bottom` are exclusive.
#[derive(Clone, Copy, Debug, PartialEq, Eq, Structural)]
pub struct Rect {
    pub left: i32,
    pub top: i32,
    pub right: i32,
    pub bottom: i32,
}

/// Full-range RGB with the PQ (SMPTE ST 2084) transfer and BT.2020 primaries.
pub const COLOR_SPACE_RGB_FULL_G2084_NONE_P2020: i32 = 12;

/// Studio-range RGB with the PQ (SMPTE ST 2084) transfer and BT.2020 primaries.
pub const COLOR_SPACE_RGB_STUDIO_G2084_NONE_P2020: i32 = 14;

pub open spec fn max_i(a: int, b: int) -> int {
    if a >= b { a } else { b }
}

pub open spec fn min_i(a: int, b: int) -> int {
    if a <= b { a } else { b }
}

/// Length of the overlap of the intervals [lo1, hi1) and [lo2, hi2); 0 when they
/// do not overlap.
pub open spec fn overlap_len(lo1: int, hi1: int, lo2: int, hi2: int) -> int {
    max_i(min_i(hi1, hi2) - max_i(lo1, lo2), 0)
}

/// Area of the intersection of two rectangles.
pub open spec fn intersection(a: Rect, b: Rect) -> int {
    overlap_len(a.left as int, a.right as int, b.left as int, b.right as int) * overlap_len(
        a.top as int,
        a.bottom as int,
        b.top as int,
        b.bottom as int,
    )
}

/// The extent of the overlap of two rectangles fits in 32 bits on both axes, so that
/// it can be computed in `i32`.
pub open spec fn overlap_fits(a: Rect, b: Rect) -> bool {
    &&& i32::MIN <= min_i(a.right as int, b.right as int) - max_i(a.left as int, b.left as int) <= i32::MAX
    &&& i32::MIN <= min_i(a.bottom as int, b.bottom as int) - max_i(a.top as int, b.top as int) <= i32::MAX
}

/// Area of the rectangle `r`, or 0 when it is empty.
pub open spec fn area(r: Rect) -> int {
    max_i(r.right - r.left, 0) * max_i(r.bottom - r.top, 0)
}

/// Area of the intersection of two rectangles, in square pixels.
pub fn intersection_area(a: Rect, b: Rect) -> (r: i64)
    requires
        overlap_fits(a, b),
    ensures
        r == intersection(a, b),
        r >= 0,
{
    let left = if a.left >= b.left { a.left } else { b.left };
    let top = if a.top >= b.top { a.top } else { b.top };
    let right = if a.right <= b.right { a.right } else { b.right };
    let bottom = if a.bottom <= b.bottom { a.bottom } else { b.bottom };
    let w: i32 = right - left;
    let h: i32 = bottom - top;
    let width: i64 = (if w >= 0 { w } else { 0 }) as i64;
    let height: i64 = (if h >= 0 { h } else { 0 }) as i64;
    assert(0 <= width * height <= 0x7fff_ffff * 0x7fff_ffff) by (nonlinear_arith)
        requires
            0 <= width <= 0x7fff_ffff,
            0 <= height <= 0x7fff_ffff,
    ;
    width * height
}

/// Which display a window is on: the index of the output whose desktop rectangle
/// overlaps the window the most; the first such output when several tie; `None` when
/// there is no output.
pub fn best_output_for_window(window: Rect, outputs: &Vec<Rect>) -> (best: Option<usize>)
    requires
        forall|i: int| 0 <= i < outputs@.len() ==> overlap_fits(window, #[trigger] outputs@[i]),
    ensures
        best is None <==> outputs@.len() == 0,
        best matches Some(k) ==> {
            &&& k < outputs@.len()
            &&& forall|j: int|
                0 <= j < outputs@.len() ==> intersection(window, #[trigger] outputs@[j])
                    <= intersection(window, outputs@[k as int])
            &&& forall|j: int|
                0 <= j < k ==> intersection(window, #[trigger] outputs@[j]) < intersection(
                    window,
                    outputs@[k as int],
                )
        },
{
    let mut best: Option<usize> = None;
    let mut best_intersection: i64 = -1;
    let mut i: usize = 0;
    while i < outputs.len()
        invariant
            0 <= i <= outputs@.len(),
            forall|j: int| 0 <= j < outputs@.len() ==> overlap_fits(window, #[trigger] outputs@[j]),
            best is None <==> i == 0,
            best is None ==> best_intersection == -1,
            best matches Some(k) ==> {
                &&& k < i
                &&& best_intersection == intersection(window, outputs@[k as int])
                &&& forall|j: int|
                    0 <= j < i ==> intersection(window, #[trigger] outputs@[j]) <= best_intersection
                &&& forall|j: int|
                    0 <= j < k ==> intersection(window, #[trigger] outputs@[j]) < best_intersection
            },
        decreases outputs@.len() - i,
    {
        let inter = intersection_area(window, outputs[i]);
        if inter > best_intersection {
            best_intersection = inter;
            best = Some(i);
        }
        i = i + 1;
    }
    best
}

/// Whether a display colour space (a DXGI colour-space code) carries HDR: RGB with the
/// PQ transfer and BT.2020 primaries, full or studio range.
pub fn is_hdr_colorspace(color_space: i32) -> (r: bool)
    ensures
        r <==> (color_space == COLOR_SPACE_RGB_FULL_G2084_NONE_P2020 || color_space
            == COLOR_SPACE_RGB_STUDIO_G2084_NONE_P2020),
{
    color_space == COLOR_SPACE_RGB_FULL_G2084_NONE_P2020 || color_space
        == COLOR_SPACE_RGB_STUDIO_G2084_NONE_P2020
}

/// Length of a NUL-terminated UTF-16 string held in a fixed buffer: the position of
/// the first 0 unit, or the whole buffer when it has none.
pub open spec fn wide_len(wide: Seq<u16>) -> int {
    if wide.contains(0u16) {
        wide.index_of_first(0u16).unwrap()
    } else {
        wide.len() as int
    }
}

/// Position of the first 0 unit of `wide`, or its length when it has none.
pub fn nul_terminated_len(wide: &[u16]) -> (n: usize)
    ensures
        n == wide_len(wide@),
        n <= wide@.len(),
        forall|j: int| 0 <= j < n ==> wide@[j] != 0u16,
        n < wide@.len() ==> wide@[n as int] == 0u16,
{
    proof {
        wide@.index_of_first_ensures(0u16);
    }
    let mut i: usize = 0;
    while i < wide.len()
        invariant
            0 <= i <= wide@.len(),
            forall|j: int| 0 <= j < i ==> wide@[j] != 0u16,
            match wide@.index_of_first(0u16) {
                Some(index) => {
                    &&& wide@.contains(0u16)
                    &&& 0 <= index < wide@.len()
                    &&& wide@[index] == 0u16
                    &&& forall|j: int| 0 <= j < index < wide@.len() ==> wide@[j] != 0u16
                },
                None => !wide@.contains(0u16),
            },
        decreases wide@.len() - i,
    {
        if wide[i] == 0 {
            assert(wide@.contains(0u16));
            return i;
        }
        i = i + 1;
    }
    assert(!wide@.contains(0u16));
    i
}

/// A UTF-16 unit that starts a surrogate pair.
pub open spec fn is_high_surrogate(u: u16) -> bool {
    0xD800 <= u && u <= 0xDBFF
}

/// A UTF-16 unit that ends a surrogate pair.
pub open spec fn is_low_surrogate(u: u16) -> bool {
    0xDC00 <= u && u <= 0xDFFF
}

/// The character that a high and a low surrogate encode together.
pub open spec fn surrogate_pair_char(hi: u16, lo: u16) -> char {
    (0x10000 + (hi - 0xD800) * 1024 + (lo - 0xDC00)) as char
}

/// Lossy UTF-16 decoding: a high surrogate followed by a low one gives the character
/// they encode; any other surrogate gives U+FFFD and the decoding goes on with the
/// next unit; every other unit gives the character with that code.
pub open spec fn utf16_decode_lossy(units: Seq<u16>) -> Seq<char>
    decreases units.len(),
{
    if units.len() == 0 {
        Seq::empty()
    } else if is_high_surrogate(units[0]) && units.len() >= 2 && is_low_surrogate(units[1]) {
        seq![surrogate_pair_char(units[0], units[1])] + utf16_decode_lossy(units.skip(2))
    } else if is_high_surrogate(units[0]) || is_low_surrogate(units[0]) {
        seq!['\u{FFFD}'] + utf16_decode_lossy(units.skip(1))
    } else {
        seq![(units[0] as u32) as char] + utf16_decode_lossy(units.skip(1))
    }
}

/// Whether `units` is well-formed UTF-16: every high surrogate is followed by a low
/// one, and every low surrogate follows a high one.
pub open spec fn is_well_formed_utf16(units: Seq<u16>) -> bool
    decreases units.len(),
{
    if units.len() == 0 {
        true
    } else if is_high_surrogate(units[0]) && units.len() >= 2 && is_low_surrogate(units[1]) {
        is_well_formed_utf16(units.skip(2))
    } else if is_high_surrogate(units[0]) || is_low_surrogate(units[0]) {
        false
    } else {
        is_well_formed_utf16(units.skip(1))
    }
}

/// The UTF-16 units of one character.
pub open spec fn utf16_encode_char(c: char) -> Seq<u16> {
    let v = c as u32;
    if v < 0x10000 {
        seq![v as u16]
    } else {
        seq![(0xD800 + (v - 0x10000) / 1024) as u16, (0xDC00 + (v - 0x10000) % 1024) as u16]
    }
}

/// The UTF-16 units of a text.
pub open spec fn utf16_encode(text: Seq<char>) -> Seq<u16>
    decreases text.len(),
{
    if text.len() == 0 {
        Seq::empty()
    } else {
        utf16_encode_char(text[0]) + utf16_encode(text.drop_first())
    }
}

/// Calls `String::from_utf16_lossy`, which decodes UTF-16 and puts U+FFFD in place of
/// each unpaired surrogate, going on with the unit after it.
#[verifier::external_body]
fn decode_utf16_lossy(units: &[u16]) -> (s: String)
    ensures
        s@ == utf16_decode_lossy(units@),
{
    String::from_utf16_lossy(units)
}

/// Units none of which is a surrogate decode one for one to the characters with
/// those codes.
pub proof fn lemma_decode_without_surrogates(units: Seq<u16>)
    requires
        forall|i: int| 0 <= i < units.len() ==> #[trigger] units[i] < 0xD800u16 || units[i] > 0xDFFFu16,
    ensures
        utf16_decode_lossy(units) == Seq::new(units.len(), |i: int| (units[i] as u32) as char),
    decreases units.len(),
{
    if units.len() > 0 {
        let rest = units.skip(1);
        assert forall|i: int| 0 <= i < rest.len() implies #[trigger] rest[i] < 0xD800u16 || rest[i] > 0xDFFFu16 by {
            assert(rest[i] == units[i + 1]);
        }
        lemma_decode_without_surrogates(rest);
        assert(units[0] < 0xD800u16 || units[0] > 0xDFFFu16);
        assert(utf16_decode_lossy(units) =~= Seq::new(units.len(), |i: int| (units[i] as u32) as char));
    }
}

/// Decoding well-formed UTF-16 and encoding the result again gives back the units.
pub proof fn lemma_utf16_roundtrip(units: Seq<u16>)
    requires
        is_well_formed_utf16(units),
    ensures
        utf16_encode(utf16_decode_lossy(units)) == units,
    decreases units.len(),
{
    if units.len() > 0 {
        let d = utf16_decode_lossy(units);
        if is_high_surrogate(units[0]) && units.len() >= 2 && is_low_surrogate(units[1]) {
            let rest = units.skip(2);
            lemma_utf16_roundtrip(rest);
            let hi = units[0];
            let lo = units[1];
            let x: int = (hi - 0xD800) * 1024 + (lo - 0xDC00);
            assert(0 <= x < 0x100000);
            let c = surrogate_pair_char(hi, lo);
            assert(c as u32 == 0x10000 + x);
            vstd::arithmetic::div_mod::lemma_fundamental_div_mod_converse(
                x,
                1024,
                hi - 0xD800,
                lo - 0xDC00,
            );
            assert(utf16_encode_char(c) =~= seq![hi, lo]);
            assert(d[0] == c);
            assert(d.drop_first() =~= utf16_decode_lossy(rest));
            assert(units =~= seq![hi, lo] + rest);
        } else {
            let rest = units.skip(1);
            lemma_utf16_roundtrip(rest);
            let c = (units[0] as u32) as char;
            assert(c as u32 == units[0] as u32);
            assert(utf16_encode_char(c) =~= seq![units[0]]);
            assert(d[0] == c);
            assert(d.drop_first() =~= utf16_decode_lossy(rest));
            assert(units =~= seq![units[0]] + rest);
        }
    }
}

/// The text of a NUL-terminated UTF-16 buffer (such as a Windows device name): the
/// units before the first 0, decoded with invalid units replaced.
pub fn wide_to_string(wide: &[u16]) -> (s: String)
    ensures
        s@ == utf16_decode_lossy(wide@.take(wide_len(wide@))),
        (forall|i: int| 0 <= i < wide_len(wide@) ==> #[trigger] wide@[i] < 0xD800u16 || wide@[i] > 0xDFFFu16)
            ==> s@ == Seq::new(wide_len(wide@) as nat, |i: int| (wide@[i] as u32) as char),
{
    let len = nul_terminated_len(wide);
    let (head, _) = wide.split_at(len);
    assert(head@ =~= wide@.take(len as int));
    let s = decode_utf16_lossy(head);
    proof {
        if forall|i: int| 0 <= i < wide_len(wide@) ==> #[trigger] wide@[i] < 0xD800u16 || wide@[i] > 0xDFFFu16 {
            assert forall|i: int| 0 <= i < head@.len() implies #[trigger] head@[i] < 0xD800u16 || head@[i] > 0xDFFFu16 by {
                assert(head@[i] == wide@[i]);
            }
            lemma_decode_without_surrogates(head@);
            assert(s@ =~= Seq::new(wide_len(wide@) as nat, |i: int| (wide@[i] as u32) as char));
        }
    }
    s
}

/// Everything from the first 0 unit on is ignored: a name followed by a NUL and any
/// further units reads as the name alone.
pub proof fn lemma_wide_ignores_after_nul(name: Seq<u16>, rest: Seq<u16>)
    requires
        !name.contains(0u16),
    ensures
        wide_len(name + seq![0u16] + rest) == name.len(),
        (name + seq![0u16] + rest).take(wide_len(name + seq![0u16] + rest)) == name,
        wide_len(name) == name.len(),
{
    let w = name + seq![0u16] + rest;
    assert(w[name.len() as int] == 0u16);
    assert(w.contains(0u16));
    w.index_of_first_ensures(0u16);
    let k = w.index_of_first(0u16).unwrap();
    if k < name.len() {
        assert(name[k] == w[k]);
        assert(name.contains(0u16));
    }
    assert(w.take(name.len() as int) =~= name);
}

/// The overlap of two rectangles does not depend on their order.
pub proof fn lemma_intersection_symmetric(a: Rect, b: Rect)
    ensures
        intersection(a, b) == intersection(b, a),
{
}

/// The overlap of two rectangles is never larger than either rectangle.
pub proof fn lemma_intersection_bounded(a: Rect, b: Rect)
    ensures
        0 <= intersection(a, b) <= area(a),
        intersection(a, b) <= area(b),
{
    let wa = max_i(a.right - a.left, 0);
    let ha = max_i(a.bottom - a.top, 0);
    let wb = max_i(b.right - b.left, 0);
    let hb = max_i(b.bottom - b.top, 0);
    let w = overlap_len(a.left as int, a.right as int, b.left as int, b.right as int);
    let h = overlap_len(a.top as int, a.bottom as int, b.top as int, b.bottom as int);
    assert(0 <= w <= wa && w <= wb);
    assert(0 <= h <= ha && h <= hb);
    assert(0 <= w * h <= wa * ha) by (nonlinear_arith)
        requires
            0 <= w <= wa,
            0 <= h <= ha,
    ;
    assert(w * h <= wb * hb) by (nonlinear_arith)
        requires
            0 <= w <= wb,
            0 <= h <= hb,
    ;
}

/// A rectangle overlaps itself in its whole area.
pub proof fn lemma_intersection_self(a: Rect)
    ensures
        intersection(a, a) == area(a),
{
}

/// Rectangles that lie side by side, or one above the other, do not overlap.
pub proof fn lemma_intersection_disjoint(a: Rect, b: Rect)
    requires
        a.right <= b.left || b.right <= a.left || a.bottom <= b.top || b.bottom <= a.top,
    ensures
        intersection(a, b) == 0,
{
    let w = overlap_len(a.left as int, a.right as int, b.left as int, b.right as int);
    let h = overlap_len(a.top as int, a.bottom as int, b.top as int, b.bottom as int);
    assert(w == 0 || h == 0);
    assert(w * h == 0) by (nonlinear_arith)
        requires
            w == 0 || h == 0,
    ;
}

} // verus!
