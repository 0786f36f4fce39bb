use hdrview::display::{
    best_output_for_window, intersection_area, is_hdr_colorspace, nul_terminated_len,
    wide_to_string, Rect,
};

fn rect(left: i32, top: i32, right: i32, bottom: i32) -> Rect {
    Rect { left, top, right, bottom }
}

#[test]
fn intersection_of_overlapping_rects() {
    let a = rect(0, 0, 100, 50);
    let b = rect(50, 20, 200, 200);
    assert_eq!(intersection_area(a, b), 50 * 30);
    assert_eq!(intersection_area(b, a), 50 * 30);
}

#[test]
fn intersection_of_disjoint_rects_is_zero() {
    assert_eq!(intersection_area(rect(0, 0, 10, 10), rect(10, 0, 20, 10)), 0);
    assert_eq!(intersection_area(rect(0, 0, 10, 10), rect(30, 30, 40, 40)), 0);
    assert_eq!(intersection_area(rect(0, 0, 10, 10), rect(0, -20, 10, -5)), 0);
}

#[test]
fn intersection_with_itself_is_its_area() {
    let a = rect(-1920, -100, 1920, 980);
    assert_eq!(intersection_area(a, a), 3840 * 1080);
}

#[test]
fn intersection_of_large_rects_does_not_overflow() {
    let a = rect(-1_000_000_000, -1_000_000_000, 1_000_000_000, 1_000_000_000);
    assert_eq!(intersection_area(a, a), 2_000_000_000i64 * 2_000_000_000i64);
}

#[test]
fn window_goes_to_the_output_it_overlaps_most() {
    let window = rect(1800, 100, 2600, 700);
    let outputs = vec![rect(0, 0, 1920, 1080), rect(1920, 0, 3840, 1080)];
    assert_eq!(best_output_for_window(window, &outputs), Some(1));
}

#[test]
fn ties_go_to_the_first_output() {
    let window = rect(1820, 0, 2020, 100);
    let outputs = vec![rect(0, 0, 1920, 1080), rect(1920, 0, 3840, 1080)];
    assert_eq!(best_output_for_window(window, &outputs), Some(0));
}

#[test]
fn an_output_is_chosen_even_without_overlap() {
    let window = rect(5000, 5000, 5100, 5100);
    let outputs = vec![rect(0, 0, 1920, 1080), rect(1920, 0, 3840, 1080)];
    assert_eq!(best_output_for_window(window, &outputs), Some(0));
}

#[test]
fn no_outputs_no_choice() {
    assert_eq!(best_output_for_window(rect(0, 0, 1, 1), &vec![]), None);
}

#[test]
fn hdr_color_spaces() {
    assert!(is_hdr_colorspace(12));
    assert!(is_hdr_colorspace(14));
    assert!(!is_hdr_colorspace(0));
    assert!(!is_hdr_colorspace(13));
    assert!(!is_hdr_colorspace(-1));
}

#[test]
fn nul_terminated_lengths() {
    assert_eq!(nul_terminated_len(&[65, 66, 0, 67]), 2);
    assert_eq!(nul_terminated_len(&[0, 66]), 0);
    assert_eq!(nul_terminated_len(&[65, 66, 67]), 3);
    assert_eq!(nul_terminated_len(&[]), 0);
}

#[test]
fn device_names_stop_at_the_first_nul() {
    let mut buf = [0u16; 32];
    for (i, c) in r"\\.\DISPLAY1".encode_utf16().enumerate() {
        buf[i] = c;
    }
    buf[20] = 'X' as u16;
    assert_eq!(wide_to_string(&buf), r"\\.\DISPLAY1");
}

#[test]
fn wide_strings_without_nul_are_taken_whole() {
    let units: Vec<u16> = "MONITOR".encode_utf16().collect();
    assert_eq!(wide_to_string(&units), "MONITOR");
}

#[test]
fn surrogates_decode_or_are_replaced() {
    assert_eq!(wide_to_string(&[0xD83D, 0xDE00, 0]), "\u{1F600}");
    assert_eq!(wide_to_string(&[0x41, 0xD800, 0x42]), "A\u{FFFD}B");
}

#[test]
fn units_after_the_nul_are_ignored() {
    let name: Vec<u16> = "DISPLAY2".encode_utf16().collect();
    let mut buf = name.clone();
    buf.push(0);
    buf.extend_from_slice(&[0xD800, 0x41, 0]);
    assert_eq!(wide_to_string(&buf), wide_to_string(&name));
}

#[test]
fn well_formed_utf16_round_trips() {
    let units: Vec<u16> = "HDR \u{1F600} é 10\u{2009}nits".encode_utf16().collect();
    let text = wide_to_string(&units);
    assert_eq!(text.encode_utf16().collect::<Vec<u16>>(), units);
}

#[test]
fn lone_surrogates_are_replaced_one_by_one() {
    assert_eq!(wide_to_string(&[0xDC00, 0xD800, 0xD800, 0xDC01]), "\u{FFFD}\u{FFFD}\u{10001}");
    assert_eq!(wide_to_string(&[0xD800]), "\u{FFFD}");
}
