use hdrview::image_data::{
    deinterleave3, is_exr_extension, path_names_yuv, samples_are_linear, source_kind, split_yuv420,
    yuv420_plane_lens, SourceKind,
};

#[test]
fn interleaved_samples_split_into_channels() {
    let data = [1, 2, 3, 4, 5, 6, 7, 8, 9];
    let (r, g, b) = deinterleave3(&data);
    assert_eq!(r, vec![1, 4, 7]);
    assert_eq!(g, vec![2, 5, 8]);
    assert_eq!(b, vec![3, 6, 9]);
}

#[test]
fn incomplete_trailing_pixel_is_dropped() {
    let data = [0.5f32, 0.25, 0.125, 1.0, 2.0];
    let (r, g, b) = deinterleave3(&data);
    assert_eq!(r, vec![0.5]);
    assert_eq!(g, vec![0.25]);
    assert_eq!(b, vec![0.125]);
    let (r, g, b) = deinterleave3::<u8>(&[]);
    assert!(r.is_empty() && g.is_empty() && b.is_empty());
}

#[test]
fn yuv420_plane_lengths() {
    assert_eq!(yuv420_plane_lens(4, 2), (16, 4, 4));
    assert_eq!(yuv420_plane_lens(3, 2), (12, 2, 2));
    assert_eq!(yuv420_plane_lens(3840, 2160), (16_588_800, 4_147_200, 4_147_200));
    assert_eq!(yuv420_plane_lens(0, 7), (0, 0, 0));
}

#[test]
fn yuv420_frame_splits_into_planes() {
    // 4x2 frame: 8 luma samples, then 2 U and 2 V samples, little-endian.
    let mut data = Vec::new();
    for s in 0u16..8 {
        data.extend_from_slice(&(1000 + s).to_le_bytes());
    }
    for s in [0x0102u16, 0x0304, 0xA0B0, 0xC0D0] {
        data.extend_from_slice(&s.to_le_bytes());
    }
    let (y, u, v) = split_yuv420(&data, 4, 2);
    assert_eq!(y, (1000u16..1008).collect::<Vec<_>>());
    assert_eq!(u, vec![0x0102, 0x0304]);
    assert_eq!(v, vec![0xA0B0, 0xC0D0]);
}

#[test]
fn file_kind_follows_the_extension() {
    assert_eq!(source_kind(Some("yuv")), SourceKind::RawYuv420);
    assert_eq!(source_kind(Some("YUV")), SourceKind::Decoded);
    assert_eq!(source_kind(Some("exr")), SourceKind::Decoded);
    assert_eq!(source_kind(Some("yuv2")), SourceKind::Decoded);
    assert_eq!(source_kind(None), SourceKind::Decoded);
    assert!(is_exr_extension(Some("exr")));
    assert!(!is_exr_extension(Some("ex")));
    assert!(!is_exr_extension(None));
}

#[test]
fn linearity_decision() {
    assert!(samples_are_linear(Some("exr"), false));
    assert!(samples_are_linear(Some("png"), true));
    assert!(samples_are_linear(None, true));
    assert!(!samples_are_linear(Some("png"), false));
    assert!(!samples_are_linear(None, false));
}

#[test]
fn yuv_paths_by_suffix() {
    assert!(path_names_yuv("frame.yuv"));
    assert!(path_names_yuv("/data/clip/frame_0001.yuv"));
    assert!(path_names_yuv(".yuv"));
    assert!(!path_names_yuv("yuv"));
    assert!(!path_names_yuv("frame.yuv.exr"));
    assert!(!path_names_yuv("frame.YUV"));
    assert!(!path_names_yuv("é.yu"));
}
