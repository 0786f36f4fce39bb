use hdrview::tone_map::ToneMapMode;
use hdrview::viewer::{
    frame_step, has_hdr_format, is_drawable, pick_hdr_surface_format, readback_channel_bytes, surface_extent,
    Controls, ExposureStep, FrameStep, Key, PixelFormat, SurfaceStatus, ViewerAction, ViewerEvent,
};

#[test]
fn fresh_controls() {
    let c = Controls::new();
    assert!(!c.left_mouse_down);
    assert_eq!(c.tone_map_mode, ToneMapMode::Off);
}

#[test]
fn dragging_picks_colours() {
    let mut c = Controls::new();
    assert_eq!(c.handle_event(ViewerEvent::CursorMoved), ViewerAction::TrackCursor { pick: false });
    assert_eq!(c.handle_event(ViewerEvent::LeftButtonPressed), ViewerAction::Pick);
    assert!(c.left_mouse_down);
    assert_eq!(c.handle_event(ViewerEvent::CursorMoved), ViewerAction::TrackCursor { pick: true });
    assert_eq!(c.handle_event(ViewerEvent::LeftButtonReleased), ViewerAction::Nothing);
    assert!(!c.left_mouse_down);
    assert_eq!(c.handle_event(ViewerEvent::CursorMoved), ViewerAction::TrackCursor { pick: false });
}

#[test]
fn keys_map_to_actions() {
    let mut c = Controls::new();
    assert_eq!(
        c.handle_event(ViewerEvent::KeyPressed(Key::BracketLeft)),
        ViewerAction::AdjustExposure(ExposureStep::Darker)
    );
    assert_eq!(
        c.handle_event(ViewerEvent::KeyPressed(Key::BracketRight)),
        ViewerAction::AdjustExposure(ExposureStep::Brighter)
    );
    assert_eq!(c.handle_event(ViewerEvent::KeyPressed(Key::KeyF)), ViewerAction::ToggleFullscreen);
    assert_eq!(c.handle_event(ViewerEvent::KeyPressed(Key::Other)), ViewerAction::Nothing);
    assert_eq!(c, Controls::new());
}

#[test]
fn t_key_cycles_tone_mapping() {
    let mut c = Controls::new();
    assert_eq!(
        c.handle_event(ViewerEvent::KeyPressed(Key::KeyT)),
        ViewerAction::SetToneMap(ToneMapMode::Aces)
    );
    assert_eq!(c.tone_map_mode, ToneMapMode::Aces);
    for _ in 0..5 {
        c.handle_event(ViewerEvent::KeyPressed(Key::KeyT));
    }
    assert_eq!(c.tone_map_mode, ToneMapMode::Off);
}

#[test]
fn window_events_map_to_actions() {
    let mut c = Controls::new();
    assert_eq!(c.handle_event(ViewerEvent::CloseRequested), ViewerAction::Exit);
    assert_eq!(c.handle_event(ViewerEvent::RedrawRequested), ViewerAction::RenderAndRequestRedraw);
    assert_eq!(
        c.handle_event(ViewerEvent::Resized { width: 640, height: 0 }),
        ViewerAction::Resize { width: 640, height: 0 }
    );
    assert_eq!(c.handle_event(ViewerEvent::Other), ViewerAction::Nothing);
}

#[test]
fn surface_format_prefers_half_float() {
    let (h, f, o) = (PixelFormat::Rgba16Float, PixelFormat::Rgba32Float, PixelFormat::Other);
    assert_eq!(pick_hdr_surface_format(&vec![o, f, h]), h);
    assert_eq!(pick_hdr_surface_format(&vec![h, f]), h);
    assert_eq!(pick_hdr_surface_format(&vec![o, f]), f);
    assert!(has_hdr_format(&vec![o, f]));
    assert!(!has_hdr_format(&vec![o, o]));
    assert!(!has_hdr_format(&vec![]));
}

#[test]
fn readback_channel_sizes() {
    assert_eq!(readback_channel_bytes(PixelFormat::Rgba16Float), Some(2));
    assert_eq!(readback_channel_bytes(PixelFormat::Rgba32Float), Some(4));
    assert_eq!(readback_channel_bytes(PixelFormat::Other), None);
}

#[test]
fn frame_steps() {
    assert_eq!(frame_step(SurfaceStatus::Success), FrameStep::Draw);
    assert_eq!(frame_step(SurfaceStatus::Occluded), FrameStep::Skip);
    assert_eq!(frame_step(SurfaceStatus::Timeout), FrameStep::Skip);
    assert_eq!(frame_step(SurfaceStatus::Suboptimal), FrameStep::Reconfigure);
    assert_eq!(frame_step(SurfaceStatus::Outdated), FrameStep::Reconfigure);
    assert_eq!(frame_step(SurfaceStatus::Validation), FrameStep::SkipWithError);
    assert_eq!(frame_step(SurfaceStatus::Lost), FrameStep::Recreate);
}

#[test]
fn surface_extent_is_never_empty() {
    assert_eq!(surface_extent(0, 0), (1, 1));
    assert_eq!(surface_extent(800, 0), (800, 1));
    assert_eq!(surface_extent(1920, 1080), (1920, 1080));
    assert!(!is_drawable(0, 600));
    assert!(!is_drawable(800, 0));
    assert!(is_drawable(1, 1));
}
