//! The viewer's decisions: what each window event asks it to do, which surface format
//! it presents in, how it reacts to the state of the swap chain, and how it reads a
//! picked pixel back from a texture of a given format.
use vstd::prelude::*;

use crate::tone_map::ToneMapMode;

verus! {

/// A key the viewer reacts to.
#[derive(Clone, Copy, Debug, PartialEq, Eq, Structural)]
pub enum Key {
    /// `[`: darker.
    BracketLeft,
    /// `]`: brighter.
    BracketRight,
    /// `T`: next tone-mapping mode.
    KeyT,
    /// `F`: fullscreen on or off.
    KeyF,
    /// Any other key.
    Other,
}

/// A window event, as far as the viewer tells events apart.
#[derive(Clone, Copy, Debug, PartialEq, Eq, Structural)]
pub enum ViewerEvent {
    CloseRequested,
    RedrawRequested,
    Resized { width: u32, height: u32 },
    CursorMoved,
    LeftButtonPressed,
    LeftButtonReleased,
    KeyPressed(Key),
    Other,
}

/// Direction of an exposure change.
#[derive(Clone, Copy, Debug, PartialEq, Eq, Structural)]
pub enum ExposureStep {
    /// Exposure times 0.9.
    Darker,
    /// Exposure times 1.1.
    Brighter,
}

/// What the viewer does in answer to an event.
#[derive(Clone, Copy, Debug, PartialEq, Eq, Structural)]
pub enum ViewerAction {
    /// Stop the event loop.
    Exit,
    /// Draw a frame, then ask for the next one.
    RenderAndRequestRedraw,
    /// Resize the surface and the textures drawn into.
    Resize { width: u32, height: u32 },
    /// Remember the new cursor position; when `pick` holds, also read the colour under it.
    TrackCursor { pick: bool },
    /// Read the colour under the cursor.
    Pick,
    /// Change the exposure.
    AdjustExposure(ExposureStep),
    /// Switch the shader to tone-mapping mode `mode`.
    SetToneMap(ToneMapMode),
    /// Enter or leave fullscreen.
    ToggleFullscreen,
    /// Nothing.
    Nothing,
}

/// The part of the viewer's state that its input decisions read and change.
#[derive(Clone, Copy, Debug, PartialEq, Eq, Structural)]
pub struct Controls {
    /// Whether the left mouse button is held down.
    pub left_mouse_down: bool,
    /// The tone-mapping mode in use.
    pub tone_map_mode: ToneMapMode,
}

/// The state after `event`, and the action it asks for.
pub open spec fn step(c: Controls, event: ViewerEvent) -> (Controls, ViewerAction) {
    match event {
        ViewerEvent::CloseRequested => (c, ViewerAction::Exit),
        ViewerEvent::RedrawRequested => (c, ViewerAction::RenderAndRequestRedraw),
        ViewerEvent::Resized { width, height } => (c, ViewerAction::Resize { width, height }),
        ViewerEvent::CursorMoved => (c, ViewerAction::TrackCursor { pick: c.left_mouse_down }),
        ViewerEvent::LeftButtonPressed => (
            Controls { left_mouse_down: true, ..c },
            ViewerAction::Pick,
        ),
        ViewerEvent::LeftButtonReleased => (
            Controls { left_mouse_down: false, ..c },
            ViewerAction::Nothing,
        ),
        ViewerEvent::KeyPressed(key) => match key {
            Key::BracketLeft => (c, ViewerAction::AdjustExposure(ExposureStep::Darker)),
            Key::BracketRight => (c, ViewerAction::AdjustExposure(ExposureStep::Brighter)),
            Key::KeyT => (
                Controls { tone_map_mode: c.tone_map_mode.following(), ..c },
                ViewerAction::SetToneMap(c.tone_map_mode.following()),
            ),
            Key::KeyF => (c, ViewerAction::ToggleFullscreen),
            Key::Other => (c, ViewerAction::Nothing),
        },
        ViewerEvent::Other => (c, ViewerAction::Nothing),
    }
}

/// The state after a sequence of events, in order.
pub open spec fn run(c: Controls, events: Seq<ViewerEvent>) -> Controls
    decreases events.len(),
{
    if events.len() == 0 {
        c
    } else {
        run(step(c, events[0]).0, events.drop_first())
    }
}

impl Controls {
    /// The state of a freshly opened viewer: no button held, no tone mapping.
    pub fn new() -> (c: Self)
        ensures
            !c.left_mouse_down,
            c.tone_map_mode == ToneMapMode::Off,
    {
        Controls { left_mouse_down: false, tone_map_mode: ToneMapMode::Off }
    }

    /// Takes in one window event: updates the state and says what to do.
    pub fn handle_event(&mut self, event: ViewerEvent) -> (action: ViewerAction)
        ensures
            (*final(self), action) == step(*old(self), event),
            event == ViewerEvent::KeyPressed(Key::BracketRight) ==> action
                == ViewerAction::AdjustExposure(ExposureStep::Brighter),
            event == ViewerEvent::KeyPressed(Key::BracketLeft) ==> action
                == ViewerAction::AdjustExposure(ExposureStep::Darker),
            event == ViewerEvent::KeyPressed(Key::KeyF) ==> action == ViewerAction::ToggleFullscreen,
            event == ViewerEvent::KeyPressed(Key::KeyT) ==> action == ViewerAction::SetToneMap(
                old(self).tone_map_mode.following(),
            ) && final(self).tone_map_mode == old(self).tone_map_mode.following(),
            event == ViewerEvent::CursorMoved ==> action == (ViewerAction::TrackCursor {
                pick: old(self).left_mouse_down,
            }),
    {
        match event {
            ViewerEvent::CloseRequested => ViewerAction::Exit,
            ViewerEvent::RedrawRequested => ViewerAction::RenderAndRequestRedraw,
            ViewerEvent::Resized { width, height } => ViewerAction::Resize { width, height },
            ViewerEvent::CursorMoved => ViewerAction::TrackCursor { pick: self.left_mouse_down },
            ViewerEvent::LeftButtonPressed => {
                self.left_mouse_down = true;
                ViewerAction::Pick
            },
            ViewerEvent::LeftButtonReleased => {
                self.left_mouse_down = false;
                ViewerAction::Nothing
            },
            ViewerEvent::KeyPressed(key) => match key {
                Key::BracketLeft => ViewerAction::AdjustExposure(ExposureStep::Darker),
                Key::BracketRight => ViewerAction::AdjustExposure(ExposureStep::Brighter),
                Key::KeyT => {
                    self.tone_map_mode = self.tone_map_mode.next();
                    ViewerAction::SetToneMap(self.tone_map_mode)
                },
                Key::KeyF => ViewerAction::ToggleFullscreen,
                Key::Other => ViewerAction::Nothing,
            },
            ViewerEvent::Other => ViewerAction::Nothing,
        }
    }
}

/// Dragging picks: once the left button is pressed, every cursor move reads the colour
/// under the cursor, and once it is released, no cursor move does.
pub proof fn lemma_drag_picks(c: Controls)
    ensures
        step(step(c, ViewerEvent::LeftButtonPressed).0, ViewerEvent::CursorMoved).1
            == (ViewerAction::TrackCursor { pick: true }),
        step(step(c, ViewerEvent::LeftButtonReleased).0, ViewerEvent::CursorMoved).1
            == (ViewerAction::TrackCursor { pick: false }),
{
}

/// Events other than button presses and releases leave the button state alone; only
/// the `T` key changes the tone-mapping mode.
pub proof fn lemma_step_frame(c: Controls, event: ViewerEvent)
    ensures
        event != ViewerEvent::LeftButtonPressed && event != ViewerEvent::LeftButtonReleased
            ==> step(c, event).0.left_mouse_down == c.left_mouse_down,
        event != ViewerEvent::KeyPressed(Key::KeyT) ==> step(c, event).0.tone_map_mode
            == c.tone_map_mode,
{
}

/// Pressing `T` `n` times advances the tone-mapping mode `n` steps through the cycle,
/// and the mode the viewer switches to is always the one it now holds.
pub proof fn lemma_t_presses(c: Controls, n: nat)
    ensures
        run(c, Seq::new(n, |i: int| ViewerEvent::KeyPressed(Key::KeyT))).tone_map_mode
            == c.tone_map_mode.advanced(n),
        step(c, ViewerEvent::KeyPressed(Key::KeyT)).1 == ViewerAction::SetToneMap(
            step(c, ViewerEvent::KeyPressed(Key::KeyT)).0.tone_map_mode,
        ),
    decreases n,
{
    if n > 0 {
        let presses = Seq::new(n, |i: int| ViewerEvent::KeyPressed(Key::KeyT));
        let next = step(c, ViewerEvent::KeyPressed(Key::KeyT)).0;
        assert(presses.drop_first() =~= Seq::new((n - 1) as nat, |i: int| ViewerEvent::KeyPressed(Key::KeyT)));
        lemma_t_presses(next, (n - 1) as nat);
        lemma_advanced_shift(c.tone_map_mode, (n - 1) as nat);
    }
}

/// Advancing once and then `n` times is advancing `n + 1` times.
proof fn lemma_advanced_shift(m: ToneMapMode, n: nat)
    ensures
        m.following().advanced(n) == m.advanced(n + 1),
    decreases n,
{
    assert(m.advanced(0) == m);
    assert(m.advanced(n + 1) == m.advanced(n).following());
    if n > 0 {
        lemma_advanced_shift(m, (n - 1) as nat);
        assert(m.advanced(n) == m.advanced((n - 1) as nat).following());
    }
}

/// A pixel format a surface can offer, as far as the viewer tells them apart.
#[derive(Clone, Copy, Debug, PartialEq, Eq, Structural)]
pub enum PixelFormat {
    /// Four 16-bit float channels.
    Rgba16Float,
    /// Four 32-bit float channels.
    Rgba32Float,
    /// Any other format.
    Other,
}

/// Whether the surface offers an HDR format: 16-bit or 32-bit float.
pub open spec fn offers_hdr_format(formats: Seq<PixelFormat>) -> bool {
    formats.contains(PixelFormat::Rgba16Float) || formats.contains(PixelFormat::Rgba32Float)
}

/// The HDR format to present in: 16-bit float when the surface offers it, else
/// 32-bit float.
pub open spec fn preferred_hdr_format(formats: Seq<PixelFormat>) -> PixelFormat {
    if formats.contains(PixelFormat::Rgba16Float) {
        PixelFormat::Rgba16Float
    } else {
        PixelFormat::Rgba32Float
    }
}

/// Whether `formats` holds `wanted`.
fn offers(formats: &Vec<PixelFormat>, wanted: PixelFormat) -> (r: bool)
    ensures
        r == formats@.contains(wanted),
{
    let mut i: usize = 0;
    while i < formats.len()
        invariant
            0 <= i <= formats@.len(),
            forall|j: int| 0 <= j < i ==> formats@[j] != wanted,
        decreases formats@.len() - i,
    {
        if formats[i] == wanted {
            assert(formats@[i as int] == wanted);
            return true;
        }
        i = i + 1;
    }
    false
}

/// Whether the surface offers an HDR format the viewer can present in.
pub fn has_hdr_format(formats: &Vec<PixelFormat>) -> (r: bool)
    ensures
        r == offers_hdr_format(formats@),
{
    offers(formats, PixelFormat::Rgba16Float) || offers(formats, PixelFormat::Rgba32Float)
}

/// Picks the HDR format to present in from those the surface offers: 16-bit float
/// first, then 32-bit float. The surface must offer one of the two.
pub fn pick_hdr_surface_format(formats: &Vec<PixelFormat>) -> (r: PixelFormat)
    requires
        offers_hdr_format(formats@),
    ensures
        r == preferred_hdr_format(formats@),
        formats@.contains(r),
        formats@.contains(PixelFormat::Rgba16Float) ==> r == PixelFormat::Rgba16Float,
        !formats@.contains(PixelFormat::Rgba16Float) ==> r == PixelFormat::Rgba32Float,
{
    if offers(formats, PixelFormat::Rgba16Float) {
        PixelFormat::Rgba16Float
    } else {
        PixelFormat::Rgba32Float
    }
}

/// Size in bytes of one colour channel when a texel of `format` is read back, for the
/// formats whose texels the viewer can read; the red, green and blue channels then
/// start at 0, 1 and 2 times that size.
pub fn readback_channel_bytes(format: PixelFormat) -> (r: Option<usize>)
    ensures
        format == PixelFormat::Rgba16Float ==> r == Some(2usize),
        format == PixelFormat::Rgba32Float ==> r == Some(4usize),
        format == PixelFormat::Other ==> r is None,
{
    match format {
        PixelFormat::Rgba16Float => Some(2),
        PixelFormat::Rgba32Float => Some(4),
        PixelFormat::Other => None,
    }
}

/// What the swap chain answered when asked for the next frame's texture.
#[derive(Clone, Copy, Debug, PartialEq, Eq, Structural)]
pub enum SurfaceStatus {
    Success,
    Occluded,
    Timeout,
    Suboptimal,
    Outdated,
    Validation,
    Lost,
}

/// What to do about this frame.
#[derive(Clone, Copy, Debug, PartialEq, Eq, Structural)]
pub enum FrameStep {
    /// Draw into the texture and present it.
    Draw,
    /// Skip the frame.
    Skip,
    /// Skip the frame and report a validation error.
    SkipWithError,
    /// Configure the surface again and skip the frame.
    Reconfigure,
    /// Create the surface anew, configure it, and skip the frame.
    Recreate,
}

/// What to do with a frame, given the swap chain's answer: draw on success; skip when
/// the window is hidden or the wait timed out; reconfigure when the surface no longer
/// matches the window; recreate it when it is lost.
pub fn frame_step(status: SurfaceStatus) -> (r: FrameStep)
    ensures
        r == FrameStep::Draw <==> status == SurfaceStatus::Success,
        r == FrameStep::Skip <==> (status == SurfaceStatus::Occluded || status == SurfaceStatus::Timeout),
        r == FrameStep::Reconfigure <==> (status == SurfaceStatus::Suboptimal || status
            == SurfaceStatus::Outdated),
        r == FrameStep::SkipWithError <==> status == SurfaceStatus::Validation,
        r == FrameStep::Recreate <==> status == SurfaceStatus::Lost,
{
    match status {
        SurfaceStatus::Success => FrameStep::Draw,
        SurfaceStatus::Occluded | SurfaceStatus::Timeout => FrameStep::Skip,
        SurfaceStatus::Suboptimal | SurfaceStatus::Outdated => FrameStep::Reconfigure,
        SurfaceStatus::Validation => FrameStep::SkipWithError,
        SurfaceStatus::Lost => FrameStep::Recreate,
    }
}

/// Whether a window of this size can be drawn into: both sides non-zero.
pub fn is_drawable(width: u32, height: u32) -> (r: bool)
    ensures
        r <==> (width > 0 && height > 0),
{
    !(width == 0 || height == 0)
}

/// The size the surface and its textures get for a window of this size: each side at
/// least one pixel, since textures cannot be empty.
pub fn surface_extent(width: u32, height: u32) -> (r: (u32, u32))
    ensures
        r.0 == if width >= 1 { width } else { 1 },
        r.1 == if height >= 1 { height } else { 1 },
{
    let w = if width >= 1 { width } else { 1 };
    let h = if height >= 1 { height } else { 1 };
    (w, h)
}

/// The exposure, fullscreen and close controls do the same whatever the state: `]`
/// always brightens, `[` always darkens, `F` always toggles fullscreen, closing always
/// exits, and none of these changes the state.
pub proof fn lemma_keys_ignore_state(c: Controls)
    ensures
        step(c, ViewerEvent::KeyPressed(Key::BracketRight)) == (c, ViewerAction::AdjustExposure(
            ExposureStep::Brighter,
        )),
        step(c, ViewerEvent::KeyPressed(Key::BracketLeft)) == (c, ViewerAction::AdjustExposure(
            ExposureStep::Darker,
        )),
        step(c, ViewerEvent::KeyPressed(Key::KeyF)) == (c, ViewerAction::ToggleFullscreen),
        step(c, ViewerEvent::CloseRequested) == (c, ViewerAction::Exit),
        step(c, ViewerEvent::RedrawRequested) == (c, ViewerAction::RenderAndRequestRedraw),
        forall|w: u32, h: u32| #[trigger] step(c, ViewerEvent::Resized { width: w, height: h }) == (c, ViewerAction::Resize { width: w, height: h }),
        step(c, ViewerEvent::LeftButtonPressed).1 == ViewerAction::Pick,
        step(c, ViewerEvent::LeftButtonPressed).0.left_mouse_down,
        !step(c, ViewerEvent::LeftButtonReleased).0.left_mouse_down,
{
}

/// Apart from cursor moves and the tone-map key, what an event asks for does not depend
/// on the state at all: two viewers in any two states answer it alike.
pub proof fn lemma_action_independent_of_state(c1: Controls, c2: Controls, event: ViewerEvent)
    requires
        event != ViewerEvent::CursorMoved,
        event != ViewerEvent::KeyPressed(Key::KeyT),
    ensures
        step(c1, event).1 == step(c2, event).1,
{
}

/// The surface format does not depend on the order in which the surface lists its
/// formats: 16-bit float whenever it is offered, 32-bit float only when 16-bit is not,
/// and always one of the formats offered.
pub proof fn lemma_hdr_format_choice(f1: Seq<PixelFormat>, f2: Seq<PixelFormat>)
    requires
        offers_hdr_format(f1),
        forall|p: PixelFormat| f1.contains(p) <==> f2.contains(p),
    ensures
        f1.contains(preferred_hdr_format(f1)),
        f1.contains(PixelFormat::Rgba16Float) ==> preferred_hdr_format(f1) == PixelFormat::Rgba16Float,
        !f1.contains(PixelFormat::Rgba16Float) ==> preferred_hdr_format(f1) == PixelFormat::Rgba32Float,
        preferred_hdr_format(f1) == preferred_hdr_format(f2),
{
    assert(f1.contains(PixelFormat::Rgba16Float) == f2.contains(PixelFormat::Rgba16Float));
}

} // verus!
