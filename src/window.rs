use vstd::prelude::*;

use crate::bridge::Phase;
use crate::geometry::{COORD_LIMIT, Rect, Size, half_down};

verus! {

/// Measurements of the display's notch. Lengths in milli-points, pixel
/// lengths in milli-pixels, the backing scale in thousandths.
#[derive(Clone, Copy, Debug, PartialEq, Eq, Structural)]
pub struct NotchDimensions {
    pub width_pts: i64,
    pub top_inset_pts: i64,
    pub width_px: i64,
    pub top_inset_px: i64,
    pub scale: i64,
}

/// `pts` milli-points at `scale` thousandths, in milli-pixels (rounded down).
pub open spec fn to_pixels(pts: int, scale: int) -> int {
    pts * scale / 1000
}

/// The notch measured from its screen: none without a top safe-area inset;
/// otherwise its width is the frame's width less the auxiliary areas to its
/// left and right (never below zero).
pub open spec fn notch_of(
    frame_width: i64,
    left_width: i64,
    right_width: i64,
    top_inset: i64,
    scale: i64,
) -> Option<NotchDimensions> {
    if top_inset <= 0 {
        None
    } else {
        let w = frame_width - left_width - right_width;
        let width = if w > 0 {
            w
        } else {
            0
        };
        Some(
            NotchDimensions {
                width_pts: width as i64,
                top_inset_pts: top_inset,
                width_px: to_pixels(width, scale as int) as i64,
                top_inset_px: to_pixels(top_inset as int, scale as int) as i64,
                scale,
            },
        )
    }
}

/// A scale of at most a thousand keeps every pixel length representable.
pub const SCALE_LIMIT: i64 = 1000000;

impl NotchDimensions {
    /// Measures the notch from its screen's frame width, the widths of the
    /// auxiliary top areas beside it, the top safe-area inset and the backing
    /// scale.
    pub fn measure(
        frame_width: i64,
        left_width: i64,
        right_width: i64,
        top_inset: i64,
        scale: i64,
    ) -> (r: Option<NotchDimensions>)
        requires
            0 <= frame_width <= COORD_LIMIT,
            0 <= left_width <= COORD_LIMIT,
            0 <= right_width <= COORD_LIMIT,
            top_inset <= COORD_LIMIT,
            0 <= scale <= SCALE_LIMIT,
        ensures
            r == notch_of(frame_width, left_width, right_width, top_inset, scale),
    {
        if top_inset <= 0 {
            return None;
        }
        let w = frame_width - left_width - right_width;
        let width = if w > 0 {
            w
        } else {
            0
        };
        assert(0 <= width * scale <= COORD_LIMIT * SCALE_LIMIT) by (nonlinear_arith)
            requires
                0 <= width <= COORD_LIMIT,
                0 <= scale <= SCALE_LIMIT,
        ;
        assert(0 <= top_inset * scale <= COORD_LIMIT * SCALE_LIMIT) by (nonlinear_arith)
            requires
                0 <= top_inset <= COORD_LIMIT,
                0 <= scale <= SCALE_LIMIT,
        ;
        let width_px = (width as i128 * scale as i128 / 1000) as i64;
        let top_inset_px = (top_inset as i128 * scale as i128 / 1000) as i64;
        Some(
            NotchDimensions {
                width_pts: width,
                top_inset_pts: top_inset,
                width_px,
                top_inset_px,
                scale,
            },
        )
    }
}

/// The frame of size `target` that keeps `current`'s top edge and horizontal
/// centre (rounded down to the milli-point).
pub open spec fn resized_in_place(current: Rect, target: Size) -> Rect {
    Rect {
        x: (current.x - (target.width - current.width) / 2) as i64,
        y: (current.y - (target.height - current.height)) as i64,
        width: target.width,
        height: target.height,
    }
}

/// How a window is brought to a new size.
#[derive(Clone, Copy, Debug, PartialEq, Eq, Structural)]
pub enum WindowAnimation {
    /// Animate the window's frame to `frame`, then report `phase` once
    /// `after_ms` have passed.
    Animate { frame: Rect, phase: Phase, after_ms: u64 },
    /// Set the size at once and report `phase` right away.
    Resize { size: Size, phase: Phase },
}

/// The plan for resizing a window in `phase`: with its native frame known,
/// an animated move that keeps top edge and centre; without, a plain resize.
pub open spec fn window_animation_of(
    current: Option<Rect>,
    target: Size,
    duration_ms: u64,
    phase: Phase,
) -> WindowAnimation {
    match current {
        Some(frame) => WindowAnimation::Animate {
            frame: resized_in_place(frame, target),
            phase,
            after_ms: duration_ms,
        },
        None => WindowAnimation::Resize { size: target, phase },
    }
}

/// Plans how to bring a window (its native frame, where one is reachable)
/// to `target` over `duration_ms`.
pub fn animate_window_to(
    current: Option<Rect>,
    target: Size,
    duration_ms: u64,
    phase: Phase,
) -> (r: WindowAnimation)
    requires
        current matches Some(f) ==> f.valid(),
        0 <= target.width <= COORD_LIMIT,
        0 <= target.height <= COORD_LIMIT,
    ensures
        r == window_animation_of(current, target, duration_ms, phase),
{
    match current {
        Some(f) => {
            let half = half_down(target.width - f.width);
            let frame = Rect {
                x: f.x - half,
                y: f.y - (target.height - f.height),
                width: target.width,
                height: target.height,
            };
            WindowAnimation::Animate { frame, phase, after_ms: duration_ms }
        },
        None => WindowAnimation::Resize { size: target, phase },
    }
}

/// How long a cross-thread focus change may take before it is abandoned.
pub const FOCUS_TIMEOUT_MS: u64 = 2000;

/// The window changes that give or take away the capsule's focus.
#[derive(Clone, Copy, Debug, PartialEq, Eq, Structural)]
pub struct FocusPlan {
    /// Whether the window keeps the non-activating panel trait.
    pub nonactivating: bool,
    /// Activate the application (otherwise deactivate it).
    pub activate_app: bool,
    /// Make the window key and bring it front (otherwise send it back).
    pub bring_to_front: bool,
}

/// The plan for `set_focus(focus)`: focusing drops the non-activating trait,
/// activates and brings the window front; unfocusing does the reverse.
pub fn focus_plan(focus: bool) -> (r: FocusPlan)
    ensures
        r == (FocusPlan { nonactivating: !focus, activate_app: focus, bring_to_front: focus }),
{
    FocusPlan { nonactivating: !focus, activate_app: focus, bring_to_front: focus }
}

/// Why a focus change did not happen.
#[derive(Clone, Copy, Debug, PartialEq, Eq, Structural)]
pub enum FocusError {
    WindowNotFound,
    NativeWindowUnavailable,
    NullWindow,
    ScheduleFailed,
    ChannelDropped,
    Timeout,
}

impl FocusError {
    /// The error's message for the presentation layer.
    pub fn message(&self) -> (r: String)
        ensures
            *self == FocusError::WindowNotFound ==> r@ == "notch window not found"@,
            *self == FocusError::NativeWindowUnavailable ==> r@
                == "unable to access native window"@,
            *self == FocusError::NullWindow ==> r@ == "native window pointer was null"@,
            *self == FocusError::ScheduleFailed ==> r@ == "failed to schedule focus change"@,
            *self == FocusError::ChannelDropped ==> r@ == "focus change channel dropped"@,
            *self == FocusError::Timeout ==> r@ == "focus change timed out"@,
    {
        match self {
            FocusError::WindowNotFound => "notch window not found".to_string(),
            FocusError::NativeWindowUnavailable => "unable to access native window".to_string(),
            FocusError::NullWindow => "native window pointer was null".to_string(),
            FocusError::ScheduleFailed => "failed to schedule focus change".to_string(),
            FocusError::ChannelDropped => "focus change channel dropped".to_string(),
            FocusError::Timeout => "focus change timed out".to_string(),
        }
    }
}

} // verus!
