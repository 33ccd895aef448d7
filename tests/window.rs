use notch_capsule::bridge::Phase;
use notch_capsule::geometry::{Rect, Size};
use notch_capsule::window::{
    animate_window_to, focus_plan, FocusError, FocusPlan, NotchDimensions, WindowAnimation,
};

#[test]
fn notch_width_excludes_auxiliary_areas() {
    let d = NotchDimensions::measure(1_512_000, 660_000, 660_000, 38_000, 2000).unwrap();
    assert_eq!(d.width_pts, 192_000);
    assert_eq!(d.top_inset_pts, 38_000);
    assert_eq!(d.width_px, 384_000);
    assert_eq!(d.top_inset_px, 76_000);
    assert_eq!(d.scale, 2000);
}

#[test]
fn no_inset_means_no_notch_and_width_floors_at_zero() {
    assert_eq!(NotchDimensions::measure(1_512_000, 600_000, 600_000, 0, 2000), None);
    let d = NotchDimensions::measure(1_000_000, 600_000, 600_000, 24_000, 1500).unwrap();
    assert_eq!(d.width_pts, 0);
    assert_eq!(d.top_inset_px, 36_000);
}

#[test]
fn native_frame_keeps_top_edge_and_centre() {
    let current = Rect { x: 526_000, y: 932_000, width: 460_000, height: 50_000 };
    let plan = animate_window_to(Some(current), Size { width: 700_000, height: 200_000 }, 500, Phase::Expand);
    assert_eq!(
        plan,
        WindowAnimation::Animate {
            frame: Rect { x: 406_000, y: 782_000, width: 700_000, height: 200_000 },
            phase: Phase::Expand,
            after_ms: 500,
        }
    );
    let odd = animate_window_to(Some(current), Size { width: 460_001, height: 50_000 }, 1, Phase::Collapse);
    if let WindowAnimation::Animate { frame, .. } = odd {
        assert_eq!(frame.x, 526_000);
    } else {
        panic!("expected an animated move");
    }
}

#[test]
fn without_native_frame_resizes_directly() {
    let target = Size { width: 460_000, height: 50_000 };
    assert_eq!(
        animate_window_to(None, target, 350, Phase::Collapse),
        WindowAnimation::Resize { size: target, phase: Phase::Collapse }
    );
}

#[test]
fn focus_plans_are_opposites() {
    assert_eq!(focus_plan(true), FocusPlan { nonactivating: false, activate_app: true, bring_to_front: true });
    assert_eq!(focus_plan(false), FocusPlan { nonactivating: true, activate_app: false, bring_to_front: false });
}

#[test]
fn focus_error_messages() {
    assert_eq!(FocusError::WindowNotFound.message(), "notch window not found");
    assert_eq!(FocusError::NativeWindowUnavailable.message(), "unable to access native window");
    assert_eq!(FocusError::NullWindow.message(), "native window pointer was null");
    assert_eq!(FocusError::ScheduleFailed.message(), "failed to schedule focus change");
    assert_eq!(FocusError::ChannelDropped.message(), "focus change channel dropped");
    assert_eq!(FocusError::Timeout.message(), "focus change timed out");
}
