use vstd::prelude::*;

use crate::attach::AttachError;
use crate::geometry::Size;

verus! {

/// Duration handed to the native engine for an expand, in milliseconds.
pub const EXPAND_DURATION_MS: u64 = 300;

/// Duration handed to the native engine for a collapse, in milliseconds.
pub const COLLAPSE_DURATION_MS: u64 = 220;

/// Direction of an animation, and the phase that its completion reports.
#[derive(Clone, Copy, Debug, PartialEq, Eq, Structural)]
pub enum Phase {
    Expand,
    Collapse,
}

/// The phase for a completion code from the native engine: zero is an
/// expand, anything else a collapse.
pub open spec fn phase_of_code(code: i32) -> Phase {
    if code == 0 {
        Phase::Expand
    } else {
        Phase::Collapse
    }
}

impl Phase {
    /// Decodes the phase that the native engine reports on completion.
    pub fn from_code(code: i32) -> (r: Phase)
        ensures
            r == phase_of_code(code),
    {
        if code == 0 {
            Phase::Expand
        } else {
            Phase::Collapse
        }
    }

    /// The phase's name in completion events: `expand` or `collapse`.
    pub fn name(&self) -> (r: String)
        ensures
            *self == Phase::Expand ==> r@ == "expand"@,
            *self == Phase::Collapse ==> r@ == "collapse"@,
    {
        match self {
            Phase::Expand => "expand".to_string(),
            Phase::Collapse => "collapse".to_string(),
        }
    }
}

/// Name of the event that reports a hover transition.
pub const HOVER_EVENT: &'static str = "notch-hover";

/// Name of the event that reports an animation's completion.
pub const COMPLETION_EVENT: &'static str = "notch-native-anim-end";

/// An event for the presentation layer.
#[derive(Clone, Copy, Debug, PartialEq, Eq, Structural)]
pub enum CapsuleEvent {
    /// The confirmed hover signal changed to `inside`.
    HoverTransition { inside: bool },
    /// An animation in `phase` finished.
    AnimationCompletion { phase: Phase },
}

impl CapsuleEvent {
    /// The completion event for a code reported by the native engine.
    pub fn completion_from_code(code: i32) -> (r: CapsuleEvent)
        ensures
            r == (CapsuleEvent::AnimationCompletion { phase: phase_of_code(code) }),
    {
        CapsuleEvent::AnimationCompletion { phase: Phase::from_code(code) }
    }

    /// The event's name on the outward channel.
    pub fn name(&self) -> (r: &'static str)
        ensures
            self is HoverTransition ==> r@ == HOVER_EVENT@,
            self is AnimationCompletion ==> r@ == COMPLETION_EVENT@,
    {
        match self {
            CapsuleEvent::HoverTransition { .. } => HOVER_EVENT,
            CapsuleEvent::AnimationCompletion { .. } => COMPLETION_EVENT,
        }
    }
}

/// The single slot for the native animator handle.
#[derive(Clone, Copy, Debug, PartialEq, Eq)]
pub enum Slot<H> {
    /// No animator: animations fall back to a direct resize.
    Unattached,
    /// A live animator.
    Attached(H),
    /// A native call on the animator faulted: it is not used again until the
    /// next attach.
    Faulted,
    /// Cleaned up; nothing is driven any more.
    Detached,
}

/// What the UI thread must do for an expand or a collapse.
#[derive(Clone, Copy, Debug, PartialEq, Eq)]
pub enum BridgeCommand<H> {
    /// Ask the native animator to run the animation; it reports completion.
    Animate { handle: H, phase: Phase, duration_ms: u64 },
    /// Set the window to `size` at once, then report completion of `phase`.
    Resize { size: Size, phase: Phase },
    /// Do nothing.
    Skip,
}

impl<H> BridgeCommand<H> {
    /// The completion that carrying out the command reports at once: a
    /// resize reports its phase right after resizing; a native animation
    /// reports later, through the engine.
    pub open spec fn immediate_completion(self) -> Option<Phase> {
        match self {
            BridgeCommand::Resize { phase, .. } => Some(phase),
            _ => None,
        }
    }
}

/// A scrub position to hand to the native animator, as given (thousandths;
/// the native side clamps).
#[derive(Clone, Copy, Debug, PartialEq, Eq)]
pub struct ProgressUpdate<H> {
    pub handle: H,
    pub progress: i64,
}

/// Owner of the native animator handle and the capsule sizes it animates
/// between (milli-points).
#[derive(Clone, Copy, Debug, PartialEq, Eq)]
pub struct AnimationBridge<H> {
    pub slot: Slot<H>,
    pub closed: Size,
    pub expanded: Size,
    pub corner_radius: i64,
}

/// The target size of an animation in `phase`.
pub open spec fn target_size<H>(b: AnimationBridge<H>, phase: Phase) -> Size {
    match phase {
        Phase::Expand => b.expanded,
        Phase::Collapse => b.closed,
    }
}

/// The native duration of an animation in `phase`.
pub open spec fn duration_of(phase: Phase) -> u64 {
    match phase {
        Phase::Expand => EXPAND_DURATION_MS,
        Phase::Collapse => COLLAPSE_DURATION_MS,
    }
}

/// What an expand or a collapse does in the bridge's present state.
pub open spec fn command_for<H>(b: AnimationBridge<H>, phase: Phase) -> BridgeCommand<H> {
    match b.slot {
        Slot::Attached(h) => BridgeCommand::Animate {
            handle: h,
            phase,
            duration_ms: duration_of(phase),
        },
        Slot::Unattached => BridgeCommand::Resize { size: target_size(b, phase), phase },
        _ => BridgeCommand::Skip,
    }
}

/// The bridge after an attach with these sizes ended in `result`: the sizes
/// are kept; the new handle takes the slot on success, and on failure no
/// handle stays (an earlier one is not assumed valid). A cleaned-up bridge
/// stays as it is.
pub open spec fn attached<H>(
    b: AnimationBridge<H>,
    closed: Size,
    expanded: Size,
    corner_radius: i64,
    result: Result<H, AttachError>,
) -> AnimationBridge<H> {
    if b.slot is Detached {
        b
    } else {
        AnimationBridge {
            slot: match result {
                Ok(h) => Slot::Attached(h),
                Err(_) => Slot::Unattached,
            },
            closed,
            expanded,
            corner_radius,
        }
    }
}

impl<H: Copy> AnimationBridge<H> {
    /// A bridge with no animator, resizing between the given sizes.
    pub fn new(closed: Size, expanded: Size, corner_radius: i64) -> (r: Self)
        ensures
            r == (AnimationBridge::<H> { slot: Slot::Unattached, closed, expanded, corner_radius }),
    {
        AnimationBridge { slot: Slot::Unattached, closed, expanded, corner_radius }
    }

    /// The live animator handle, if any.
    pub fn handle(&self) -> (r: Option<H>)
        ensures
            r == (match self.slot {
                Slot::Attached(h) => Some(h),
                _ => None,
            }),
    {
        match self.slot {
            Slot::Attached(h) => Some(h),
            _ => None,
        }
    }

    /// Records the end of an attach with these sizes: last attach wins.
    pub fn finish_attach(
        &mut self,
        closed: Size,
        expanded: Size,
        corner_radius: i64,
        result: Result<H, AttachError>,
    )
        ensures
            *final(self) == attached(*old(self), closed, expanded, corner_radius, result),
    {
        if let Slot::Detached = self.slot {
            return;
        }
        self.slot = match result {
            Ok(h) => Slot::Attached(h),
            Err(_) => Slot::Unattached,
        };
        self.closed = closed;
        self.expanded = expanded;
        self.corner_radius = corner_radius;
    }

    /// What to do to animate towards `phase`.
    pub fn command(&self, phase: Phase) -> (r: BridgeCommand<H>)
        ensures
            r == command_for(*self, phase),
    {
        match self.slot {
            Slot::Attached(h) => {
                let duration_ms = match phase {
                    Phase::Expand => EXPAND_DURATION_MS,
                    Phase::Collapse => COLLAPSE_DURATION_MS,
                };
                BridgeCommand::Animate { handle: h, phase, duration_ms }
            },
            Slot::Unattached => {
                let size = match phase {
                    Phase::Expand => self.expanded,
                    Phase::Collapse => self.closed,
                };
                BridgeCommand::Resize { size, phase }
            },
            _ => BridgeCommand::Skip,
        }
    }

    /// What to do to expand the capsule.
    pub fn expand(&self) -> (r: BridgeCommand<H>)
        ensures
            r == command_for(*self, Phase::Expand),
    {
        self.command(Phase::Expand)
    }

    /// What to do to collapse the capsule.
    pub fn collapse(&self) -> (r: BridgeCommand<H>)
        ensures
            r == command_for(*self, Phase::Collapse),
    {
        self.command(Phase::Collapse)
    }

    /// The scrub update to forward for any progress value, out of range
    /// ones included; none without a live animator.
    pub fn set_progress(&self, progress: i64) -> (r: Option<ProgressUpdate<H>>)
        ensures
            r == (match self.slot {
                Slot::Attached(h) => Some(ProgressUpdate { handle: h, progress }),
                _ => None,
            }),
    {
        match self.slot {
            Slot::Attached(handle) => Some(ProgressUpdate { handle, progress }),
            _ => None,
        }
    }

    /// Records that a native call on the live animator faulted: expand and
    /// collapse do nothing until the next attach.
    pub fn report_fault(&mut self)
        ensures
            final(self).closed == old(self).closed,
            final(self).expanded == old(self).expanded,
            final(self).corner_radius == old(self).corner_radius,
            final(self).slot == (match old(self).slot {
                Slot::Attached(_) => Slot::Faulted,
                s => s,
            }),
    {
        if let Slot::Attached(_) = self.slot {
            self.slot = Slot::Faulted;
        }
    }

    /// Ends the bridge's life, returning the live animator for its cleanup.
    pub fn cleanup(&mut self) -> (r: Option<H>)
        ensures
            final(self).slot == Slot::<H>::Detached,
            final(self).closed == old(self).closed,
            final(self).expanded == old(self).expanded,
            final(self).corner_radius == old(self).corner_radius,
            r == (match old(self).slot {
                Slot::Attached(h) => Some(h),
                _ => None,
            }),
    {
        let r = self.handle();
        self.slot = Slot::Detached;
        r
    }
}

/// Without a successful attach the capsule still animates, by resizing: after
/// an attach that failed, for whatever reason, an expand resizes the window
/// to the expanded size and reports the expand's completion at once, and a
/// collapse does the same with the closed size.
pub proof fn failed_attach_still_completes<H>(
    b: AnimationBridge<H>,
    closed: Size,
    expanded: Size,
    corner_radius: i64,
    error: AttachError,
)
    requires
        !(b.slot is Detached),
    ensures
        ({
            let after = attached(b, closed, expanded, corner_radius, Err(error));
            &&& command_for(after, Phase::Expand) == BridgeCommand::<H>::Resize {
                size: expanded,
                phase: Phase::Expand,
            }
            &&& command_for(after, Phase::Expand).immediate_completion() == Some(Phase::Expand)
            &&& command_for(after, Phase::Collapse) == BridgeCommand::<H>::Resize {
                size: closed,
                phase: Phase::Collapse,
            }
            &&& command_for(after, Phase::Collapse).immediate_completion() == Some(
                Phase::Collapse,
            )
        }),
{
}

/// A bridge that was never attached answers an expand with a resize that
/// reports the expand's completion.
pub proof fn unattached_expand_completes<H>(b: AnimationBridge<H>)
    requires
        b.slot is Unattached,
    ensures
        command_for(b, Phase::Expand).immediate_completion() == Some(Phase::Expand),
{
}

} // verus!
