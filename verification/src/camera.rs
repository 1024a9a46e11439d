//! The camera's control surface: its one-shot change notification and the
//! decision logic that turns per-frame key states into camera operations.
//!
//! The orbit geometry itself (spherical angles, trigonometry) is
//! floating-point work done by the surrounding application; every mutating
//! camera operation records itself in a [`ChangeFlag`], and the choice of
//! which operations a frame's input triggers, in which order, is decided
//! here.

use vstd::prelude::*;

verus! {

/// One-shot change notification: set by every mutating camera operation,
/// cleared only by the read-and-clear query.
pub struct ChangeFlag {
    changed: bool,
}

impl ChangeFlag {
    /// Whether a change is pending, for use in contracts.
    pub closed spec fn is_changed(self) -> bool {
        self.changed
    }

    /// A fresh camera starts with one pending change, so the first query
    /// reports it.
    pub fn new() -> (f: ChangeFlag)
        ensures
            f.is_changed(),
    {
        ChangeFlag { changed: true }
    }

    /// Records a mutation: called by every mutating camera operation.
    pub fn mark_changed(&mut self)
        ensures
            final(self).is_changed(),
    {
        self.changed = true;
    }

    /// One-shot read-and-clear query: reports exactly whether a change was
    /// pending, and leaves none pending, so a second query without an
    /// intervening mutation reports false.
    pub fn check_if_changed(&mut self) -> (r: bool)
        ensures
            r == old(self).is_changed(),
            !final(self).is_changed(),
    {
        if self.changed {
            self.changed = false;
            true
        } else {
            false
        }
    }
}

/// The key states one frame's input polling hands the camera logic.
#[derive(Clone, Copy, Debug, PartialEq, Eq, Structural)]
pub struct InputState {
    /// Up arrow: pitch the view upward.
    pub up: bool,
    /// Down arrow: pitch the view downward.
    pub down: bool,
    /// W: move the rig forward.
    pub w: bool,
    /// A: move the rig left.
    pub a: bool,
    /// S: move the rig backward.
    pub s: bool,
    /// D: move the rig right.
    pub d: bool,
    /// Q: raise the rig.
    pub q: bool,
    /// E: lower the rig.
    pub e: bool,
    /// Zoom toward the center.
    pub zoom_in: bool,
    /// Zoom away from the center.
    pub zoom_out: bool,
    /// Reset to the top-down pose.
    pub bird_eye: bool,
}

/// One camera operation the frame loop is to perform, in units of the
/// application's movement, rotation and zoom speeds.
#[derive(Clone, Copy, Debug, PartialEq, Eq, Structural)]
pub enum CameraAction {
    /// Pitch the view upward by one rotation step.
    PitchUp,
    /// Pitch the view downward by one rotation step.
    PitchDown,
    /// Pan eye and center together; each component is a step count in
    /// `{-1, 0, 1}`.
    MoveCenter { x_steps: i8, z_steps: i8 },
    /// Raise eye and center by one movement step.
    MoveUp,
    /// Lower eye and center by one movement step.
    MoveDown,
    /// Move the eye toward the center by one zoom step.
    ZoomIn,
    /// Move the eye away from the center by one zoom step.
    ZoomOut,
    /// Hard-reset to the fixed top-down pose.
    BirdEyeView,
}

/// Left/right pan steps: D minus A.
pub open spec fn spec_x_steps(i: InputState) -> i8 {
    if i.d && !i.a {
        1i8
    } else if i.a && !i.d {
        -1i8
    } else {
        0i8
    }
}

/// Forward/backward pan steps: S minus W (forward is negative Z).
pub open spec fn spec_z_steps(i: InputState) -> i8 {
    if i.s && !i.w {
        1i8
    } else if i.w && !i.s {
        -1i8
    } else {
        0i8
    }
}

/// The pitch-up segment of a frame's actions.
pub open spec fn seg_pitch_up(i: InputState) -> Seq<CameraAction> {
    if i.up {
        seq![CameraAction::PitchUp]
    } else {
        Seq::empty()
    }
}

/// The pitch-down segment of a frame's actions.
pub open spec fn seg_pitch_down(i: InputState) -> Seq<CameraAction> {
    if i.down {
        seq![CameraAction::PitchDown]
    } else {
        Seq::empty()
    }
}

/// The pan segment of a frame's actions: one combined move, only when the
/// pressed keys do not cancel out.
pub open spec fn seg_move_center(i: InputState) -> Seq<CameraAction> {
    if spec_x_steps(i) != 0 || spec_z_steps(i) != 0 {
        seq![CameraAction::MoveCenter { x_steps: spec_x_steps(i), z_steps: spec_z_steps(i) }]
    } else {
        Seq::empty()
    }
}

/// The raise segment of a frame's actions.
pub open spec fn seg_move_up(i: InputState) -> Seq<CameraAction> {
    if i.q {
        seq![CameraAction::MoveUp]
    } else {
        Seq::empty()
    }
}

/// The lower segment of a frame's actions.
pub open spec fn seg_move_down(i: InputState) -> Seq<CameraAction> {
    if i.e {
        seq![CameraAction::MoveDown]
    } else {
        Seq::empty()
    }
}

/// The zoom-in segment of a frame's actions.
pub open spec fn seg_zoom_in(i: InputState) -> Seq<CameraAction> {
    if i.zoom_in {
        seq![CameraAction::ZoomIn]
    } else {
        Seq::empty()
    }
}

/// The zoom-out segment of a frame's actions.
pub open spec fn seg_zoom_out(i: InputState) -> Seq<CameraAction> {
    if i.zoom_out {
        seq![CameraAction::ZoomOut]
    } else {
        Seq::empty()
    }
}

/// The bird's-eye segment of a frame's actions.
pub open spec fn seg_bird_eye(i: InputState) -> Seq<CameraAction> {
    if i.bird_eye {
        seq![CameraAction::BirdEyeView]
    } else {
        Seq::empty()
    }
}

/// The full, ordered list of camera operations one frame's input triggers.
pub open spec fn spec_actions(i: InputState) -> Seq<CameraAction> {
    seg_pitch_up(i) + seg_pitch_down(i) + seg_move_center(i) + seg_move_up(i) + seg_move_down(i)
        + seg_zoom_in(i) + seg_zoom_out(i) + seg_bird_eye(i)
}

/// Decides which camera operations this frame's key states trigger, in the
/// order the frame loop applies them: pitch, pan, raise or lower, zoom, then
/// the bird's-eye reset. Opposed pan keys cancel; a fully cancelled pan
/// triggers no move at all.
/// Appends `action` when `cond` holds: one conditional segment of the
/// frame's action list.
fn push_if(actions: &mut Vec<CameraAction>, cond: bool, action: CameraAction)
    ensures
        final(actions)@ == old(actions)@ + (if cond {
            seq![action]
        } else {
            Seq::<CameraAction>::empty()
        }),
{
    if cond {
        actions.push(action);
        proof {
            assert(actions@ =~= old(actions)@ + seq![action]);
        }
    } else {
        proof {
            assert(actions@ =~= old(actions)@ + Seq::<CameraAction>::empty());
        }
    }
}

/// Decides which camera operations this frame's key states trigger, in the
/// order the frame loop applies them: pitch, pan, raise or lower, zoom, then
/// the bird's-eye reset. Opposed pan keys cancel; a fully cancelled pan
/// triggers no move at all.
pub fn camera_actions(input: &InputState) -> (actions: Vec<CameraAction>)
    ensures
        actions@ == spec_actions(*input),
{
    let mut actions: Vec<CameraAction> = Vec::new();
    push_if(&mut actions, input.up, CameraAction::PitchUp);
    proof {
        assert(Seq::<CameraAction>::empty() + seg_pitch_up(*input) =~= seg_pitch_up(*input));
    }
    push_if(&mut actions, input.down, CameraAction::PitchDown);
    let x_steps: i8 = if input.d && !input.a {
        1
    } else if input.a && !input.d {
        -1
    } else {
        0
    };
    let z_steps: i8 = if input.s && !input.w {
        1
    } else if input.w && !input.s {
        -1
    } else {
        0
    };
    push_if(
        &mut actions,
        x_steps != 0 || z_steps != 0,
        CameraAction::MoveCenter { x_steps, z_steps },
    );
    push_if(&mut actions, input.q, CameraAction::MoveUp);
    push_if(&mut actions, input.e, CameraAction::MoveDown);
    push_if(&mut actions, input.zoom_in, CameraAction::ZoomIn);
    push_if(&mut actions, input.zoom_out, CameraAction::ZoomOut);
    push_if(&mut actions, input.bird_eye, CameraAction::BirdEyeView);
    actions
}

} // verus!
