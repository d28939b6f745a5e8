//! The two-handled object itself: both handles, and the per-frame
//! ordering that first runs each handle's own update and only then the
//! dual-handle solver, so each solver call reads the peer's state from
//! the same frame.

use vstd::prelude::*;

use crate::grab::InputEvent;
use crate::handle::{
    events_bounded, handle_step, parenting_spec, pose_ok, root_move_spec, Handle, PeerUpdate,
    RootMove,
};

verus! {

/// Everything the frame decided: each handle's own reparenting move and
/// each handle's solver result, for the embedding application to apply.
#[derive(Clone, Copy, PartialEq, Eq, Structural, Debug)]
pub struct FrameActions {
    pub left_root: RootMove,
    pub right_root: RootMove,
    pub left_update: PeerUpdate,
    pub right_update: PeerUpdate,
}

/// The folding panel: a left and a right handle.
pub struct Phobetor {
    pub handles: (Handle, Handle),
}

impl Phobetor {
    /// A fresh panel, neither side held.
    pub fn new() -> (p: Phobetor)
        ensures
            !p.handles.0.right,
            p.handles.1.right,
            p.handles.0.grab_info is None,
            p.handles.1.grab_info is None,
            p.handles.0.wf(),
            p.handles.1.wf(),
    {
        Phobetor { handles: (Handle::new(false), Handle::new(true)) }
    }

    /// One frame: both handles' single updates complete before either
    /// solver call, and each solver call reads the peer's state of this
    /// same frame.
    pub fn frame(&mut self, left_events: &Vec<InputEvent>, right_events: &Vec<InputEvent>) -> (r:
        FrameActions)
        requires
            old(self).handles.0.wf(),
            old(self).handles.1.wf(),
            events_bounded(left_events@),
            events_bounded(right_events@),
        ensures
            final(self).handles.0 == handle_step(old(self).handles.0, left_events@),
            final(self).handles.1 == handle_step(old(self).handles.1, right_events@),
            r.left_root == root_move_spec(old(self).handles.0, left_events@),
            r.right_root == root_move_spec(old(self).handles.1, right_events@),
            r.left_update.parenting == parenting_spec(
                final(self).handles.0.hold_action,
                final(self).handles.1.hold_action,
            ),
            pose_ok(final(self).handles.0, final(self).handles.1, r.left_update.pose),
            r.right_update.parenting == parenting_spec(
                final(self).handles.1.hold_action,
                final(self).handles.0.hold_action,
            ),
            pose_ok(final(self).handles.1, final(self).handles.0, r.right_update.pose),
            final(self).handles.0.wf(),
            final(self).handles.1.wf(),
    {
        let left_root = self.handles.0.update_single(left_events);
        let right_root = self.handles.1.update_single(right_events);

        let left_update = self.handles.0.update_with_other(&self.handles.1);
        let right_update = self.handles.1.update_with_other(&self.handles.0);

        FrameActions { left_root, right_root, left_update, right_update }
    }
}

} // verus!
