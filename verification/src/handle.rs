//! One grippable side of the two-handled object: the hold state machine,
//! the grip-frame estimator, and the dual-handle pose solver.
//!
//! All decisions are computed here from plain values; the results name
//! the scene-graph writes (reparenting moves, transform writes) that the
//! embedding application performs.

use vstd::prelude::*;

use crate::grab::{
    detector_step, lemma_single_actor, GrabDetector, HandJoints, InputEvent, InputPayload,
};
use crate::vecmath::{
    cross_wide, is_zero_wide, lemma_cross_orthogonal, lemma_dot_neg, lemma_reject_orthogonal,
    neg_wide, reject_scaled, sub_vec3, v3_add, v3_bounded, v3_cross, v3_dot, v3_neg,
    v3_reject_scaled, v3_sub, v3_zero, Vec3, Vec3Wide, COORD_LIMIT, DIR_LIMIT, V3,
};

verus! {

/// The grip frame of a held handle: the knuckle-row centre and the
/// unnormalised knuckle-row axis of the holding hand.  Orientation math
/// downstream is scale-free, so the axis is never normalised here; the
/// embedding application divides by lengths where floats live.
#[derive(Clone, Copy, PartialEq, Eq, Structural, Debug)]
pub struct GrabInfo {
    pub position: Vec3,
    pub direction: Vec3,
}

/// Truncating division by four (rounds toward zero), the mean of four
/// fixed-point coordinates.
pub open spec fn div4_trunc(s: int) -> int {
    if s >= 0 {
        s / 4
    } else {
        -((-s) / 4)
    }
}

pub open spec fn center_x(h: HandJoints) -> int {
    div4_trunc(
        h.index_proximal@.x + h.little_proximal@.x + h.middle_distal@.x + h.little_distal@.x,
    )
}

pub open spec fn center_y(h: HandJoints) -> int {
    div4_trunc(
        h.index_proximal@.y + h.little_proximal@.y + h.middle_distal@.y + h.little_distal@.y,
    )
}

pub open spec fn center_z(h: HandJoints) -> int {
    div4_trunc(
        h.index_proximal@.z + h.little_proximal@.z + h.middle_distal@.z + h.little_distal@.z,
    )
}

/// The knuckle-row axis: the proximal-row and distal-row lateral axes
/// summed, which averages them up to the scale factor two.
pub open spec fn direction_spec(h: HandJoints) -> V3 {
    v3_add(
        v3_sub(h.index_proximal@, h.little_proximal@),
        v3_sub(h.middle_distal@, h.little_distal@),
    )
}

/// The grip frame of a hand, as a value of the exec type.
pub open spec fn grip_frame_spec(h: HandJoints) -> GrabInfo {
    GrabInfo {
        position: Vec3 {
            x: center_x(h) as i64,
            y: center_y(h) as i64,
            z: center_z(h) as i64,
        },
        direction: Vec3 {
            x: direction_spec(h).x as i64,
            y: direction_spec(h).y as i64,
            z: direction_spec(h).z as i64,
        },
    }
}

pub open spec fn hand_bounded(h: HandJoints) -> bool {
    &&& v3_bounded(h.index_proximal@, COORD_LIMIT as int)
    &&& v3_bounded(h.little_proximal@, COORD_LIMIT as int)
    &&& v3_bounded(h.middle_distal@, COORD_LIMIT as int)
    &&& v3_bounded(h.little_distal@, COORD_LIMIT as int)
}

/// Every hand payload of the frame lies inside the world-size bound that
/// keeps the solver's fixed-point arithmetic inside its integer widths.
pub open spec fn events_bounded(s: Seq<InputEvent>) -> bool {
    forall|i: int|
        0 <= i < s.len() ==> match #[trigger] s[i].payload {
            InputPayload::Hand(h) => hand_bounded(h),
            InputPayload::Other => true,
        }
}

/// Truncating division of a summed coordinate by four.
fn div4(s: i64) -> (r: i64)
    requires
        -4 * COORD_LIMIT <= s <= 4 * COORD_LIMIT,
    ensures
        r == div4_trunc(s as int),
        -COORD_LIMIT <= r <= COORD_LIMIT,
{
    if s >= 0 {
        ((s as u64) / 4) as i64
    } else {
        -(((-s) as u64 / 4) as i64)
    }
}

/// The grip frame of a hand: the arithmetic mean of the four knuckle
/// positions, and the unnormalised knuckle-row axis.  Both are exact,
/// deterministic functions of the four joint positions.
pub fn grip_frame(h: &HandJoints) -> (g: GrabInfo)
    requires
        hand_bounded(*h),
    ensures
        g == grip_frame_spec(*h),
        v3_bounded(g.position@, COORD_LIMIT as int),
        v3_bounded(g.direction@, DIR_LIMIT as int),
{
    let position = Vec3 {
        x: div4(
            h.index_proximal.x + h.little_proximal.x + h.middle_distal.x + h.little_distal.x,
        ),
        y: div4(
            h.index_proximal.y + h.little_proximal.y + h.middle_distal.y + h.little_distal.y,
        ),
        z: div4(
            h.index_proximal.z + h.little_proximal.z + h.middle_distal.z + h.little_distal.z,
        ),
    };
    let proximal = sub_vec3(&h.index_proximal, &h.little_proximal);
    let distal = sub_vec3(&h.middle_distal, &h.little_distal);
    let direction = Vec3 {
        x: proximal.x + distal.x,
        y: proximal.y + distal.y,
        z: proximal.z + distal.z,
    };
    GrabInfo { position, direction }
}

/// A reparenting move of the handle's own root, decided by the hold
/// edges: on grab start the root re-bases at the hold centre, on grab
/// stop it re-bases back at the handle's rest-pose part.
#[derive(Clone, Copy, PartialEq, Eq, Structural, Debug)]
pub enum RootMove {
    Stay,
    ToHoldCenter,
    ToHandlePart,
}

/// A cross-handle parenting transition: which parent this handle's root
/// should sit under after the frame.
#[derive(Clone, Copy, PartialEq, Eq, Structural, Debug)]
pub enum Parenting {
    Keep,
    UnderPeer,
    UnderRoot,
}

/// The orthogonal (unnormalised) orientation basis the solver computed:
/// the columns of the rotation matrix, up to positive per-column scale.
#[derive(Clone, Copy, PartialEq, Eq, Structural, Debug)]
pub struct Basis {
    pub x: Vec3Wide,
    pub y: Vec3,
    pub z: Vec3Wide,
}

/// The transform write of the frame for this handle's root.
#[derive(Clone, Copy, PartialEq, Eq, Structural, Debug)]
pub enum PoseWrite {
    Skip,
    Translate(Vec3),
    TranslateRotate(Vec3, Basis),
}

/// The solver's whole result for one handle and one frame.
#[derive(Clone, Copy, PartialEq, Eq, Structural, Debug)]
pub struct PeerUpdate {
    pub parenting: Parenting,
    pub pose: PoseWrite,
}

/// One grippable side of the object.
pub struct Handle {
    /// Whether this is the right-hand side; immutable after construction,
    /// it selects the 180-degree mirroring correction of the basis.
    pub right: bool,
    pub hold_action: GrabDetector,
    pub grab_info: Option<GrabInfo>,
}

/// The unmirrored first basis column: the vector toward the peer's grip,
/// with the component along this grip's own axis rejected, scaled by the
/// positive factor `direction . direction`.
pub open spec fn basis_x_raw(g: GrabInfo, og: GrabInfo) -> V3 {
    v3_reject_scaled(v3_sub(og.position@, g.position@), g.direction@)
}

/// The unmirrored third basis column.
pub open spec fn basis_z_raw(g: GrabInfo, og: GrabInfo) -> V3 {
    v3_cross(basis_x_raw(g, og), g.direction@)
}

/// The first basis column, mirrored for the right-hand side: a rotation
/// by 180 degrees about the middle column negates the outer two.
pub open spec fn basis_x(g: GrabInfo, og: GrabInfo, right: bool) -> V3 {
    if right {
        v3_neg(basis_x_raw(g, og))
    } else {
        basis_x_raw(g, og)
    }
}

/// The third basis column, mirrored for the right-hand side.
pub open spec fn basis_z(g: GrabInfo, og: GrabInfo, right: bool) -> V3 {
    if right {
        v3_neg(basis_z_raw(g, og))
    } else {
        basis_z_raw(g, og)
    }
}

/// The grip frames are degenerate when the rejection collapses to zero:
/// the two grips coincide, or the line between them runs along this
/// grip's own axis, or the axis itself is zero.  The solver then falls
/// back to the translate-only pose rather than invent an orientation.
pub open spec fn degenerate(g: GrabInfo, og: GrabInfo) -> bool {
    basis_x_raw(g, og) == v3_zero() || basis_z_raw(g, og) == v3_zero()
}

/// What the solver owes for the frame's transform write: both grips
/// present and non-degenerate give the full re-orienting pose at this
/// grip's centre; a lone grip translates only; no grip writes nothing.
pub open spec fn pose_ok(h: Handle, other: Handle, pose: PoseWrite) -> bool {
    match (h.grab_info, other.grab_info) {
        (Some(g), Some(og)) => if degenerate(g, og) {
            pose == PoseWrite::Translate(g.position)
        } else {
            match pose {
                PoseWrite::TranslateRotate(p, b) => {
                    &&& p == g.position
                    &&& b.x@ == basis_x(g, og, h.right)
                    &&& b.y == g.direction
                    &&& b.z@ == basis_z(g, og, h.right)
                },
                _ => false,
            }
        },
        (Some(g), None) => pose == PoseWrite::Translate(g.position),
        (None, _) => pose == PoseWrite::Skip,
    }
}

/// The cross-handle parenting decision, from both handles' hold edges.
/// Parenting under the peer happens when the peer begins to drive the
/// shared frame (it started while this side is free, or it keeps holding
/// while this side stopped); unparenting back to the root happens when
/// this side takes over or the peer lets go.
pub open spec fn parenting_spec(sd: GrabDetector, od: GrabDetector) -> Parenting {
    let parent = (!sd.acting() && od.started) || (sd.stopped && od.acting());
    let unparent = (sd.started && od.acting()) || (!sd.acting() && od.stopped);
    if unparent {
        Parenting::UnderRoot
    } else if parent {
        Parenting::UnderPeer
    } else {
        Parenting::Keep
    }
}

/// This handle's one-frame step as a mathematical function: the detector
/// steps, and the grip frame follows the actor — refreshed from the
/// actor's hand, kept stale for a frame on a non-hand actor, dropped on
/// release.
pub open spec fn handle_step(h: Handle, s: Seq<InputEvent>) -> Handle {
    let d = detector_step(h.hold_action, s);
    Handle {
        right: h.right,
        hold_action: d,
        grab_info: match d.actor {
            Some(e) => match e.payload {
                InputPayload::Hand(hj) => Some(grip_frame_spec(hj)),
                InputPayload::Other => h.grab_info,
            },
            None => None,
        },
    }
}

/// The reparenting move `update_single` owes: re-base at the hold centre
/// on the frame the hold starts, back at the handle part on the frame it
/// stops.
pub open spec fn root_move_spec(h: Handle, s: Seq<InputEvent>) -> RootMove {
    let d = detector_step(h.hold_action, s);
    if d.started {
        RootMove::ToHoldCenter
    } else if d.stopped {
        RootMove::ToHandlePart
    } else {
        RootMove::Stay
    }
}

impl Handle {
    /// The handle's invariant: a grip frame exists exactly while an
    /// actor holds the handle, and it is the actor's hand's grip frame,
    /// inside the world-size bound.
    pub open spec fn wf(self) -> bool {
        &&& self.hold_action.wf()
        &&& (self.grab_info is Some <==> self.hold_action.actor is Some)
        &&& match (self.hold_action.actor, self.grab_info) {
            (Some(e), Some(g)) => match e.payload {
                InputPayload::Hand(hj) => g == grip_frame_spec(hj),
                InputPayload::Other => false,
            },
            _ => true,
        }
        &&& match self.grab_info {
            Some(g) => v3_bounded(g.position@, COORD_LIMIT as int) && v3_bounded(
                g.direction@,
                DIR_LIMIT as int,
            ),
            None => true,
        }
    }

    /// A fresh handle for one side, not held by anything.
    pub fn new(right: bool) -> (h: Handle)
        ensures
            h.right == right,
            h.hold_action.actor is None,
            !h.hold_action.started,
            !h.hold_action.stopped,
            h.grab_info is None,
            h.wf(),
    {
        Handle { right, hold_action: GrabDetector::new(), grab_info: None }
    }

    /// One frame of grab detection and grip-frame estimation for this
    /// handle alone, from the frame's input candidates.  The result is
    /// the reparenting move of the handle's own root for this frame.
    pub fn update_single(&mut self, events: &Vec<InputEvent>) -> (mv: RootMove)
        requires
            old(self).wf(),
            events_bounded(events@),
        ensures
            *final(self) == handle_step(*old(self), events@),
            mv == root_move_spec(*old(self), events@),
            final(self).wf(),
    {
        self.hold_action.update(events);

        let mv = if self.hold_action.actor_started() {
            RootMove::ToHoldCenter
        } else if self.hold_action.actor_stopped() {
            RootMove::ToHandlePart
        } else {
            RootMove::Stay
        };

        proof {
            lemma_single_actor(old(self).hold_action.actor, events@);
        }
        match self.hold_action.actor() {
            Some(holding) => match holding.payload {
                InputPayload::Hand(hand) => {
                    proof {
                        let i = choose|i: int|
                            0 <= i < events@.len() && events@[i] == holding;
                        assert(events@[i].payload == InputPayload::Hand(hand));
                        assert(hand_bounded(hand));
                    }
                    self.grab_info = Some(grip_frame(&hand));
                },
                InputPayload::Other => {
                    // Unreachable while the detector gates on hands; the
                    // grip frame then stays stale for exactly one frame.
                },
            },
            None => {
                self.grab_info = None;
            },
        }
        mv
    }

    /// One frame of the dual-handle pose solver: reads this handle's and
    /// the peer's already-updated state and names the parenting
    /// transition and the transform write for this handle's root.
    pub fn update_with_other(&self, other: &Handle) -> (r: PeerUpdate)
        requires
            self.wf(),
            other.wf(),
        ensures
            r.parenting == parenting_spec(self.hold_action, other.hold_action),
            pose_ok(*self, *other, r.pose),
    {
        let do_parent_single = !self.hold_action.actor_acting()
            && other.hold_action.actor_started();
        let do_parent_both = self.hold_action.actor_stopped()
            && other.hold_action.actor_acting();
        let do_unparent_single = self.hold_action.actor_started()
            && other.hold_action.actor_acting();
        let do_unparent_both = !self.hold_action.actor_acting()
            && other.hold_action.actor_stopped();

        let parenting = if do_unparent_single || do_unparent_both {
            Parenting::UnderRoot
        } else if do_parent_single || do_parent_both {
            Parenting::UnderPeer
        } else {
            Parenting::Keep
        };

        let pose = match (&self.grab_info, &other.grab_info) {
            (Some(g), Some(og)) => {
                let delta = sub_vec3(&og.position, &g.position);
                let x = reject_scaled(&delta, &g.direction);
                if is_zero_wide(&x) {
                    PoseWrite::Translate(g.position)
                } else {
                    let z = cross_wide(&x, &g.direction);
                    if is_zero_wide(&z) {
                        PoseWrite::Translate(g.position)
                    } else if self.right {
                        PoseWrite::TranslateRotate(
                            g.position,
                            Basis { x: neg_wide(&x), y: g.direction, z: neg_wide(&z) },
                        )
                    } else {
                        PoseWrite::TranslateRotate(
                            g.position,
                            Basis { x, y: g.direction, z },
                        )
                    }
                }
            },
            (Some(g), None) => PoseWrite::Translate(g.position),
            (None, _) => PoseWrite::Skip,
        };

        PeerUpdate { parenting, pose }
    }
}

/// Basis orthogonality: for any two grip frames, mirrored or not, the
/// three basis columns are pairwise orthogonal — exactly, in the
/// fixed-point model.  (Their unit lengths exist only after the
/// embedding application normalises each column in floating point.)
pub proof fn lemma_basis_orthogonal(g: GrabInfo, og: GrabInfo, right: bool)
    ensures
        v3_dot(basis_x(g, og, right), g.direction@) == 0,
        v3_dot(basis_z(g, og, right), g.direction@) == 0,
        v3_dot(basis_x(g, og, right), basis_z(g, og, right)) == 0,
{
    let delta = v3_sub(og.position@, g.position@);
    let d = g.direction@;
    let x = basis_x_raw(g, og);
    let z = basis_z_raw(g, og);
    lemma_reject_orthogonal(delta, d);
    lemma_cross_orthogonal(x, d);
    lemma_dot_neg(x, d);
    lemma_dot_neg(z, d);
    lemma_dot_neg(x, z);
    lemma_dot_neg(v3_neg(x), v3_neg(z));
}

/// Mirroring correction: the right-hand side's basis is exactly the
/// left-style basis rotated 180 degrees about its own direction axis —
/// the outer columns negated, the direction column kept.
pub proof fn lemma_mirroring(g: GrabInfo, og: GrabInfo)
    ensures
        basis_x(g, og, true) == v3_neg(basis_x(g, og, false)),
        basis_z(g, og, true) == v3_neg(basis_z(g, og, false)),
{
}

/// Release cleanup: on the frame the hold stops, the grip frame is gone
/// and the handle's root re-bases at its rest-pose part.
pub proof fn lemma_release_cleanup(h: Handle, s: Seq<InputEvent>)
    requires
        h.wf(),
    ensures
        detector_step(h.hold_action, s).stopped ==> handle_step(h, s).grab_info is None
            && root_move_spec(h, s) == RootMove::ToHandlePart,
{
}

} // verus!
