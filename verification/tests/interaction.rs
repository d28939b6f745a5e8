use phobetor::acceptor_relay::AcceptorRelay;
use phobetor::grab::{GrabDetector, HandJoints, InputEvent, InputPayload};
use phobetor::handle::{grip_frame, Handle, Parenting, PoseWrite, RootMove};
use phobetor::phobetor::Phobetor;
use phobetor::vecmath::Vec3;

// Coordinates are in tenths of a millimetre: one metre is 10_000 units.

fn v(x: i64, y: i64, z: i64) -> Vec3 {
    Vec3 { x, y, z }
}

/// A hand whose knuckle rows sit `spread` apart around `center`, with the
/// knuckle-row axis along `axis` (unnormalised scale: `2 * spread`).
fn hand_at(center: Vec3, axis_half: Vec3) -> HandJoints {
    let plus = v(
        center.x + axis_half.x,
        center.y + axis_half.y,
        center.z + axis_half.z,
    );
    let minus = v(
        center.x - axis_half.x,
        center.y - axis_half.y,
        center.z - axis_half.z,
    );
    HandJoints {
        index_proximal: plus,
        little_proximal: minus,
        middle_distal: plus,
        little_distal: minus,
    }
}

fn hand_event(id: u64, distance: i64, grab_strength: i64, hand: HandJoints) -> InputEvent {
    InputEvent {
        id,
        distance,
        grab_strength,
        payload: InputPayload::Hand(hand),
    }
}

fn held_event(id: u64, hand: HandJoints) -> InputEvent {
    hand_event(id, 100, 900, hand)
}

fn dot(a: (i128, i128, i128), b: (i128, i128, i128)) -> i128 {
    a.0 * b.0 + a.1 * b.1 + a.2 * b.2
}

#[test]
fn grip_frame_literal() {
    // Knuckles at (0,0,0), (1,0,0), (0,1,1), (1,1,1) metres.
    let h = HandJoints {
        index_proximal: v(0, 0, 0),
        little_proximal: v(10_000, 0, 0),
        middle_distal: v(0, 10_000, 10_000),
        little_distal: v(10_000, 10_000, 10_000),
    };
    let g = grip_frame(&h);
    // The centre is the arithmetic mean: (0.5, 0.5, 0.5) metres.
    assert_eq!(g.position, v(5_000, 5_000, 5_000));
    // The knuckle-row axis points along -x (unnormalised).
    assert_eq!(g.direction, v(-20_000, 0, 0));
}

#[test]
fn grip_frame_deterministic() {
    let h = hand_at(v(123, -456, 789), v(10, 20, 30));
    assert_eq!(grip_frame(&h), grip_frame(&h));
}

#[test]
fn grip_frame_truncates_toward_zero() {
    let h = HandJoints {
        index_proximal: v(-1, 0, 0),
        little_proximal: v(-1, 0, 0),
        middle_distal: v(-1, 0, 0),
        little_distal: v(0, 0, 0),
    };
    // The coordinate sum is -3; the mean truncates toward zero.
    assert_eq!(grip_frame(&h).position, v(0, 0, 0));
}

#[test]
fn detector_picks_first_qualifying() {
    let mut d = GrabDetector::new();
    let a = held_event(1, hand_at(v(0, 0, 0), v(100, 0, 0)));
    let b = held_event(2, hand_at(v(50, 0, 0), v(100, 0, 0)));
    d.update(&vec![a, b]);
    assert_eq!(d.actor().unwrap().id, 1);
    assert!(d.actor_started());
}

#[test]
fn detector_keeps_current_actor() {
    let mut d = GrabDetector::new();
    let b = held_event(2, hand_at(v(50, 0, 0), v(100, 0, 0)));
    d.update(&vec![b]);
    assert_eq!(d.actor().unwrap().id, 2);
    // A new candidate earlier in the list does not steal the hold.
    let a = held_event(1, hand_at(v(0, 0, 0), v(100, 0, 0)));
    d.update(&vec![a, b]);
    assert_eq!(d.actor().unwrap().id, 2);
    assert!(!d.actor_started());
    assert!(!d.actor_stopped());
}

#[test]
fn detector_gates() {
    let mut d = GrabDetector::new();
    let hand = hand_at(v(0, 0, 0), v(100, 0, 0));
    // Not a hand.
    d.update(&vec![InputEvent {
        id: 1,
        distance: 0,
        grab_strength: 1000,
        payload: InputPayload::Other,
    }]);
    assert!(d.actor().is_none());
    // A hand, but too far (250 units are 25 mm).
    d.update(&vec![hand_event(1, 250, 1000, hand)]);
    assert!(d.actor().is_none());
    // A hand, near, but gripping too weakly (750 is 0.75).
    d.update(&vec![hand_event(1, 100, 750, hand)]);
    assert!(d.actor().is_none());
    // A hand, near, gripping strongly.
    d.update(&vec![hand_event(1, 249, 751, hand)]);
    assert_eq!(d.actor().unwrap().id, 1);
}

#[test]
fn detector_edge_triggering() {
    let mut d = GrabDetector::new();
    let e = held_event(1, hand_at(v(0, 0, 0), v(100, 0, 0)));
    d.update(&vec![]);
    assert!(!d.actor_started() && !d.actor_stopped());
    d.update(&vec![e]);
    assert!(d.actor_started() && !d.actor_stopped());
    d.update(&vec![e]);
    assert!(!d.actor_started() && !d.actor_stopped());
    d.update(&vec![]);
    assert!(!d.actor_started() && d.actor_stopped());
    d.update(&vec![]);
    assert!(!d.actor_started() && !d.actor_stopped());
}

#[test]
fn release_cleanup() {
    let mut p = Phobetor::new();
    let e = held_event(1, hand_at(v(0, 0, 0), v(100, 0, 0)));
    let r = p.frame(&vec![e], &vec![]);
    assert_eq!(r.left_root, RootMove::ToHoldCenter);
    assert!(p.handles.0.grab_info.is_some());
    let r = p.frame(&vec![], &vec![]);
    assert_eq!(r.left_root, RootMove::ToHandlePart);
    assert!(p.handles.0.grab_info.is_none());
}

#[test]
fn scenario_one_hand_translates_only() {
    let mut p = Phobetor::new();
    let e1 = held_event(1, hand_at(v(1_000, 2_000, 3_000), v(0, 100, 0)));
    let r = p.frame(&vec![e1], &vec![]);
    assert_eq!(r.left_root, RootMove::ToHoldCenter);
    assert_eq!(r.left_update.pose, PoseWrite::Translate(v(1_000, 2_000, 3_000)));
    // The free peer parents under the newly holding handle.
    assert_eq!(r.right_update.parenting, Parenting::UnderPeer);
    // The hand moves; the object follows the knuckle centre, orientation
    // untouched (a translate-only write every frame).
    let e2 = held_event(1, hand_at(v(1_500, 2_000, 3_000), v(0, 100, 0)));
    let r = p.frame(&vec![e2], &vec![]);
    assert_eq!(r.left_root, RootMove::Stay);
    assert_eq!(r.left_update.pose, PoseWrite::Translate(v(1_500, 2_000, 3_000)));
    assert_eq!(r.right_update.parenting, Parenting::Keep);
}

#[test]
fn scenario_two_hands_bend() {
    let mut p = Phobetor::new();
    // Grips 0.3 m apart along x; axes along y and z: non-parallel.
    let left_hand = hand_at(v(0, 0, 0), v(0, 1_000, 0));
    let right_hand = hand_at(v(3_000, 0, 0), v(0, 0, 1_000));
    let r = p.frame(
        &vec![held_event(1, left_hand)],
        &vec![held_event(2, right_hand)],
    );
    let (lp, lb) = match r.left_update.pose {
        PoseWrite::TranslateRotate(pos, b) => (pos, b),
        other => panic!("left pose not re-orienting: {:?}", other),
    };
    let (rp, rb) = match r.right_update.pose {
        PoseWrite::TranslateRotate(pos, b) => (pos, b),
        other => panic!("right pose not re-orienting: {:?}", other),
    };
    assert_eq!(lp, v(0, 0, 0));
    assert_eq!(rp, v(3_000, 0, 0));
    for b in [&lb, &rb] {
        let x = (b.x.x, b.x.y, b.x.z);
        let y = (b.y.x as i128, b.y.y as i128, b.y.z as i128);
        let z = (b.z.x, b.z.y, b.z.z);
        // Pairwise orthogonal, and no column is zero.
        assert_eq!(dot(x, y), 0);
        assert_eq!(dot(x, z), 0);
        assert_eq!(dot(y, z), 0);
        assert!(dot(x, x) > 0 && dot(y, y) > 0 && dot(z, z) > 0);
    }
    // The raw x-axes point toward each other: the left one along +x, the
    // right one along -x before its mirroring correction (so along +x
    // after it).
    assert!(lb.x.x > 0 && lb.x.y == 0 && lb.x.z == 0);
    assert!(rb.x.x > 0 && rb.x.y == 0 && rb.x.z == 0);
}

#[test]
fn scenario_release_both() {
    let mut p = Phobetor::new();
    let left_hand = hand_at(v(0, 0, 0), v(0, 1_000, 0));
    let right_hand = hand_at(v(3_000, 0, 0), v(0, 0, 1_000));
    p.frame(
        &vec![held_event(1, left_hand)],
        &vec![held_event(2, right_hand)],
    );
    // Both hands let go in the same frame.
    let r = p.frame(&vec![], &vec![]);
    assert_eq!(r.left_root, RootMove::ToHandlePart);
    assert_eq!(r.right_root, RootMove::ToHandlePart);
    assert!(p.handles.0.grab_info.is_none());
    assert!(p.handles.1.grab_info.is_none());
    assert_eq!(r.left_update.pose, PoseWrite::Skip);
    assert_eq!(r.right_update.pose, PoseWrite::Skip);
    // Both roots return under the shared root frame.
    assert_eq!(r.left_update.parenting, Parenting::UnderRoot);
    assert_eq!(r.right_update.parenting, Parenting::UnderRoot);
}

#[test]
fn mirroring_correction() {
    // Identical grips on a left-configured and a right-configured handle:
    // the right basis is the left one with the outer columns negated.
    let mut left = Handle::new(false);
    let mut right = Handle::new(true);
    let mut peer = Handle::new(false);
    let own_hand = hand_at(v(0, 0, 0), v(0, 1_000, 0));
    let peer_hand = hand_at(v(3_000, 0, 400), v(0, 0, 1_000));
    left.update_single(&vec![held_event(1, own_hand)]);
    right.update_single(&vec![held_event(1, own_hand)]);
    peer.update_single(&vec![held_event(2, peer_hand)]);
    let lb = match left.update_with_other(&peer).pose {
        PoseWrite::TranslateRotate(_, b) => b,
        other => panic!("left pose not re-orienting: {:?}", other),
    };
    let rb = match right.update_with_other(&peer).pose {
        PoseWrite::TranslateRotate(_, b) => b,
        other => panic!("right pose not re-orienting: {:?}", other),
    };
    assert_eq!((rb.x.x, rb.x.y, rb.x.z), (-lb.x.x, -lb.x.y, -lb.x.z));
    assert_eq!(rb.y, lb.y);
    assert_eq!((rb.z.x, rb.z.y, rb.z.z), (-lb.z.x, -lb.z.y, -lb.z.z));
}

#[test]
fn degenerate_grips_fall_back_to_translate() {
    // Coinciding grip centres: the rejection is zero, so the solver
    // falls back to the translate-only pose instead of an orientation.
    let mut a = Handle::new(false);
    let mut b = Handle::new(false);
    let hand = hand_at(v(500, 500, 500), v(0, 1_000, 0));
    a.update_single(&vec![held_event(1, hand)]);
    b.update_single(&vec![held_event(2, hand)]);
    let pose = a.update_with_other(&b).pose;
    assert_eq!(pose, PoseWrite::Translate(v(500, 500, 500)));
}

#[test]
fn parallel_grips_fall_back_to_translate() {
    // The line between the grips runs along the grip's own axis.
    let mut a = Handle::new(false);
    let mut b = Handle::new(false);
    a.update_single(&vec![held_event(1, hand_at(v(0, 0, 0), v(0, 1_000, 0)))]);
    b.update_single(&vec![held_event(2, hand_at(v(0, 2_000, 0), v(0, 500, 0)))]);
    let pose = a.update_with_other(&b).pose;
    assert_eq!(pose, PoseWrite::Translate(v(0, 0, 0)));
}

#[test]
fn handover_unparents_the_new_holder() {
    // The peer already holds; this side starts holding too: this side's
    // root leaves the peer's frame and drives itself again.
    let mut p = Phobetor::new();
    let right_hand = hand_at(v(3_000, 0, 0), v(0, 0, 1_000));
    p.frame(&vec![], &vec![held_event(2, right_hand)]);
    let left_hand = hand_at(v(0, 0, 0), v(0, 1_000, 0));
    let r = p.frame(&vec![held_event(1, left_hand)], &vec![held_event(2, right_hand)]);
    assert_eq!(r.left_update.parenting, Parenting::UnderRoot);
    assert_eq!(r.right_update.parenting, Parenting::Keep);
}

#[test]
fn relay_capture_replaces() {
    let mut relay = AcceptorRelay::new();
    relay.captured(String::from("first"));
    relay.captured(String::from("second"));
    assert_eq!(relay.slot.as_ref().unwrap().uid, "second");
}

#[test]
fn relay_release_matches_id() {
    let mut relay = AcceptorRelay::new();
    relay.captured(String::from("panel"));
    // A release of some other item leaves the slot alone.
    assert!(!relay.released(String::from("other")));
    assert_eq!(relay.slot.as_ref().unwrap().uid, "panel");
    // A matching release clears it.
    assert!(relay.released(String::from("panel")));
    assert!(relay.slot.is_none());
    // Releasing from an empty slot reports no change.
    assert!(!relay.released(String::from("panel")));
}
