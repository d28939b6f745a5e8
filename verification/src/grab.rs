//! Per-handle grab detection: a proximity gate, a grab-strength gate, and
//! a single-actor hold state machine with edge-triggered start and stop.
//!
//! Input candidates arrive once per frame as plain values: a distance to
//! the handle's field, a payload (a hand skeleton's four knuckle joints,
//! or some other device), and a grab-strength channel.  Distances are in
//! tenths of a millimetre, strengths in thousandths.

use vstd::prelude::*;

use crate::vecmath::Vec3;

verus! {

/// Proximity gate: a candidate qualifies only below this distance to the
/// handle's field (250 units: 25 millimetres).
pub const GRAB_DISTANCE: i64 = 250;

/// Grab-strength gate: the candidate's grab-strength channel must exceed
/// this value (750 thousandths: 0.75).
pub const GRAB_STRENGTH_MIN: i64 = 750;

/// The four knuckle joint positions the grip-frame estimator samples.
#[derive(Clone, Copy, PartialEq, Eq, Structural, Debug)]
pub struct HandJoints {
    pub index_proximal: Vec3,
    pub little_proximal: Vec3,
    pub middle_distal: Vec3,
    pub little_distal: Vec3,
}

/// The categorised payload of an input candidate.
#[derive(Clone, Copy, PartialEq, Eq, Structural, Debug)]
pub enum InputPayload {
    Hand(HandJoints),
    Other,
}

/// One candidate input event for one frame.
#[derive(Clone, Copy, PartialEq, Eq, Structural, Debug)]
pub struct InputEvent {
    /// Stable identifier of the input source across frames.
    pub id: u64,
    /// Distance to the handle's proximity field, in tenths of a millimetre.
    pub distance: i64,
    /// The "grab_strength" channel of the event's data map, in thousandths.
    pub grab_strength: i64,
    pub payload: InputPayload,
}

/// A candidate may hold the handle: it is a hand, it is near enough, and
/// it grips strongly enough.
pub open spec fn qualifies(e: InputEvent) -> bool {
    &&& e.payload is Hand
    &&& e.distance < GRAB_DISTANCE
    &&& e.grab_strength > GRAB_STRENGTH_MIN
}

/// The first qualifying candidate of the frame, if any.
pub open spec fn first_qualifying(s: Seq<InputEvent>) -> Option<InputEvent>
    decreases s.len(),
{
    if s.len() == 0 {
        None
    } else {
        let prior = first_qualifying(s.drop_last());
        if prior is Some {
            prior
        } else if qualifies(s.last()) {
            Some(s.last())
        } else {
            None
        }
    }
}

/// The first qualifying candidate carrying the given source id, if any.
pub open spec fn first_qualifying_with_id(s: Seq<InputEvent>, id: u64) -> Option<InputEvent>
    decreases s.len(),
{
    if s.len() == 0 {
        None
    } else {
        let prior = first_qualifying_with_id(s.drop_last(), id);
        if prior is Some {
            prior
        } else if qualifies(s.last()) && s.last().id == id {
            Some(s.last())
        } else {
            None
        }
    }
}

/// The actor after one frame: a still-qualifying current actor keeps the
/// hold (refreshed with its newest event); otherwise the first qualifying
/// candidate takes it; no qualifying candidate releases it.
pub open spec fn next_actor(cur: Option<InputEvent>, s: Seq<InputEvent>) -> Option<InputEvent> {
    match cur {
        Some(c) => match first_qualifying_with_id(s, c.id) {
            Some(e) => Some(e),
            None => first_qualifying(s),
        },
        None => first_qualifying(s),
    }
}

/// The single-actor hold state machine of one handle.
#[derive(Clone, Copy, PartialEq, Eq, Structural, Debug)]
pub struct GrabDetector {
    /// The one input source currently holding the handle, if any.
    pub actor: Option<InputEvent>,
    /// True exactly on the frame the actor went from absent to present.
    pub started: bool,
    /// True exactly on the frame the actor went from present to absent.
    pub stopped: bool,
}

impl GrabDetector {
    /// The detector's invariant: edge flags cohere with presence, and a
    /// present actor always qualifies.
    pub open spec fn wf(self) -> bool {
        &&& self.started ==> self.actor is Some
        &&& self.stopped ==> self.actor is None
        &&& !(self.started && self.stopped)
        &&& match self.actor {
            Some(e) => qualifies(e),
            None => true,
        }
    }

    pub open spec fn acting(self) -> bool {
        self.actor is Some
    }

    pub fn new() -> (d: GrabDetector)
        ensures
            d.actor is None,
            !d.started,
            !d.stopped,
            d.wf(),
    {
        GrabDetector { actor: None, started: false, stopped: false }
    }

    pub fn actor(&self) -> (r: Option<InputEvent>)
        ensures
            r == self.actor,
    {
        self.actor
    }

    pub fn actor_acting(&self) -> (r: bool)
        ensures
            r == self.acting(),
    {
        self.actor.is_some()
    }

    pub fn actor_started(&self) -> (r: bool)
        ensures
            r == self.started,
    {
        self.started
    }

    pub fn actor_stopped(&self) -> (r: bool)
        ensures
            r == self.stopped,
    {
        self.stopped
    }

    /// Run one frame of grab detection over the frame's candidates.
    pub fn update(&mut self, events: &Vec<InputEvent>)
        ensures
            *final(self) == detector_step(*old(self), events@),
            final(self).wf(),
    {
        let cur: Option<InputEvent> = self.actor;
        let mut found: Option<InputEvent> = None;
        let mut found_cur: Option<InputEvent> = None;
        let n = events.len();
        for i in 0..n
            invariant
                n == events@.len(),
                found == first_qualifying(events@.take(i as int)),
                match cur {
                    Some(c) => found_cur == first_qualifying_with_id(events@.take(i as int), c.id),
                    None => found_cur is None,
                },
        {
            let e = events[i];
            proof {
                assert(events@.take(i as int + 1).drop_last() =~= events@.take(i as int));
                assert(events@.take(i as int + 1).last() == events@[i as int]);
            }
            if qualifies_exec(&e) {
                if found.is_none() {
                    found = Some(e);
                }
                if let Some(c) = cur {
                    if found_cur.is_none() && e.id == c.id {
                        found_cur = Some(e);
                    }
                }
            }
        }
        proof {
            assert(events@.take(n as int) =~= events@);
        }
        let new_actor: Option<InputEvent> = match cur {
            Some(_) => if found_cur.is_some() {
                found_cur
            } else {
                found
            },
            None => found,
        };
        self.started = cur.is_none() && new_actor.is_some();
        self.stopped = cur.is_some() && new_actor.is_none();
        self.actor = new_actor;
        proof {
            lemma_first_qualifying_props(events@);
            match cur {
                Some(c) => lemma_first_qualifying_with_id_props(events@, c.id),
                None => {},
            }
        }
    }
}

/// The detector's one-frame step as a mathematical function of its prior
/// state and the frame's candidates.
pub open spec fn detector_step(d: GrabDetector, s: Seq<InputEvent>) -> GrabDetector {
    let na = next_actor(d.actor, s);
    GrabDetector {
        actor: na,
        started: d.actor is None && na is Some,
        stopped: d.actor is Some && na is None,
    }
}

/// Exec mirror of `qualifies`.
pub fn qualifies_exec(e: &InputEvent) -> (r: bool)
    ensures
        r == qualifies(*e),
{
    matches!(e.payload, InputPayload::Hand(_)) && e.distance < GRAB_DISTANCE
        && e.grab_strength > GRAB_STRENGTH_MIN
}

/// What `first_qualifying` selects: a qualifying candidate from the list,
/// and `None` only when no candidate qualifies.
pub proof fn lemma_first_qualifying_props(s: Seq<InputEvent>)
    ensures
        match first_qualifying(s) {
            Some(e) => qualifies(e) && s.contains(e),
            None => forall|i: int| 0 <= i < s.len() ==> !qualifies(s[i]),
        },
    decreases s.len(),
{
    if s.len() > 0 {
        let t = s.drop_last();
        lemma_first_qualifying_props(t);
        match first_qualifying(t) {
            Some(e) => {
                let j = choose|j: int| 0 <= j < t.len() && t[j] == e;
                assert(s[j] == e);
            },
            None => {
                if qualifies(s.last()) {
                    assert(s[s.len() - 1] == s.last());
                } else {
                    assert forall|i: int| 0 <= i < s.len() implies !qualifies(s[i]) by {
                        if i < s.len() - 1 {
                            assert(t[i] == s[i]);
                        } else {
                            assert(s[i] == s.last());
                        }
                    }
                }
            },
        }
    }
}

/// What `first_qualifying_with_id` selects: a qualifying candidate with
/// the asked-for id, and `None` only when none such qualifies.
pub proof fn lemma_first_qualifying_with_id_props(s: Seq<InputEvent>, id: u64)
    ensures
        match first_qualifying_with_id(s, id) {
            Some(e) => qualifies(e) && e.id == id && s.contains(e),
            None => forall|i: int| 0 <= i < s.len() ==> !(qualifies(s[i]) && s[i].id == id),
        },
    decreases s.len(),
{
    if s.len() > 0 {
        let t = s.drop_last();
        lemma_first_qualifying_with_id_props(t, id);
        match first_qualifying_with_id(t, id) {
            Some(e) => {
                let j = choose|j: int| 0 <= j < t.len() && t[j] == e;
                assert(s[j] == e);
            },
            None => {
                if qualifies(s.last()) && s.last().id == id {
                    assert(s[s.len() - 1] == s.last());
                } else {
                    assert forall|i: int|
                        0 <= i < s.len() implies !(qualifies(s[i]) && s[i].id == id) by {
                        if i < s.len() - 1 {
                            assert(t[i] == s[i]);
                        } else {
                            assert(s[i] == s.last());
                        }
                    }
                }
            },
        }
    }
}

/// Single-actor exclusivity: whatever the prior actor and the frame's
/// candidates, the selection yields at most one holding source, and it is
/// a qualifying candidate of the frame; it is absent exactly when no
/// candidate qualifies.
pub proof fn lemma_single_actor(cur: Option<InputEvent>, s: Seq<InputEvent>)
    ensures
        forall|e1: InputEvent, e2: InputEvent|
            next_actor(cur, s) == Some(e1) && next_actor(cur, s) == Some(e2) ==> e1 == e2,
        match next_actor(cur, s) {
            Some(e) => qualifies(e) && s.contains(e),
            None => forall|i: int| 0 <= i < s.len() ==> !qualifies(s[i]),
        },
{
    lemma_first_qualifying_props(s);
    match cur {
        Some(c) => lemma_first_qualifying_with_id_props(s, c.id),
        None => {},
    }
}

/// Edge triggering: `started` is true exactly on a frame the actor goes
/// from absent to present, `stopped` exactly on a frame it goes from
/// present to absent; neither fires while presence is unchanged, and the
/// two never fire together.
pub proof fn lemma_edge_triggering(d: GrabDetector, s: Seq<InputEvent>)
    ensures
        detector_step(d, s).started == (d.actor is None && detector_step(d, s).actor is Some),
        detector_step(d, s).stopped == (d.actor is Some && detector_step(d, s).actor is None),
        (d.actor is Some <==> detector_step(d, s).actor is Some)
            ==> !detector_step(d, s).started && !detector_step(d, s).stopped,
        !(detector_step(d, s).started && detector_step(d, s).stopped),
{
}

} // verus!
