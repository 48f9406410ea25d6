use std::collections::{HashMap, HashSet};
use vstd::prelude::*;

use crate::error::Error;
use crate::event::{spec_encoded_event, spec_state_event, Event, EventQueue, EventRecord};
use crate::frame::SessionFrame;
use crate::utils::MyTime;

verus! {

broadcast use vstd::std_specs::hash::group_hash_axioms;

/// Lifecycle state of a session.
///
/// The machine is the simplified cycle Idle, Ready, Running, Stopping,
/// Idle; the running phases Synchronized, Visible and Focused collapse
/// into the single Focused state that gates action synchronization.
#[derive(Clone, Copy, Debug, PartialEq, Eq, Structural)]
pub enum SessionState {
    Idle,
    Ready,
    Focused,
    Stopping,
}

/// The protocol's numeric code for a lifecycle state, as written into
/// serialized state-change records.
pub open spec fn spec_session_state_code(s: SessionState) -> i32 {
    match s {
        SessionState::Idle => 1,
        SessionState::Ready => 2,
        SessionState::Focused => 5,
        SessionState::Stopping => 6,
    }
}

impl SessionState {
    /// The protocol's numeric code for this state.
    pub fn code(&self) -> (r: i32)
        ensures
            r == spec_session_state_code(*self),
    {
        match self {
            SessionState::Idle => 1,
            SessionState::Ready => 2,
            SessionState::Focused => 5,
            SessionState::Stopping => 6,
        }
    }
}

/// Which family a space attached to a session came from.
#[derive(Clone, Copy, Debug, PartialEq, Eq, Hash, Structural)]
pub enum SimulatedSessionSpace {
    Reference,
    Action,
}

/// The native graphics handles a session needs to allocate images,
/// carried as the raw 64-bit handle values the caller supplied.
#[derive(Clone, Copy, Debug, PartialEq, Eq, Structural)]
pub struct GraphicsBinding {
    pub instance: u64,
    pub physical_device: u64,
    pub device: u64,
    pub queue_family_index: u32,
    pub queue_index: u32,
}

/// One simulated session: the bound lifecycle context for one experience.
#[derive(Debug)]
pub struct SimulatedSession {
    pub instance_id: u64,
    pub id: u64,
    pub graphics_binding: GraphicsBinding,
    pub space_ids: HashMap<u64, SimulatedSessionSpace>,
    pub action_set_ids: HashSet<u64>,
    pub swapchain_ids: HashSet<u64>,
    pub state: SessionState,
    pub is_running: bool,
    pub frame: SessionFrame,
}

/// `s` with its lifecycle state replaced.
pub open spec fn spec_with_state(s: SimulatedSession, state: SessionState) -> SimulatedSession {
    SimulatedSession { state, ..s }
}

/// `s` with its running flag replaced.
pub open spec fn spec_with_running(s: SimulatedSession, is_running: bool) -> SimulatedSession {
    SimulatedSession { is_running, ..s }
}

impl SimulatedSession {
    /// Whether at least one space, one swapchain and one action set are attached.
    pub open spec fn ready_inputs_present(self) -> bool {
        &&& !self.space_ids@.is_empty()
        &&& !self.swapchain_ids@.is_empty()
        &&& !self.action_set_ids@.is_empty()
    }

    /// Whether recomputing readiness transitions this session to Ready.
    pub open spec fn becomes_ready(self) -> bool {
        self.state == SessionState::Idle && self.ready_inputs_present()
    }
}

/// The session after readiness is recomputed: Idle becomes Ready once all
/// three resource families are attached; every other state is kept.
pub open spec fn spec_check_ready_session(s: SimulatedSession) -> SimulatedSession {
    if s.becomes_ready() {
        spec_with_state(s, SessionState::Ready)
    } else {
        s
    }
}

/// The event queue after readiness is recomputed at time `now`: exactly
/// one Ready state-change record is appended when and only when the
/// session transitions.
pub open spec fn spec_check_ready_queue(
    s: SimulatedSession,
    q: Seq<EventRecord>,
    now: MyTime,
) -> Seq<EventRecord> {
    if s.becomes_ready() {
        q.push(spec_encoded_event(spec_state_event(s.id, SessionState::Ready, now)))
    } else {
        q
    }
}

impl SimulatedSession {
    /// A fresh session owned by instance `instance_id`. Creation schedules
    /// the initial Idle state-change record on the instance's queue.
    pub fn new(
        instance_id: u64,
        id: u64,
        graphics_binding: GraphicsBinding,
        queue: &mut EventQueue,
        now: MyTime,
    ) -> (r: Self)
        ensures
            r.instance_id == instance_id,
            r.id == id,
            r.graphics_binding == graphics_binding,
            r.space_ids@ == Map::<u64, SimulatedSessionSpace>::empty(),
            r.action_set_ids@ == Set::<u64>::empty(),
            r.swapchain_ids@ == Set::<u64>::empty(),
            r.state == SessionState::Idle,
            !r.is_running,
            r.frame == (SessionFrame { waiting_begin: false, is_waited: false, is_began: false }),
            final(queue)@ == old(queue)@.push(
                spec_encoded_event(spec_state_event(id, SessionState::Idle, now)),
            ),
    {
        let sess = SimulatedSession {
            instance_id,
            id,
            graphics_binding,
            space_ids: HashMap::new(),
            action_set_ids: HashSet::new(),
            swapchain_ids: HashSet::new(),
            state: SessionState::Idle,
            is_running: false,
            frame: SessionFrame::new(),
        };
        let event = Event::SessionStateChanged { session: id, state: SessionState::Idle, time: now };
        queue.schedule(&event);
        sess
    }

    /// Recomputes readiness: an Idle session with all three resource
    /// families attached becomes Ready and schedules one state-change
    /// record; any other session, and its queue, are left untouched.
    /// In particular a session that already reached Ready never regresses.
    pub fn check_ready(&mut self, queue: &mut EventQueue, now: MyTime)
        ensures
            *final(self) == spec_check_ready_session(*old(self)),
            final(queue)@ == spec_check_ready_queue(*old(self), old(queue)@, now),
    {
        if matches!(self.state, SessionState::Idle) {
            if !self.space_ids.is_empty() && !self.swapchain_ids.is_empty()
                && !self.action_set_ids.is_empty() {
                self.state = SessionState::Ready;
                let event = Event::SessionStateChanged {
                    session: self.id,
                    state: SessionState::Ready,
                    time: now,
                };
                queue.schedule(&event);
                assert(*self == spec_with_state(*old(self), SessionState::Ready));
            }
        }
    }

    /// Attaches the space `space_id` of family `space_type`, then
    /// recomputes readiness.
    pub fn set_space(
        &mut self,
        space_type: SimulatedSessionSpace,
        space_id: u64,
        queue: &mut EventQueue,
        now: MyTime,
    )
        ensures
            final(self).space_ids@ == old(self).space_ids@.insert(space_id, space_type),
            final(self).action_set_ids@ == old(self).action_set_ids@,
            final(self).swapchain_ids@ == old(self).swapchain_ids@,
            spec_attach_outcome_holds(*old(self), *final(self), old(queue)@, final(queue)@, now),
    {
        self.space_ids.insert(space_id, space_type);
        self.check_ready(queue, now);
    }

    /// Whether `action_set_id` is attached to this session.
    pub fn has_attached_action_set(&self, action_set_id: u64) -> (r: bool)
        ensures
            r == self.action_set_ids@.contains(action_set_id),
    {
        self.action_set_ids.contains(&action_set_id)
    }

    /// Attaches an action set, rejecting a second attach of the same set,
    /// then recomputes readiness.
    pub fn attach_action_set(&mut self, action_set_id: u64, queue: &mut EventQueue, now: MyTime) -> (r:
        Result<(), Error>)
        ensures
            final(self).space_ids@ == old(self).space_ids@,
            final(self).swapchain_ids@ == old(self).swapchain_ids@,
            old(self).action_set_ids@.contains(action_set_id) ==> {
                &&& r == Err::<(), Error>(Error::ActionSetsAlreadyAttached)
                &&& final(self).action_set_ids@ == old(self).action_set_ids@
                &&& final(self).state == old(self).state
                &&& spec_session_core_unchanged(*old(self), *final(self))
                &&& final(queue)@ == old(queue)@
            },
            !old(self).action_set_ids@.contains(action_set_id) ==> {
                &&& r == Ok::<(), Error>(())
                &&& final(self).action_set_ids@ == old(self).action_set_ids@.insert(action_set_id)
                &&& spec_attach_outcome_holds(*old(self), *final(self), old(queue)@, final(queue)@, now)
            },
    {
        if !self.action_set_ids.insert(action_set_id) {
            proof {
                assert(self.action_set_ids@ =~= old(self).action_set_ids@);
            }
            Err(Error::ActionSetsAlreadyAttached)
        } else {
            self.check_ready(queue, now);
            Ok(())
        }
    }

    /// Attaches a swapchain, rejecting a second attach of the same one,
    /// then recomputes readiness.
    pub fn add_swapchain(&mut self, swapchain_id: u64, queue: &mut EventQueue, now: MyTime) -> (r:
        Result<(), Error>)
        ensures
            final(self).space_ids@ == old(self).space_ids@,
            final(self).action_set_ids@ == old(self).action_set_ids@,
            old(self).swapchain_ids@.contains(swapchain_id) ==> {
                &&& r == Err::<(), Error>(Error::ActionSetsAlreadyAttached)
                &&& final(self).swapchain_ids@ == old(self).swapchain_ids@
                &&& final(self).state == old(self).state
                &&& spec_session_core_unchanged(*old(self), *final(self))
                &&& final(queue)@ == old(queue)@
            },
            !old(self).swapchain_ids@.contains(swapchain_id) ==> {
                &&& r == Ok::<(), Error>(())
                &&& final(self).swapchain_ids@ == old(self).swapchain_ids@.insert(swapchain_id)
                &&& spec_attach_outcome_holds(*old(self), *final(self), old(queue)@, final(queue)@, now)
            },
    {
        if !self.swapchain_ids.insert(swapchain_id) {
            proof {
                assert(self.swapchain_ids@ =~= old(self).swapchain_ids@);
            }
            Err(Error::ActionSetsAlreadyAttached)
        } else {
            self.check_ready(queue, now);
            Ok(())
        }
    }

    /// Begins the session: moves Ready into the running phase.
    pub fn begin(&mut self) -> (r: Result<(), Error>)
        ensures
            old(self).is_running ==> {
                &&& r == Err::<(), Error>(Error::SessionRunning)
                &&& *final(self) == *old(self)
            },
            !old(self).is_running && old(self).state != SessionState::Ready ==> {
                &&& r == Err::<(), Error>(Error::SessionNotReady)
                &&& *final(self) == *old(self)
            },
            !old(self).is_running && old(self).state == SessionState::Ready ==> {
                &&& r == Ok::<(), Error>(())
                &&& *final(self) == spec_with_running(*old(self), true)
            },
    {
        if self.is_running {
            return Err(Error::SessionRunning);
        }
        if !matches!(self.state, SessionState::Ready) {
            return Err(Error::SessionNotReady);
        }
        self.is_running = true;
        Ok(())
    }

    /// Advances a running Ready session into the Focused running phase.
    /// Scheduling of further state-change records is not involved.
    pub fn synchronize(&mut self)
        ensures
            old(self).is_running && old(self).state == SessionState::Ready ==> *final(self)
                == spec_with_state(*old(self), SessionState::Focused),
            !(old(self).is_running && old(self).state == SessionState::Ready) ==> *final(self) == *old(
                self,
            ),
    {
        if self.is_running && matches!(self.state, SessionState::Ready) {
            self.state = SessionState::Focused;
        }
    }

    /// Whether the session is in the focused running phase, which gates
    /// action synchronization.
    pub fn is_focused(&self) -> (r: bool)
        ensures
            r == (self.state == SessionState::Focused),
    {
        matches!(self.state, SessionState::Focused)
    }

    /// Asks a running session to stop: moves it to Stopping and schedules
    /// a state-change record.
    pub fn request_exit(&mut self, queue: &mut EventQueue, now: MyTime) -> (r: Result<(), Error>)
        ensures
            !old(self).is_running ==> {
                &&& r == Err::<(), Error>(Error::SessionNotRunning)
                &&& *final(self) == *old(self)
                &&& final(queue)@ == old(queue)@
            },
            old(self).is_running ==> {
                &&& r == Ok::<(), Error>(())
                &&& *final(self) == spec_with_state(*old(self), SessionState::Stopping)
                &&& final(queue)@ == old(queue)@.push(
                    spec_encoded_event(spec_state_event(old(self).id, SessionState::Stopping, now)),
                )
            },
    {
        if !self.is_running {
            return Err(Error::SessionNotRunning);
        }
        self.state = SessionState::Stopping;
        let event = Event::SessionStateChanged {
            session: self.id,
            state: SessionState::Stopping,
            time: now,
        };
        queue.schedule(&event);
        Ok(())
    }

    /// Ends a stopping session: clears the running flag, returns to Idle
    /// and schedules a state-change record. Readiness is not recomputed
    /// on the way back to Idle, so the session stays Idle even though its
    /// resources remain attached.
    pub fn end(&mut self, queue: &mut EventQueue, now: MyTime) -> (r: Result<(), Error>)
        ensures
            !old(self).is_running ==> {
                &&& r == Err::<(), Error>(Error::SessionNotRunning)
                &&& *final(self) == *old(self)
                &&& final(queue)@ == old(queue)@
            },
            old(self).is_running && old(self).state != SessionState::Stopping ==> {
                &&& r == Err::<(), Error>(Error::SessionNotStopping)
                &&& *final(self) == *old(self)
                &&& final(queue)@ == old(queue)@
            },
            old(self).is_running && old(self).state == SessionState::Stopping ==> {
                &&& r == Ok::<(), Error>(())
                &&& *final(self) == spec_with_state(
                    spec_with_running(*old(self), false),
                    SessionState::Idle,
                )
                &&& final(queue)@ == old(queue)@.push(
                    spec_encoded_event(spec_state_event(old(self).id, SessionState::Idle, now)),
                )
            },
    {
        if !self.is_running {
            return Err(Error::SessionNotRunning);
        }
        if !matches!(self.state, SessionState::Stopping) {
            return Err(Error::SessionNotStopping);
        }
        self.is_running = false;
        self.state = SessionState::Idle;
        let event = Event::SessionStateChanged {
            session: self.id,
            state: SessionState::Idle,
            time: now,
        };
        queue.schedule(&event);
        Ok(())
    }
}

/// The fields no attach operation touches.
pub open spec fn spec_session_core_unchanged(
    before: SimulatedSession,
    after: SimulatedSession,
) -> bool {
    &&& after.instance_id == before.instance_id
    &&& after.id == before.id
    &&& after.graphics_binding == before.graphics_binding
    &&& after.is_running == before.is_running
    &&& after.frame == before.frame
}

/// What every successful attach guarantees: the session after the call is
/// the attached session with readiness recomputed, and the queue gained a
/// Ready record exactly when the session transitioned.
pub open spec fn spec_attach_outcome_holds(
    before: SimulatedSession,
    after: SimulatedSession,
    q_before: Seq<EventRecord>,
    q_after: Seq<EventRecord>,
    now: MyTime,
) -> bool {
    &&& spec_session_core_unchanged(before, after)
    &&& (before.state != SessionState::Idle ==> after.state == before.state && q_after == q_before)
    &&& (before.state == SessionState::Idle ==> (after.state == SessionState::Idle || after.state
        == SessionState::Ready))
    &&& (before.state == SessionState::Idle && after.ready_inputs_present() ==> after.state
        == SessionState::Ready)
    &&& (after.state == SessionState::Ready && before.state == SessionState::Idle ==> {
        &&& after.ready_inputs_present()
        &&& q_after == q_before.push(
            spec_encoded_event(spec_state_event(before.id, SessionState::Ready, now)),
        )
    })
    &&& (before.state == SessionState::Idle && after.state == SessionState::Idle ==> q_after
        == q_before)
}

/// Readiness monotonicity: recomputing readiness on a session that is
/// already Ready changes nothing and schedules nothing, and a second
/// recomputation right after a first one never schedules a second
/// state-change record: the Idle-to-Ready transition fires at most once
/// until the session leaves Ready again.
pub proof fn lemma_readiness_monotonic(
    s: SimulatedSession,
    q: Seq<EventRecord>,
    now1: MyTime,
    now2: MyTime,
)
    ensures
        s.state == SessionState::Ready ==> spec_check_ready_session(s) == s
            && spec_check_ready_queue(s, q, now1) == q,
        spec_check_ready_session(spec_check_ready_session(s)) == spec_check_ready_session(s),
        spec_check_ready_queue(
            spec_check_ready_session(s),
            spec_check_ready_queue(s, q, now1),
            now2,
        ) == spec_check_ready_queue(s, q, now1),
{
}

} // verus!
