use std::collections::VecDeque;
use vstd::bytes::{spec_u32_to_le_bytes, spec_u64_to_le_bytes, u32_to_le_bytes, u64_to_le_bytes};
use vstd::prelude::*;

use crate::session::{spec_session_state_code, SessionState};
use crate::utils::MyTime;

verus! {

/// Structure-type tag of a session-state-change notification record.
pub const EVENT_DATA_SESSION_STATE_CHANGED_TAG: u32 = 18;

/// A notification the runtime delivers to its polling caller.
#[derive(Clone, Copy, Debug, PartialEq, Eq, Structural)]
pub enum Event {
    SessionStateChanged { session: u64, state: SessionState, time: MyTime },
}

/// A serialized notification record: the structure-type tag and the
/// fixed-size body that follows the record's tag/forward-link header.
#[derive(Debug, PartialEq, Eq)]
pub struct QueueItem {
    pub ty: u32,
    pub buf: Vec<u8>,
}

/// What a record holds, for specification purposes: its tag and its body bytes.
pub type EventRecord = (u32, Seq<u8>);

impl View for QueueItem {
    type V = EventRecord;

    open spec fn view(&self) -> EventRecord {
        (self.ty, self.buf@)
    }
}

/// The structure-type tag an event is serialized under.
pub open spec fn spec_event_tag(e: Event) -> u32 {
    match e {
        Event::SessionStateChanged { .. } => EVENT_DATA_SESSION_STATE_CHANGED_TAG,
    }
}

/// The serialized body of an event: each field in declaration order in
/// little-endian byte order, with four bytes of padding between the
/// 32-bit state word and the 64-bit time, as the wire layout has it.
pub open spec fn spec_event_body(e: Event) -> Seq<u8> {
    match e {
        Event::SessionStateChanged { session, state, time } => spec_u64_to_le_bytes(session)
            + spec_u32_to_le_bytes(spec_session_state_code(state) as u32) + seq![0u8, 0u8, 0u8, 0u8]
            + spec_u64_to_le_bytes(time.0 as u64),
    }
}

/// The record an event is serialized to.
pub open spec fn spec_encoded_event(e: Event) -> EventRecord {
    (spec_event_tag(e), spec_event_body(e))
}

/// The session-state-change event that a lifecycle transition schedules.
pub open spec fn spec_state_event(session: u64, state: SessionState, time: MyTime) -> Event {
    Event::SessionStateChanged { session, state, time }
}

/// One first-in-first-out queue of serialized notification records,
/// owned by one runtime instance. Records are delivered in exactly the
/// order they were scheduled, at most one per poll, and polling an empty
/// queue is a distinct no-event outcome rather than a failure.
#[derive(Debug)]
pub struct EventQueue {
    items: VecDeque<QueueItem>,
}

impl View for EventQueue {
    type V = Seq<EventRecord>;

    closed spec fn view(&self) -> Seq<EventRecord> {
        Seq::new(self.items@.len(), |i: int| self.items@[i]@)
    }
}

impl EventQueue {
    /// An empty queue.
    pub fn new() -> (r: Self)
        ensures
            r@ =~= Seq::<EventRecord>::empty(),
    {
        EventQueue { items: VecDeque::new() }
    }

    /// Number of records waiting to be polled.
    pub fn len(&self) -> (r: usize)
        ensures
            r == self@.len(),
    {
        self.items.len()
    }

    /// Serializes `event` and appends the record at the back of the queue.
    pub fn schedule(&mut self, event: &Event)
        ensures
            final(self)@ =~= old(self)@.push(spec_encoded_event(*event)),
    {
        let item = match event {
            Event::SessionStateChanged { session, state, time } => {
                let mut buf = u64_to_le_bytes(*session);
                let mut state_bytes = u32_to_le_bytes(state.code() as u32);
                buf.append(&mut state_bytes);
                buf.push(0u8);
                buf.push(0u8);
                buf.push(0u8);
                buf.push(0u8);
                let mut time_bytes = u64_to_le_bytes(time.0 as u64);
                buf.append(&mut time_bytes);
                assert(buf@ =~= spec_event_body(*event));
                QueueItem { ty: EVENT_DATA_SESSION_STATE_CHANGED_TAG, buf }
            },
        };
        self.items.push_back(item);
    }

    /// Pops the oldest record, or reports that no event is available.
    pub fn poll(&mut self) -> (r: Option<QueueItem>)
        ensures
            match r {
                Some(item) => {
                    &&& old(self)@.len() > 0
                    &&& item@ == old(self)@[0]
                    &&& final(self)@ =~= old(self)@.drop_first()
                },
                None => {
                    &&& old(self)@.len() == 0
                    &&& final(self)@ =~= old(self)@
                },
            },
    {
        self.items.pop_front()
    }
}

/// The queue as it stands after `n` polls, each poll taking the front
/// record and a poll of an empty queue taking nothing.
pub open spec fn spec_drained(q: Seq<EventRecord>, n: int) -> Seq<EventRecord>
    decreases n,
{
    if n <= 0 {
        q
    } else {
        let rest = spec_drained(q, n - 1);
        if rest.len() == 0 {
            rest
        } else {
            rest.drop_first()
        }
    }
}

/// Event delivery is first-in-first-out: with records `q` scheduled and
/// none yet polled, the poll after `i` earlier polls yields exactly
/// `q[i]`, and any poll past the last record finds the queue empty.
pub proof fn lemma_event_fifo(q: Seq<EventRecord>, i: int)
    requires
        0 <= i,
    ensures
        i <= q.len() ==> spec_drained(q, i) =~= q.skip(i),
        i >= q.len() ==> spec_drained(q, i).len() == 0,
        i < q.len() ==> spec_drained(q, i)[0] == q[i],
    decreases i,
{
    if i > 0 {
        lemma_event_fifo(q, i - 1);
        if i - 1 < q.len() {
            assert(spec_drained(q, i - 1) =~= q.skip(i - 1));
            assert(spec_drained(q, i - 1).len() == q.len() - (i - 1));
            assert(spec_drained(q, i) =~= q.skip(i - 1).drop_first());
            assert(q.skip(i - 1).drop_first() =~= q.skip(i));
        } else {
            assert(spec_drained(q, i - 1).len() == 0);
            assert(spec_drained(q, i) == spec_drained(q, i - 1));
        }
    }
}

} // verus!
