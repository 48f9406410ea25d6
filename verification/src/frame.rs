use vstd::prelude::*;

use crate::error::Error;
use crate::utils::MyTime;

verus! {

/// Nanoseconds added to the current time to predict the next display time.
pub const PREDICTED_DISPLAY_LEAD_NANOS: i64 = 1_000_000;

/// Fixed nominal display period reported to callers, in nanoseconds.
pub const PREDICTED_DISPLAY_PERIOD_NANOS: i64 = 16_000_000;

/// The per-session frame pacing state machine.
///
/// A rendering loop must call wait, then begin, then end, once per frame.
/// `is_waited` records that a wait has completed without a matching begin;
/// `is_began` records that a begin is outstanding without a matching end;
/// `waiting_begin` tells the caller's wait loop to block until the begin
/// of the previous frame resolves. The blocking itself happens outside
/// the library.
#[derive(Clone, Copy, Debug, PartialEq, Eq, Structural)]
pub struct SessionFrame {
    pub waiting_begin: bool,
    pub is_waited: bool,
    pub is_began: bool,
}

/// What a completed frame wait reports back to the rendering loop.
#[derive(Clone, Copy, Debug, PartialEq, Eq, Structural)]
pub struct FrameState {
    pub predicted_display_time: MyTime,
    pub predicted_display_period: i64,
    pub should_render: bool,
}

/// How a frame begin concluded: a fresh frame, or a discarded one when a
/// begin was already outstanding.
#[derive(Clone, Copy, Debug, PartialEq, Eq, Structural)]
pub enum FrameBeginOutcome {
    Success,
    Discarded,
}

impl Default for SessionFrame {
    /// The state of a session that has never run a frame.
    fn default() -> (r: Self)
        ensures
            r == (SessionFrame { waiting_begin: false, is_waited: false, is_began: false }),
    {
        SessionFrame { waiting_begin: false, is_waited: false, is_began: false }
    }
}

impl SessionFrame {
    /// The state of a session that has never run a frame.
    pub fn new() -> (r: Self)
        ensures
            r == (SessionFrame { waiting_begin: false, is_waited: false, is_began: false }),
    {
        SessionFrame { waiting_begin: false, is_waited: false, is_began: false }
    }

    /// Completes a frame wait at time `now`: predicts the next display
    /// time a fixed lead ahead of `now`, reports the nominal display
    /// period, and arms the begin gate.
    pub fn wait(&mut self, now: MyTime) -> (r: FrameState)
        requires
            now.0 + PREDICTED_DISPLAY_LEAD_NANOS <= i64::MAX,
        ensures
            *final(self) == (SessionFrame {
                waiting_begin: true,
                is_waited: true,
                is_began: old(self).is_began,
            }),
            r == (FrameState {
                predicted_display_time: MyTime((now.0 + PREDICTED_DISPLAY_LEAD_NANOS) as i64),
                predicted_display_period: PREDICTED_DISPLAY_PERIOD_NANOS,
                should_render: true,
            }),
    {
        self.is_waited = true;
        self.waiting_begin = true;
        FrameState {
            predicted_display_time: MyTime(now.0 + PREDICTED_DISPLAY_LEAD_NANOS),
            predicted_display_period: PREDICTED_DISPLAY_PERIOD_NANOS,
            should_render: true,
        }
    }

    /// Begins a frame.
    ///
    /// With a begin already outstanding the call succeeds but reports the
    /// frame discarded; without a prior wait it fails with a call-order
    /// failure; otherwise it consumes the wait and marks the begin
    /// outstanding. Either successful outcome releases the begin gate.
    pub fn begin(&mut self) -> (r: Result<FrameBeginOutcome, Error>)
        ensures
            old(self).is_began ==> {
                &&& r == Ok::<FrameBeginOutcome, Error>(FrameBeginOutcome::Discarded)
                &&& *final(self) == (SessionFrame {
                    waiting_begin: false,
                    is_waited: false,
                    is_began: true,
                })
            },
            !old(self).is_began && !old(self).is_waited ==> {
                &&& r == Err::<FrameBeginOutcome, Error>(Error::CallOrderInvalid)
                &&& *final(self) == *old(self)
            },
            !old(self).is_began && old(self).is_waited ==> {
                &&& r == Ok::<FrameBeginOutcome, Error>(FrameBeginOutcome::Success)
                &&& *final(self) == (SessionFrame {
                    waiting_begin: false,
                    is_waited: false,
                    is_began: true,
                })
            },
    {
        if self.is_began {
            self.waiting_begin = false;
            self.is_waited = false;
            return Ok(FrameBeginOutcome::Discarded);
        }
        if !self.is_waited {
            return Err(Error::CallOrderInvalid);
        }
        self.waiting_begin = false;
        self.is_waited = false;
        self.is_began = true;
        Ok(FrameBeginOutcome::Success)
    }

    /// Whether a frame end is in order, that is, a begin is outstanding.
    pub fn can_end(&self) -> (r: bool)
        ensures
            r == self.is_began,
    {
        self.is_began
    }

    /// Ends the outstanding frame.
    pub fn end(&mut self)
        ensures
            *final(self) == (SessionFrame {
                waiting_begin: old(self).waiting_begin,
                is_waited: old(self).is_waited,
                is_began: false,
            }),
    {
        self.is_began = false;
    }
}

} // verus!
