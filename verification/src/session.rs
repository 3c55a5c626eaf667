//! One playback session: the ring that a note's samples pass through, and
//! the stage of its life that the session has reached.

use crate::ring::SampleRing;
use crate::wave::Wave;
use vstd::prelude::*;

verus! {

/// The format in which an output stream takes its samples.
#[derive(Debug, Copy, Clone, PartialEq, Eq, Structural)]
pub enum SampleFormat {
    I8,
    I16,
    I32,
    I64,
    U8,
    U16,
    U32,
    U64,
    F32,
    F64,
}

/// Why a session could not be set up.
#[derive(Debug, Copy, Clone, PartialEq, Eq, Structural)]
pub enum PlayError {
    /// The ring would hold no sample at all, or more than a ring can hold.
    RingCapacity,
    /// The stream wants its samples in a format other than 32-bit floats.
    UnsupportedSampleFormat,
}

/// The stages of a session's life, in the order in which it passes them.
#[derive(Debug, Copy, Clone, PartialEq, Eq, Structural)]
pub enum SessionState {
    /// The note is described and nothing runs yet.
    Idle,
    /// Generator, bridge and sink all run.
    Active,
    /// The generator has ended; what it left is still being played.
    Draining,
    /// The sink has given up the stream.
    Stopped,
}

/// What can happen to a session.
#[derive(Debug, Copy, Clone, PartialEq, Eq, Structural)]
pub enum SessionEvent {
    /// The session has been created.
    Created,
    /// The generator's channel has closed.
    ChannelClosed,
    /// The time for which the sink keeps its stream has run out.
    SinkExpired,
}

/// Whether the sink can play samples of this format: only 32-bit floats.
pub open spec fn is_supported(format: SampleFormat) -> bool {
    format == SampleFormat::F32
}

/// The state that follows `state` on `event`. A session is made active by
/// its creation, starts draining when the generator's channel closes, and
/// stops when the sink's time runs out while it drains; any other event
/// leaves it where it is.
pub open spec fn next_state(state: SessionState, event: SessionEvent) -> SessionState {
    match (state, event) {
        (SessionState::Idle, SessionEvent::Created) => SessionState::Active,
        (SessionState::Active, SessionEvent::ChannelClosed) => SessionState::Draining,
        (SessionState::Draining, SessionEvent::SinkExpired) => SessionState::Stopped,
        _ => state,
    }
}

/// How far a session has come: the number of transitions behind it.
pub open spec fn progress(state: SessionState) -> nat {
    match state {
        SessionState::Idle => 0,
        SessionState::Active => 1,
        SessionState::Draining => 2,
        SessionState::Stopped => 3,
    }
}

impl SampleFormat {
    /// Whether the sink can play samples of this format.
    pub fn supported(self) -> (yes: bool)
        ensures
            yes == is_supported(self),
    {
        match self {
            SampleFormat::F32 => true,
            _ => false,
        }
    }
}

impl SessionState {
    /// The state that the session is in after `event`.
    pub fn step(self, event: SessionEvent) -> (next: SessionState)
        ensures
            next == next_state(self, event),
    {
        match (self, event) {
            (SessionState::Idle, SessionEvent::Created) => SessionState::Active,
            (SessionState::Active, SessionEvent::ChannelClosed) => SessionState::Draining,
            (SessionState::Draining, SessionEvent::SinkExpired) => SessionState::Stopped,
            _ => self,
        }
    }
}

/// A note that is being played: its description, the ring between its
/// bridge and its sink, and the stage it has reached.
pub struct PlaybackSession {
    pub wave: Wave,
    pub ring: SampleRing,
    pub state: SessionState,
}

impl PlaybackSession {
    /// Takes note of `event`: the session moves on to the state that
    /// follows, and its ring and its wave stay as they are.
    pub fn handle(&mut self, event: SessionEvent)
        ensures
            final(self).state == next_state(old(self).state, event),
            final(self).ring == old(self).ring,
            final(self).wave == old(self).wave,
    {
        self.state = self.state.step(event);
    }
}

/// A session never goes back, and moves at most one stage at a time.
pub proof fn lemma_sessions_only_advance(state: SessionState, event: SessionEvent)
    ensures
        progress(state) <= progress(next_state(state, event)) <= progress(state) + 1,
{
}

/// Once a session has stopped, nothing moves it again.
pub proof fn lemma_stopped_is_final(event: SessionEvent)
    ensures
        next_state(SessionState::Stopped, event) == SessionState::Stopped,
{
}

} // verus!
