//! Analyzer sessions, kept in a table and addressed by index.
//!
//! A slot is `Ready` between calls, `Busy` while one `process` call holds its
//! state, and `Vacant` once destroyed. Slots are never reused, so a handle of a
//! destroyed session stays unresolvable instead of reaching a newer session.

use vstd::prelude::*;
use crate::bits::unit_interval;
use crate::track::{marshal_track, marshaled_from, PitchTrack, TrackReading};

verus! {

/// One slot of the table.
pub enum Slot<T> {
    Vacant,
    Ready(T),
    Busy,
}

/// Why a session call was refused.
#[derive(Debug, Clone, Copy, PartialEq, Eq, Structural)]
pub enum SessionError {
    /// The handle names no live session.
    UnknownSession,
    /// The session is in the middle of another call.
    Busy,
    /// No samples were given.
    EmptyBuffer,
}

/// The sessions of one host.
pub struct SessionTable<T> {
    slots: Vec<Slot<T>>,
}

/// A `process` call needs a session and a non-empty sample buffer.
pub open spec fn input_outcome(has_session: bool, has_samples: bool, sample_count: usize) -> Result<
    (),
    SessionError,
> {
    if !has_session {
        Err(SessionError::UnknownSession)
    } else if !has_samples || sample_count == 0 {
        Err(SessionError::EmptyBuffer)
    } else {
        Ok(())
    }
}

/// Checks the arguments of a `process` call.
pub fn check_process_input(has_session: bool, has_samples: bool, sample_count: usize) -> (r:
    Result<(), SessionError>)
    ensures
        r == input_outcome(has_session, has_samples, sample_count),
{
    if !has_session {
        Err(SessionError::UnknownSession)
    } else if !has_samples || sample_count == 0 {
        Err(SessionError::EmptyBuffer)
    } else {
        Ok(())
    }
}

/// The table and the result after starting a `process` call on `handle`.
pub open spec fn begin_outcome<T>(
    slots: Seq<Slot<T>>,
    handle: usize,
    has_samples: bool,
    sample_count: usize,
) -> (Seq<Slot<T>>, Result<T, SessionError>) {
    if handle >= slots.len() {
        (slots, Err(SessionError::UnknownSession))
    } else {
        match slots[handle as int] {
            Slot::Vacant => (slots, Err(SessionError::UnknownSession)),
            Slot::Busy => (slots, Err(SessionError::Busy)),
            Slot::Ready(s) => match input_outcome(true, has_samples, sample_count) {
                Err(e) => (slots, Err(e)),
                Ok(()) => (slots.update(handle as int, Slot::Busy), Ok(s)),
            },
        }
    }
}

impl<T> View for SessionTable<T> {
    type V = Seq<Slot<T>>;

    closed spec fn view(&self) -> Seq<Slot<T>> {
        self.slots@
    }
}

impl<T> SessionTable<T> {
    /// An empty table.
    pub fn new() -> (r: Self)
        ensures
            r@ == Seq::<Slot<T>>::empty(),
    {
        SessionTable { slots: Vec::new() }
    }

    /// Whether `handle` names a session that is ready for a call.
    pub fn is_ready(&self, handle: usize) -> (r: bool)
        ensures
            r == (handle < self@.len() && self@[handle as int] is Ready),
    {
        handle < self.slots.len() && match &self.slots[handle] {
            Slot::Ready(_) => true,
            _ => false,
        }
    }

    /// Registers a new session holding `state`; returns its handle.
    pub fn create(&mut self, state: T) -> (handle: usize)
        ensures
            handle == old(self)@.len(),
            final(self)@ == old(self)@.push(Slot::Ready(state)),
    {
        let handle = self.slots.len();
        self.slots.push(Slot::Ready(state));
        handle
    }

    /// Starts a `process` call: a ready session with a non-empty buffer hands
    /// out its state and becomes busy. Any refusal leaves the table unchanged.
    pub fn begin_process(&mut self, handle: usize, has_samples: bool, sample_count: usize) -> (r:
        Result<T, SessionError>)
        ensures
            (final(self)@, r) == begin_outcome(old(self)@, handle, has_samples, sample_count),
    {
        if handle >= self.slots.len() {
            return Err(SessionError::UnknownSession);
        }
        match &self.slots[handle] {
            Slot::Vacant => {
                return Err(SessionError::UnknownSession);
            },
            Slot::Busy => {
                return Err(SessionError::Busy);
            },
            Slot::Ready(_) => {},
        }
        if let Err(e) = check_process_input(true, has_samples, sample_count) {
            return Err(e);
        }
        let mut slot = Slot::Busy;
        self.slots.set_and_swap(handle, &mut slot);
        match slot {
            Slot::Ready(s) => Ok(s),
            _ => {
                proof {
                    assert(false);
                }
                Err(SessionError::Busy)
            },
        }
    }

    /// Ends a `process` call: a busy session takes `state` back and is ready
    /// again. Returns `false`, changing nothing, when `handle` is not busy.
    pub fn end_process(&mut self, handle: usize, state: T) -> (r: bool)
        ensures
            r == (handle < old(self)@.len() && old(self)@[handle as int] is Busy),
            r ==> final(self)@ == old(self)@.update(handle as int, Slot::Ready(state)),
            !r ==> final(self)@ == old(self)@,
    {
        if handle < self.slots.len() && match &self.slots[handle] {
            Slot::Busy => true,
            _ => false,
        } {
            self.slots.set(handle, Slot::Ready(state));
            true
        } else {
            false
        }
    }

    /// Ends a `process` call and marshals its reading: the state goes back
    /// into the session, which is ready again whether or not the analysis
    /// succeeded, and the reading becomes the returned record. A handle that
    /// is not busy keeps its slot, and `state` is dropped.
    pub fn finish_process(&mut self, handle: usize, state: T, reading: Option<TrackReading>) -> (r:
        PitchTrack)
        ensures
            marshaled_from(reading, r),
            r.wf(),
            forall|i: int|
                0 <= i < r.voiced_probabilities@.len() ==> unit_interval(
                    #[trigger] r.voiced_probabilities@[i],
                ),
            (handle < old(self)@.len() && old(self)@[handle as int] is Busy) ==> final(self)@
                == old(self)@.update(handle as int, Slot::Ready(state)),
            !(handle < old(self)@.len() && old(self)@[handle as int] is Busy) ==> final(self)@
                == old(self)@,
    {
        self.end_process(handle, state);
        marshal_track(reading)
    }

    /// Destroys a ready session and hands back its state. A busy or unknown
    /// handle changes nothing and gives `None`.
    pub fn destroy(&mut self, handle: usize) -> (r: Option<T>)
        ensures
            (handle < old(self)@.len() && old(self)@[handle as int] is Ready) ==> {
                &&& r == Some(old(self)@[handle as int]->Ready_0)
                &&& final(self)@ == old(self)@.update(handle as int, Slot::Vacant)
            },
            !(handle < old(self)@.len() && old(self)@[handle as int] is Ready) ==> {
                &&& r is None
                &&& final(self)@ == old(self)@
            },
    {
        if !self.is_ready(handle) {
            return None;
        }
        let mut slot = Slot::Vacant;
        self.slots.set_and_swap(handle, &mut slot);
        match slot {
            Slot::Ready(s) => Some(s),
            _ => {
                proof {
                    assert(false);
                }
                None
            },
        }
    }
}

/// A refused `process` call leaves the table as it was, so the same call made
/// again is refused in the same way.
pub proof fn lemma_refusal_repeats<T>(
    slots: Seq<Slot<T>>,
    handle: usize,
    has_samples: bool,
    sample_count: usize,
)
    requires
        begin_outcome(slots, handle, has_samples, sample_count).1 is Err,
    ensures
        begin_outcome(slots, handle, has_samples, sample_count).0 == slots,
        begin_outcome(
            begin_outcome(slots, handle, has_samples, sample_count).0,
            handle,
            has_samples,
            sample_count,
        ) == begin_outcome(slots, handle, has_samples, sample_count),
{
}

/// A `process` call on a ready session without samples is refused with
/// `EmptyBuffer` and leaves the table as it was.
pub proof fn lemma_empty_buffer_refused<T>(slots: Seq<Slot<T>>, handle: usize, has_samples: bool)
    requires
        handle < slots.len(),
        slots[handle as int] is Ready,
    ensures
        begin_outcome(slots, handle, has_samples, 0) == (slots, Err::<T, SessionError>(
            SessionError::EmptyBuffer,
        )),
        begin_outcome(slots, handle, false, 1) == (slots, Err::<T, SessionError>(
            SessionError::EmptyBuffer,
        )),
{
}

} // verus!
