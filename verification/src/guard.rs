//! The guard of the device handle.
//!
//! One thermometer serves every caller, so a read takes the guard first and
//! gives it back afterwards. The state of the guard is explicit: it is free,
//! held, or poisoned because a holder ended abnormally while holding it.
//! Poisoned is final.

use crate::diagnostic::Diagnostic;
use crate::reading::{ReadOutcome, ReadOutcomeView};
use vstd::prelude::*;

verus! {

/// Diagnostic text of the outcome reported by a poisoned guard.
pub const POISONED_DIAGNOSTIC: &'static str = "poisoned";

/// The state of the guard.
#[derive(Clone, Copy, Debug, PartialEq, Eq, Structural)]
pub enum GuardState {
    /// Nobody holds the device.
    Unlocked,
    /// One caller holds the device.
    Locked,
    /// A holder ended abnormally while holding the device.
    Poisoned,
}

/// What can happen to the guard.
#[derive(Clone, Copy, Debug, PartialEq, Eq, Structural)]
pub enum GuardEvent {
    /// A caller asks for the device.
    Acquire,
    /// The holder gives the device back.
    Release,
    /// The holder ends abnormally.
    Abandon,
}

/// The answer to a caller that asks for the device.
#[derive(Clone, Copy, Debug, PartialEq, Eq, Structural)]
pub enum Acquisition {
    /// The caller now holds the device.
    Granted,
    /// Another caller holds the device: this one has to wait.
    Busy,
    /// The guard is poisoned: nobody gets the device any more.
    Poisoned,
}

/// The state that follows `s` when `e` happens.
///
/// Only a free guard is taken, only a held guard is given back or abandoned,
/// and a poisoned guard stays poisoned.
pub open spec fn guard_step(s: GuardState, e: GuardEvent) -> GuardState {
    match (s, e) {
        (GuardState::Unlocked, GuardEvent::Acquire) => GuardState::Locked,
        (GuardState::Locked, GuardEvent::Release) => GuardState::Unlocked,
        (GuardState::Locked, GuardEvent::Abandon) => GuardState::Poisoned,
        _ => s,
    }
}

/// The answer that a caller gets who asks for the device in state `s`.
pub open spec fn acquisition_in(s: GuardState) -> Acquisition {
    match s {
        GuardState::Unlocked => Acquisition::Granted,
        GuardState::Locked => Acquisition::Busy,
        GuardState::Poisoned => Acquisition::Poisoned,
    }
}

/// The state that the guard reaches from `s` after the events of `trace`, in order.
pub open spec fn guard_run(s: GuardState, trace: Seq<GuardEvent>) -> GuardState
    decreases trace.len(),
{
    if trace.len() == 0 {
        s
    } else {
        guard_step(guard_run(s, trace.drop_last()), trace.last())
    }
}

/// The state in which event number `i` of `trace` finds the guard.
pub open spec fn state_before(s: GuardState, trace: Seq<GuardEvent>, i: int) -> GuardState {
    guard_run(s, trace.take(i))
}

/// Event number `i` of `trace` is a request that is granted.
pub open spec fn granted_at(s: GuardState, trace: Seq<GuardEvent>, i: int) -> bool {
    &&& 0 <= i < trace.len()
    &&& trace[i] == GuardEvent::Acquire
    &&& state_before(s, trace, i) == GuardState::Unlocked
}

/// Event number `i` of `trace` is the holder giving the device back.
pub open spec fn released_at(s: GuardState, trace: Seq<GuardEvent>, i: int) -> bool {
    &&& 0 <= i < trace.len()
    &&& trace[i] == GuardEvent::Release
    &&& state_before(s, trace, i) == GuardState::Locked
}

/// The outcome that is reported, without a read, when the guard is poisoned.
pub open spec fn poisoned_outcome() -> ReadOutcomeView {
    ReadOutcomeView::DeviceError(POISONED_DIAGNOSTIC@)
}

/// What a caller that wants to read has to do next.
#[derive(Debug, PartialEq, Eq)]
pub enum ReadStep {
    /// The caller holds the device: read it once, then report the outcome.
    Read,
    /// Another caller holds the device: ask again when it is free.
    Wait,
    /// No read takes place: this is the outcome.
    Done(ReadOutcome),
}

/// The mathematical value of a [`ReadStep`].
pub enum ReadStepView {
    Read,
    Wait,
    Done(ReadOutcomeView),
}

impl View for ReadStep {
    type V = ReadStepView;

    open spec fn view(&self) -> ReadStepView {
        match self {
            ReadStep::Read => ReadStepView::Read,
            ReadStep::Wait => ReadStepView::Wait,
            ReadStep::Done(outcome) => ReadStepView::Done(outcome@),
        }
    }
}

/// What a caller that wants to read has to do next when it finds the guard in state `s`.
pub open spec fn read_step_in(s: GuardState) -> ReadStepView {
    match s {
        GuardState::Unlocked => ReadStepView::Read,
        GuardState::Locked => ReadStepView::Wait,
        GuardState::Poisoned => ReadStepView::Done(poisoned_outcome()),
    }
}

/// The guard of the one device handle.
#[derive(Debug, PartialEq, Eq)]
pub struct GuardedHandle {
    state: GuardState,
}

impl View for GuardedHandle {
    type V = GuardState;

    closed spec fn view(&self) -> GuardState {
        self.state
    }
}

impl GuardedHandle {
    /// A guard that nobody holds.
    pub fn new() -> (g: GuardedHandle)
        ensures
            g@ == GuardState::Unlocked,
    {
        GuardedHandle { state: GuardState::Unlocked }
    }

    /// The state of the guard.
    pub fn state(&self) -> (s: GuardState)
        ensures
            s == self@,
    {
        self.state
    }

    /// Whether the guard is poisoned.
    pub fn is_poisoned(&self) -> (b: bool)
        ensures
            b == (self@ == GuardState::Poisoned),
    {
        match self.state {
            GuardState::Poisoned => true,
            _ => false,
        }
    }

    /// Asks for the device. Only a free guard is granted, and it is held from then on.
    pub fn acquire(&mut self) -> (a: Acquisition)
        ensures
            a == acquisition_in(old(self)@),
            final(self)@ == guard_step(old(self)@, GuardEvent::Acquire),
    {
        match self.state {
            GuardState::Unlocked => {
                self.state = GuardState::Locked;
                Acquisition::Granted
            },
            GuardState::Locked => Acquisition::Busy,
            GuardState::Poisoned => Acquisition::Poisoned,
        }
    }

    /// Gives the device back. Returns whether it was held; if it was not,
    /// nothing changes.
    pub fn release(&mut self) -> (was_held: bool)
        ensures
            was_held == (old(self)@ == GuardState::Locked),
            final(self)@ == guard_step(old(self)@, GuardEvent::Release),
    {
        match self.state {
            GuardState::Locked => {
                self.state = GuardState::Unlocked;
                true
            },
            _ => false,
        }
    }

    /// Records that the holder ended abnormally. Returns whether the device
    /// was held; if it was, the guard is poisoned, else nothing changes.
    pub fn abandon(&mut self) -> (was_held: bool)
        ensures
            was_held == (old(self)@ == GuardState::Locked),
            final(self)@ == guard_step(old(self)@, GuardEvent::Abandon),
    {
        match self.state {
            GuardState::Locked => {
                self.state = GuardState::Poisoned;
                true
            },
            _ => false,
        }
    }

    /// Begins a read: asks for the device and says what the caller does next.
    ///
    /// A free guard is taken and the caller reads. A held guard makes the
    /// caller wait. A poisoned guard yields the poisoned outcome at once, and
    /// no read takes place.
    pub fn begin_read(&mut self) -> (step: ReadStep)
        ensures
            step@ == read_step_in(old(self)@),
            final(self)@ == guard_step(old(self)@, GuardEvent::Acquire),
    {
        proof {
            reveal_strlit("poisoned");
        }
        match self.acquire() {
            Acquisition::Granted => ReadStep::Read,
            Acquisition::Busy => ReadStep::Wait,
            Acquisition::Poisoned => ReadStep::Done(
                ReadOutcome::DeviceError(Diagnostic::known(POISONED_DIAGNOSTIC)),
            ),
        }
    }

    /// Ends a read: gives the device back, whatever the read yielded, and
    /// hands the outcome on unchanged. Where the device was not held there was
    /// no read to end: nothing changes and there is no outcome.
    pub fn finish_read(&mut self, outcome: ReadOutcome) -> (res: Option<ReadOutcome>)
        ensures
            final(self)@ == guard_step(old(self)@, GuardEvent::Release),
            res == if old(self)@ == GuardState::Locked {
                Some(outcome)
            } else {
                None
            },
    {
        if self.release() {
            Some(outcome)
        } else {
            None
        }
    }
}

/// Running a trace one event further is one step from where the trace led.
pub proof fn lemma_state_before_next(s: GuardState, trace: Seq<GuardEvent>, i: int)
    requires
        0 <= i < trace.len(),
    ensures
        state_before(s, trace, i + 1) == guard_step(state_before(s, trace, i), trace[i]),
{
    assert(trace.take(i + 1).drop_last() =~= trace.take(i));
    assert(trace.take(i + 1).last() == trace[i]);
}

/// A poisoned guard stays poisoned, whatever happens to it.
pub proof fn lemma_poison_is_permanent(trace: Seq<GuardEvent>)
    ensures
        guard_run(GuardState::Poisoned, trace) == GuardState::Poisoned,
    decreases trace.len(),
{
    if trace.len() > 0 {
        lemma_poison_is_permanent(trace.drop_last());
    }
}

/// Once a holder has ended abnormally, every later request for the device is
/// answered with `Poisoned`, however many follow and whatever happens between them.
pub proof fn lemma_poisoned_forever(s: GuardState, trace: Seq<GuardEvent>, i: int, j: int)
    requires
        0 <= i < j < trace.len(),
        trace[i] == GuardEvent::Abandon,
        state_before(s, trace, i) == GuardState::Locked,
    ensures
        state_before(s, trace, j) == GuardState::Poisoned,
        acquisition_in(state_before(s, trace, j)) == Acquisition::Poisoned,
    decreases j - i,
{
    lemma_state_before_next(s, trace, i);
    if j > i + 1 {
        lemma_poisoned_forever(s, trace, i, j - 1);
        lemma_state_before_next(s, trace, j - 1);
    }
}

/// From a granted request on, the guard is not free before the holder gives it back.
proof fn lemma_held_until_released(s: GuardState, trace: Seq<GuardEvent>, i: int, m: int)
    requires
        granted_at(s, trace, i),
        i < m <= trace.len(),
        forall|k: int| i < k < m ==> !released_at(s, trace, k),
    ensures
        state_before(s, trace, m) != GuardState::Unlocked,
    decreases m - i,
{
    lemma_state_before_next(s, trace, i);
    if m > i + 1 {
        lemma_held_until_released(s, trace, i, m - 1);
        lemma_state_before_next(s, trace, m - 1);
        assert(!released_at(s, trace, m - 1));
    }
}

/// Mutual exclusion: of two requests that are granted, the second is granted
/// only after the holder of the first has given the device back. So two reads
/// never overlap.
pub proof fn lemma_mutual_exclusion(s: GuardState, trace: Seq<GuardEvent>, i: int, j: int)
    requires
        i < j,
        granted_at(s, trace, i),
        granted_at(s, trace, j),
    ensures
        exists|k: int| i < k < j && released_at(s, trace, k),
{
    if forall|k: int| i < k < j ==> !released_at(s, trace, k) {
        lemma_held_until_released(s, trace, i, j);
    }
}

} // verus!
