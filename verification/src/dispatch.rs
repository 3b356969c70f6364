//! The decisions of the dispatch loop.
//!
//! The loop around the service waits for the next item of bus traffic and
//! hands it to [`Service::dispatch`], which says what to do with it. Where the
//! answer is to read the device, the loop reads it and hands the outcome to
//! [`Service::complete`], which gives the reply to send. The loop takes one
//! item at a time, so replies leave in the order of their requests.

use crate::guard::{
    guard_step, read_step_in, GuardEvent, GuardState, GuardedHandle, ReadStep, ReadStepView,
    POISONED_DIAGNOSTIC,
};
use crate::object::{MethodCall, MethodCallView, PublishedObject, PublishedObjectView};
use crate::reading::{ReadOutcome, ReadOutcomeView, Reading};
use crate::reply::{
    not_found, not_found_reply, reply_for, temper_to_dbus, BusReply, BusReplyView, ErrorId,
    NOT_FOUND_DIAGNOSTIC,
};
use vstd::prelude::*;

verus! {

/// One item of bus traffic.
#[derive(Debug, PartialEq, Eq)]
pub enum BusItem {
    /// The wait ended with nothing pending.
    Nothing,
    /// A method call, which expects a reply.
    MethodCall(MethodCall),
    /// A signal, which expects none.
    Signal,
}

/// The mathematical value of a [`BusItem`].
pub enum BusItemView {
    Nothing,
    MethodCall(MethodCallView),
    Signal,
}

impl View for BusItem {
    type V = BusItemView;

    open spec fn view(&self) -> BusItemView {
        match self {
            BusItem::Nothing => BusItemView::Nothing,
            BusItem::MethodCall(call) => BusItemView::MethodCall(call@),
            BusItem::Signal => BusItemView::Signal,
        }
    }
}

/// What the loop does with an item.
#[derive(Debug, PartialEq, Eq)]
pub enum Action {
    /// Nothing: wait for the next item.
    Idle,
    /// Note the item for the operator; send nothing.
    Log,
    /// Read the device once, then hand the outcome to [`Service::complete`].
    ReadDevice,
    /// The device is held: hand the same item in again once it is free.
    Defer,
    /// Send this reply to the caller.
    Send(BusReply),
}

/// The mathematical value of an [`Action`].
pub enum ActionView {
    Idle,
    Log,
    ReadDevice,
    Defer,
    Send(BusReplyView),
}

impl View for Action {
    type V = ActionView;

    open spec fn view(&self) -> ActionView {
        match self {
            Action::Idle => ActionView::Idle,
            Action::Log => ActionView::Log,
            Action::ReadDevice => ActionView::ReadDevice,
            Action::Defer => ActionView::Defer,
            Action::Send(reply) => ActionView::Send(reply@),
        }
    }
}

/// The mathematical value of a [`Service`]: what it publishes, and the state
/// of the device's guard.
pub struct ServiceView {
    pub object: PublishedObjectView,
    pub guard: GuardState,
}

/// What can happen to the service.
pub enum ServiceEvent {
    /// An item of bus traffic arrives.
    Item(BusItemView),
    /// The device read that was asked for ends with an outcome.
    Completed(ReadOutcomeView),
    /// The device read that was asked for ends abnormally.
    Abandoned,
}

/// The item is a method call addressed to what the service publishes.
pub open spec fn addressed(s: ServiceView, item: BusItemView) -> bool {
    item matches BusItemView::MethodCall(call) && s.object.matches(call)
}

/// What the loop does with `item` when the service is in state `s`.
///
/// A call addressed to the published object goes to the handler, which begins
/// a read; any other call is answered with the not-found error. A signal is
/// logged, and an empty item is passed over.
pub open spec fn action_for(s: ServiceView, item: BusItemView) -> ActionView {
    match item {
        BusItemView::Nothing => ActionView::Idle,
        BusItemView::Signal => ActionView::Log,
        BusItemView::MethodCall(call) => if s.object.matches(call) {
            match read_step_in(s.guard) {
                ReadStepView::Read => ActionView::ReadDevice,
                ReadStepView::Wait => ActionView::Defer,
                ReadStepView::Done(outcome) => ActionView::Send(reply_for(outcome)),
            }
        } else {
            ActionView::Send(not_found())
        },
    }
}

/// The state of the service after `item` was handed to it in state `s`: only
/// a call addressed to the published object touches the guard.
pub open spec fn state_after(s: ServiceView, item: BusItemView) -> ServiceView {
    if addressed(s, item) {
        ServiceView { guard: guard_step(s.guard, GuardEvent::Acquire), ..s }
    } else {
        s
    }
}

/// The reply that is sent when the read ends with `outcome` in state `s`:
/// one reply where a read was under way, none where there was none.
pub open spec fn completion(s: ServiceView, outcome: ReadOutcomeView) -> Option<BusReplyView> {
    if s.guard == GuardState::Locked {
        Some(reply_for(outcome))
    } else {
        None
    }
}

/// The state that follows `s` when `e` happens.
pub open spec fn service_step(s: ServiceView, e: ServiceEvent) -> ServiceView {
    match e {
        ServiceEvent::Item(item) => state_after(s, item),
        ServiceEvent::Completed(_) => ServiceView {
            guard: guard_step(s.guard, GuardEvent::Release),
            ..s
        },
        ServiceEvent::Abandoned => ServiceView {
            guard: guard_step(s.guard, GuardEvent::Abandon),
            ..s
        },
    }
}

/// The state that the service reaches from `s` after the events of `trace`, in order.
pub open spec fn service_run(s: ServiceView, trace: Seq<ServiceEvent>) -> ServiceView
    decreases trace.len(),
{
    if trace.len() == 0 {
        s
    } else {
        service_step(service_run(s, trace.drop_last()), trace.last())
    }
}

/// The service: the published object and the guard of the device.
#[derive(Debug, PartialEq, Eq)]
pub struct Service {
    object: PublishedObject,
    guard: GuardedHandle,
}

impl View for Service {
    type V = ServiceView;

    closed spec fn view(&self) -> ServiceView {
        ServiceView { object: self.object@, guard: self.guard@ }
    }
}

impl Service {
    /// A service that publishes `object`, with the device free.
    pub fn new(object: PublishedObject) -> (service: Service)
        ensures
            service@ == (ServiceView { object: object@, guard: GuardState::Unlocked }),
    {
        Service { object, guard: GuardedHandle::new() }
    }

    /// What the service publishes.
    pub fn object(&self) -> (object: &PublishedObject)
        ensures
            object@ == self@.object,
    {
        &self.object
    }

    /// The state of the device's guard.
    pub fn guard_state(&self) -> (s: GuardState)
        ensures
            s == self@.guard,
    {
        self.guard.state()
    }

    /// Whether an item is being processed: a device read was asked for and has
    /// not ended. Otherwise the loop is waiting for the next item.
    pub fn is_processing(&self) -> (b: bool)
        ensures
            b == (self@.guard == GuardState::Locked),
    {
        match self.guard.state() {
            GuardState::Locked => true,
            _ => false,
        }
    }

    /// Handles one method call that is addressed to the published object,
    /// whatever its arguments: begins a read and maps what comes of it.
    fn handle(&mut self) -> (action: Action)
        ensures
            final(self)@.object == old(self)@.object,
            final(self)@.guard == guard_step(old(self)@.guard, GuardEvent::Acquire),
            action@ == match read_step_in(old(self)@.guard) {
                ReadStepView::Read => ActionView::ReadDevice,
                ReadStepView::Wait => ActionView::Defer,
                ReadStepView::Done(outcome) => ActionView::Send(reply_for(outcome)),
            },
            action matches Action::Send(reply) ==> reply@.described(),
    {
        match self.guard.begin_read() {
            ReadStep::Read => Action::ReadDevice,
            ReadStep::Wait => Action::Defer,
            ReadStep::Done(outcome) => Action::Send(temper_to_dbus(outcome)),
        }
    }

    /// Takes one item of bus traffic and says what the loop does with it.
    pub fn dispatch(&mut self, item: &BusItem) -> (action: Action)
        ensures
            action@ == action_for(old(self)@, item@),
            final(self)@ == state_after(old(self)@, item@),
            action matches Action::Send(reply) ==> reply@.described(),
    {
        match item {
            BusItem::Nothing => Action::Idle,
            BusItem::Signal => Action::Log,
            BusItem::MethodCall(call) => {
                if self.object.matches(call) {
                    self.handle()
                } else {
                    Action::Send(not_found_reply())
                }
            },
        }
    }

    /// Ends the device read that [`Action::ReadDevice`] asked for: frees the
    /// device, whatever the outcome, and gives the reply to send. Where no
    /// read was under way there is no reply and nothing changes.
    pub fn complete(&mut self, outcome: ReadOutcome) -> (reply: Option<BusReply>)
        ensures
            final(self)@ == service_step(old(self)@, ServiceEvent::Completed(outcome@)),
            reply is Some <==> completion(old(self)@, outcome@) is Some,
            reply matches Some(r) ==> Some(r@) == completion(old(self)@, outcome@)
                && r@.described(),
    {
        match self.guard.finish_read(outcome) {
            Some(outcome) => Some(temper_to_dbus(outcome)),
            None => None,
        }
    }

    /// Records that the device read which [`Action::ReadDevice`] asked for
    /// ended abnormally. The guard is poisoned from then on. Returns whether a
    /// read was under way; where none was, nothing changes.
    pub fn abandon(&mut self) -> (was_reading: bool)
        ensures
            final(self)@ == service_step(old(self)@, ServiceEvent::Abandoned),
            was_reading == (old(self)@.guard == GuardState::Locked),
    {
        self.guard.abandon()
    }
}

/// A call addressed to the published object begins a device read exactly
/// when it finds the device free, and the device is held from then on.
pub proof fn lemma_read_begins_when_free(s: ServiceView, item: BusItemView)
    requires
        addressed(s, item),
    ensures
        action_for(s, item) == ActionView::ReadDevice <==> s.guard == GuardState::Unlocked,
        action_for(s, item) == ActionView::ReadDevice ==> state_after(s, item).guard
            == GuardState::Locked,
{
}

/// A successful read is answered with exactly the reading that the device
/// returned: the reply carries it unchanged.
pub proof fn lemma_reading_is_replied_unchanged(s: ServiceView, r: Reading)
    requires
        s.guard == GuardState::Locked,
    ensures
        completion(s, ReadOutcomeView::Success(r)) == Some(BusReplyView::Success(r)),
{
}

/// A failed read is answered with an error that carries the identifier
/// `Failed` and the failure's text. Afterwards the device is free, and the
/// next call addressed to the published object begins a read again.
pub proof fn lemma_failure_is_reported_and_service_goes_on(
    s: ServiceView,
    text: Seq<char>,
    next: BusItemView,
)
    requires
        s.guard == GuardState::Locked,
        addressed(s, next),
    ensures
        completion(s, ReadOutcomeView::DeviceError(text)) == Some(
            BusReplyView::Error { id: ErrorId::Failed, diagnostic: text },
        ),
        service_step(s, ServiceEvent::Completed(ReadOutcomeView::DeviceError(text))) == (
            ServiceView { guard: GuardState::Unlocked, ..s }
        ),
        action_for(
            service_step(s, ServiceEvent::Completed(ReadOutcomeView::DeviceError(text))),
            next,
        ) == ActionView::ReadDevice,
{
}

/// A method call that is not addressed to the published object is answered
/// with the not-found error, and the device is left alone: its guard does not
/// change and no read is asked for.
pub proof fn lemma_unmatched_call_is_not_found(s: ServiceView, call: MethodCallView)
    requires
        !s.object.matches(call),
    ensures
        action_for(s, BusItemView::MethodCall(call)) == ActionView::Send(
            BusReplyView::Error { id: ErrorId::NotFound, diagnostic: NOT_FOUND_DIAGNOSTIC@ },
        ),
        state_after(s, BusItemView::MethodCall(call)) == s,
{
}

/// Every method call gets exactly one reply: at once, or when the read that
/// it began ends. Only while the device is held is a call put off, to be
/// handed in again.
pub proof fn lemma_every_call_is_answered(
    s: ServiceView,
    call: MethodCallView,
    outcome: ReadOutcomeView,
)
    ensures
        match action_for(s, BusItemView::MethodCall(call)) {
            ActionView::Send(_) => state_after(s, BusItemView::MethodCall(call)) == s,
            ActionView::ReadDevice => completion(
                state_after(s, BusItemView::MethodCall(call)),
                outcome,
            ) is Some,
            ActionView::Defer => s.guard == GuardState::Locked && state_after(
                s,
                BusItemView::MethodCall(call),
            ) == s,
            _ => false,
        },
{
}

/// Signals and empty items change nothing and are never answered.
pub proof fn lemma_other_items_change_nothing(s: ServiceView, item: BusItemView)
    requires
        !(item is MethodCall),
    ensures
        state_after(s, item) == s,
        !(action_for(s, item) is Send),
        !(action_for(s, item) is ReadDevice),
{
}

/// The state in which event number `i` of `trace` finds the service.
pub open spec fn service_before(s: ServiceView, trace: Seq<ServiceEvent>, i: int) -> ServiceView {
    service_run(s, trace.take(i))
}

/// Event number `i` of `trace` is an item for which a device read is asked.
pub open spec fn read_begins_at(s: ServiceView, trace: Seq<ServiceEvent>, i: int) -> bool {
    &&& 0 <= i < trace.len()
    &&& trace[i] matches ServiceEvent::Item(item)
    &&& action_for(service_before(s, trace, i), item) == ActionView::ReadDevice
}

/// Event number `i` of `trace` is the end of a device read that was under
/// way, with an outcome: the device is free again after it.
pub open spec fn read_ends_at(s: ServiceView, trace: Seq<ServiceEvent>, i: int) -> bool {
    &&& 0 <= i < trace.len()
    &&& trace[i] is Completed
    &&& service_before(s, trace, i).guard == GuardState::Locked
}

/// Running a trace one event further is one step from where the trace led.
pub proof fn lemma_service_before_next(s: ServiceView, trace: Seq<ServiceEvent>, i: int)
    requires
        0 <= i < trace.len(),
    ensures
        service_before(s, trace, i + 1) == service_step(service_before(s, trace, i), trace[i]),
{
    assert(trace.take(i + 1).drop_last() =~= trace.take(i));
    assert(trace.take(i + 1).last() == trace[i]);
}

/// From the item that begins a read on, the device is not free before that
/// read has ended with an outcome.
proof fn lemma_device_held_while_reading(
    s: ServiceView,
    trace: Seq<ServiceEvent>,
    i: int,
    m: int,
)
    requires
        read_begins_at(s, trace, i),
        i < m <= trace.len(),
        forall|k: int| i < k < m ==> !read_ends_at(s, trace, k),
    ensures
        service_before(s, trace, m).guard != GuardState::Unlocked,
    decreases m - i,
{
    lemma_service_before_next(s, trace, i);
    if m > i + 1 {
        lemma_device_held_while_reading(s, trace, i, m - 1);
        lemma_service_before_next(s, trace, m - 1);
        assert(!read_ends_at(s, trace, m - 1));
    }
}

/// Mutual exclusion: of two requests for which the device is read, the read
/// for the second is asked for only after the read for the first has ended
/// and freed the device. So the two reads never overlap.
pub proof fn lemma_reads_never_overlap(s: ServiceView, trace: Seq<ServiceEvent>, i: int, j: int)
    requires
        i < j,
        read_begins_at(s, trace, i),
        read_begins_at(s, trace, j),
    ensures
        exists|k: int| i < k < j && read_ends_at(s, trace, k),
{
    if forall|k: int| i < k < j ==> !read_ends_at(s, trace, k) {
        lemma_device_held_while_reading(s, trace, i, j);
    }
}

/// Whatever happens to the service, it goes on publishing the same object.
pub proof fn lemma_object_is_immutable(s: ServiceView, trace: Seq<ServiceEvent>)
    ensures
        service_run(s, trace).object == s.object,
    decreases trace.len(),
{
    if trace.len() > 0 {
        lemma_object_is_immutable(s, trace.drop_last());
    }
}

/// Once a read has ended abnormally, every later call addressed to the
/// published object is answered with the poisoned error, however many calls
/// follow and whatever happens between them; and no read is asked for again.
pub proof fn lemma_poison_propagates(s: ServiceView, trace: Seq<ServiceEvent>, item: BusItemView)
    requires
        s.guard == GuardState::Locked,
        addressed(s, item),
    ensures
        service_run(service_step(s, ServiceEvent::Abandoned), trace).guard == GuardState::Poisoned,
        action_for(service_run(service_step(s, ServiceEvent::Abandoned), trace), item)
            == ActionView::Send(
            BusReplyView::Error { id: ErrorId::Failed, diagnostic: POISONED_DIAGNOSTIC@ },
        ),
    decreases trace.len(),
{
    let poisoned = service_step(s, ServiceEvent::Abandoned);
    lemma_object_is_immutable(poisoned, trace);
    if trace.len() > 0 {
        lemma_poison_propagates(s, trace.drop_last(), item);
    }
}

} // verus!
