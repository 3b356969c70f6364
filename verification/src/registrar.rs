//! Bringing the service up.
//!
//! The service is registered once, step by step, before it serves anything.
//! Every step has to succeed: the first failure ends the startup for good, and
//! the service is never left half registered.

use vstd::prelude::*;

verus! {

/// The steps of the startup, in their order.
#[derive(Clone, Copy, Debug, PartialEq, Eq, Structural)]
pub enum StartupStep {
    /// Open a private connection to the bus.
    Connect,
    /// Claim the well-known service name.
    ClaimName,
    /// Register the object path, replacing no earlier registration.
    RegisterPath,
    /// Attach the interface with its one method to the path.
    AttachInterface,
    /// Mark the path active, so that callers can reach it.
    Activate,
}

/// How far the startup has come.
#[derive(Clone, Copy, Debug, PartialEq, Eq, Structural)]
pub enum Startup {
    /// This step is to be carried out next.
    Pending(StartupStep),
    /// Every step succeeded: the service can be called.
    Serving,
    /// This step failed: the startup is over and the process ends.
    Aborted(StartupStep),
}

/// What the bus answers to a request for a name.
#[derive(Clone, Copy, Debug, PartialEq, Eq, Structural)]
pub enum NameReply {
    /// The service now owns the name.
    PrimaryOwner,
    /// Another owner keeps the name; the request waits in a queue.
    InQueue,
    /// Another owner keeps the name, and the request was turned down.
    Exists,
    /// The service owned the name already.
    AlreadyOwner,
}

/// The place of a step in the order of the startup, counted from zero.
pub open spec fn step_index(step: StartupStep) -> int {
    match step {
        StartupStep::Connect => 0,
        StartupStep::ClaimName => 1,
        StartupStep::RegisterPath => 2,
        StartupStep::AttachInterface => 3,
        StartupStep::Activate => 4,
    }
}

/// The number of steps.
pub open spec fn step_count() -> int {
    5
}

/// The state that follows a step which succeeded.
pub open spec fn after_success(step: StartupStep) -> Startup {
    match step {
        StartupStep::Connect => Startup::Pending(StartupStep::ClaimName),
        StartupStep::ClaimName => Startup::Pending(StartupStep::RegisterPath),
        StartupStep::RegisterPath => Startup::Pending(StartupStep::AttachInterface),
        StartupStep::AttachInterface => Startup::Pending(StartupStep::Activate),
        StartupStep::Activate => Startup::Serving,
    }
}

/// The state that follows `s` when the pending step is reported as succeeded
/// (`ok`) or failed. A startup that is over stays as it is.
pub open spec fn startup_step(s: Startup, ok: bool) -> Startup {
    match s {
        Startup::Pending(step) => if ok {
            after_success(step)
        } else {
            Startup::Aborted(step)
        },
        _ => s,
    }
}

/// The state of a startup after the reports of `results`, in order, from the beginning.
pub open spec fn startup_run(results: Seq<bool>) -> Startup
    decreases results.len(),
{
    if results.len() == 0 {
        Startup::Pending(StartupStep::Connect)
    } else {
        startup_step(startup_run(results.drop_last()), results.last())
    }
}

/// The name is the service's own after this answer.
pub open spec fn owns_name(reply: NameReply) -> bool {
    reply == NameReply::PrimaryOwner || reply == NameReply::AlreadyOwner
}

/// Whether the claim of the name succeeded: it did where the service owns the
/// name now, and failed where another owner keeps it.
pub fn name_claimed(reply: NameReply) -> (ok: bool)
    ensures
        ok == owns_name(reply),
{
    match reply {
        NameReply::PrimaryOwner => true,
        NameReply::AlreadyOwner => true,
        NameReply::InQueue => false,
        NameReply::Exists => false,
    }
}

/// The startup of the service.
#[derive(Debug, PartialEq, Eq)]
pub struct Registrar {
    state: Startup,
}

impl View for Registrar {
    type V = Startup;

    closed spec fn view(&self) -> Startup {
        self.state
    }
}

impl Registrar {
    /// A startup of which nothing is done yet.
    pub fn new() -> (r: Registrar)
        ensures
            r@ == Startup::Pending(StartupStep::Connect),
    {
        Registrar { state: Startup::Pending(StartupStep::Connect) }
    }

    /// How far the startup has come.
    pub fn state(&self) -> (s: Startup)
        ensures
            s == self@,
    {
        self.state
    }

    /// The step to carry out next, if the startup is not over.
    pub fn pending(&self) -> (step: Option<StartupStep>)
        ensures
            step == match self@ {
                Startup::Pending(next) => Some(next),
                _ => None,
            },
    {
        match self.state {
            Startup::Pending(next) => Some(next),
            _ => None,
        }
    }

    /// Whether the service can be called.
    pub fn is_serving(&self) -> (b: bool)
        ensures
            b == (self@ == Startup::Serving),
    {
        match self.state {
            Startup::Serving => true,
            _ => false,
        }
    }

    /// Reports that the pending step succeeded (`ok`) or failed, and returns
    /// the state that follows.
    pub fn record(&mut self, ok: bool) -> (s: Startup)
        ensures
            s == startup_step(old(self)@, ok),
            final(self)@ == s,
    {
        let next = match self.state {
            Startup::Pending(step) => {
                if ok {
                    match step {
                        StartupStep::Connect => Startup::Pending(StartupStep::ClaimName),
                        StartupStep::ClaimName => Startup::Pending(StartupStep::RegisterPath),
                        StartupStep::RegisterPath => Startup::Pending(
                            StartupStep::AttachInterface,
                        ),
                        StartupStep::AttachInterface => Startup::Pending(StartupStep::Activate),
                        StartupStep::Activate => Startup::Serving,
                    }
                } else {
                    Startup::Aborted(step)
                }
            },
            Startup::Serving => Startup::Serving,
            Startup::Aborted(step) => Startup::Aborted(step),
        };
        self.state = next;
        next
    }
}

/// Where a startup stands is told by the reports so far: it waits for a step
/// exactly when that many reports came and all were good; it is aborted at a
/// step exactly when the report on that step was the first bad one; and it is
/// serving exactly when the reports on all steps were good.
pub proof fn lemma_startup_run(results: Seq<bool>, step: StartupStep)
    ensures
        startup_run(results) == Startup::Pending(step) <==> {
            &&& results.len() == step_index(step)
            &&& forall|i: int| 0 <= i < results.len() ==> results[i]
        },
        startup_run(results) == Startup::Aborted(step) <==> {
            &&& step_index(step) < results.len()
            &&& !results[step_index(step)]
            &&& forall|i: int| 0 <= i < step_index(step) ==> results[i]
        },
        startup_run(results) == Startup::Serving <==> {
            &&& results.len() >= step_count()
            &&& forall|i: int| 0 <= i < step_count() ==> results[i]
        },
    decreases results.len(),
{
    if results.len() > 0 {
        let before = results.drop_last();
        lemma_startup_run(before, StartupStep::Connect);
        lemma_startup_run(before, StartupStep::ClaimName);
        lemma_startup_run(before, StartupStep::RegisterPath);
        lemma_startup_run(before, StartupStep::AttachInterface);
        lemma_startup_run(before, StartupStep::Activate);
        assert(forall|i: int| 0 <= i < before.len() ==> before[i] == results[i]);
    }
}

/// The service comes up if and only if every step succeeds; a single failure
/// is final, whatever is reported after it.
pub proof fn lemma_serving_needs_every_step(results: Seq<bool>)
    ensures
        startup_run(results) == Startup::Serving <==> {
            &&& results.len() >= step_count()
            &&& forall|i: int| 0 <= i < step_count() ==> results[i]
        },
        (exists|i: int| 0 <= i < results.len() && i < step_count() && !results[i])
            ==> startup_run(results) is Aborted,
{
    lemma_startup_run(results, StartupStep::Connect);
    lemma_startup_run(results, StartupStep::ClaimName);
    lemma_startup_run(results, StartupStep::RegisterPath);
    lemma_startup_run(results, StartupStep::AttachInterface);
    lemma_startup_run(results, StartupStep::Activate);
}

} // verus!
