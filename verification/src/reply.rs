//! Bus replies, and the mapping from a read outcome to a reply.

use crate::diagnostic::Diagnostic;
use crate::reading::{ReadOutcome, ReadOutcomeView, Reading};
use vstd::prelude::*;

verus! {

/// Bus name of the error that stands for every failed operation.
pub const DBUS_ERROR_FAILED: &'static str = "org.freedesktop.DBus.Failed";

/// Bus name of the error that answers a call which matches no published
/// object, interface and method.
pub const DBUS_ERROR_NOT_FOUND: &'static str = "org.freedesktop.DBus.Error.UnknownObject";

/// Diagnostic text of the reply to a call that matches nothing.
pub const NOT_FOUND_DIAGNOSTIC: &'static str = "Object path not found";

/// The identifier carried by an error reply.
///
/// It is deliberately coarse. Every failure of the device, of the read or of
/// the guard is `Failed`; what went wrong is told by the diagnostic text only.
#[derive(Clone, Copy, Debug, PartialEq, Eq, Structural)]
pub enum ErrorId {
    /// The requested operation failed.
    Failed,
    /// The call matched no published object, interface and method.
    NotFound,
}

impl ErrorId {
    /// The name of this identifier on the bus.
    pub open spec fn spec_name(self) -> Seq<char> {
        match self {
            ErrorId::Failed => DBUS_ERROR_FAILED@,
            ErrorId::NotFound => DBUS_ERROR_NOT_FOUND@,
        }
    }

    /// The name of this identifier on the bus.
    pub fn name(self) -> (n: &'static str)
        ensures
            n@ == self.spec_name(),
    {
        match self {
            ErrorId::Failed => DBUS_ERROR_FAILED,
            ErrorId::NotFound => DBUS_ERROR_NOT_FOUND,
        }
    }
}

/// The two identifiers have different names on the bus.
pub proof fn lemma_names_differ(a: ErrorId, b: ErrorId)
    ensures
        a.spec_name() == b.spec_name() <==> a == b,
{
    reveal_strlit("org.freedesktop.DBus.Failed");
    reveal_strlit("org.freedesktop.DBus.Error.UnknownObject");
    assert(ErrorId::Failed.spec_name().len() == 27);
    assert(ErrorId::NotFound.spec_name().len() == 40);
}

/// The reply to one method call.
#[derive(Debug, PartialEq, Eq)]
pub enum BusReply {
    /// A method return with one argument, the reading.
    Success(Reading),
    /// An error reply.
    Error { id: ErrorId, diagnostic: Diagnostic },
}

/// The mathematical value of a [`BusReply`].
pub enum BusReplyView {
    Success(Reading),
    Error { id: ErrorId, diagnostic: Seq<char> },
}

impl View for BusReply {
    type V = BusReplyView;

    open spec fn view(&self) -> BusReplyView {
        match self {
            BusReply::Success(r) => BusReplyView::Success(*r),
            BusReply::Error { id, diagnostic } => BusReplyView::Error {
                id: *id,
                diagnostic: diagnostic@,
            },
        }
    }
}

impl BusReplyView {
    /// An error is described: its diagnostic is not empty.
    pub open spec fn described(self) -> bool {
        self matches BusReplyView::Error { diagnostic, .. } ==> diagnostic.len() > 0
    }
}

/// The reply that answers a read with the given outcome.
///
/// A reading is carried as it is. A failure becomes an error with the
/// identifier `Failed`, whatever its cause, and the failure's text.
pub open spec fn reply_for(outcome: ReadOutcomeView) -> BusReplyView {
    match outcome {
        ReadOutcomeView::Success(r) => BusReplyView::Success(r),
        ReadOutcomeView::DeviceError(d) => BusReplyView::Error {
            id: ErrorId::Failed,
            diagnostic: d,
        },
    }
}

/// The reply to a call that matches no published object, interface and method.
pub open spec fn not_found() -> BusReplyView {
    BusReplyView::Error { id: ErrorId::NotFound, diagnostic: NOT_FOUND_DIAGNOSTIC@ }
}

/// Maps the outcome of a device read to the reply that is sent for it.
///
/// A reading is replied as it is, without rounding or any other change. A
/// failure is replied as an error with the identifier `Failed` and the
/// failure's diagnostic, which is not empty.
pub fn temper_to_dbus(res: ReadOutcome) -> (reply: BusReply)
    ensures
        reply@ == reply_for(res@),
        reply@.described(),
{
    match res {
        ReadOutcome::Success(temperature) => BusReply::Success(temperature),
        ReadOutcome::DeviceError(error) => {
            proof {
                use_type_invariant(&error);
            }
            BusReply::Error { id: ErrorId::Failed, diagnostic: error }
        },
    }
}

/// Builds the reply to a call that matches nothing.
pub fn not_found_reply() -> (reply: BusReply)
    ensures
        reply@ == not_found(),
        reply@.described(),
{
    proof {
        reveal_strlit("Object path not found");
    }
    BusReply::Error { id: ErrorId::NotFound, diagnostic: Diagnostic::known(NOT_FOUND_DIAGNOSTIC) }
}

} // verus!
