//! What a device read yields.

use crate::diagnostic::Diagnostic;
use vstd::prelude::*;

verus! {

/// A temperature reading.
///
/// `bits` is the IEEE-754 bit pattern of the double-precision value that the
/// thermometer returned. No range is imposed on it: whether a reading is
/// plausible is the thermometer's business.
#[derive(Clone, Copy, Debug, PartialEq, Eq, Structural)]
pub struct Reading {
    pub bits: u64,
}

impl Reading {
    /// The reading with the given bit pattern.
    pub fn from_bits(bits: u64) -> (r: Reading)
        ensures
            r.bits == bits,
    {
        Reading { bits }
    }

    /// The bit pattern of this reading.
    pub fn to_bits(self) -> (bits: u64)
        ensures
            bits == self.bits,
    {
        self.bits
    }
}

/// The outcome of one invocation of the read operation.
#[derive(Debug, PartialEq, Eq)]
pub enum ReadOutcome {
    /// The device returned a reading.
    Success(Reading),
    /// The read failed; the diagnostic describes the failure.
    DeviceError(Diagnostic),
}

/// The mathematical value of a [`ReadOutcome`].
pub enum ReadOutcomeView {
    Success(Reading),
    DeviceError(Seq<char>),
}

impl View for ReadOutcome {
    type V = ReadOutcomeView;

    open spec fn view(&self) -> ReadOutcomeView {
        match self {
            ReadOutcome::Success(r) => ReadOutcomeView::Success(*r),
            ReadOutcome::DeviceError(d) => ReadOutcomeView::DeviceError(d@),
        }
    }
}

impl ReadOutcome {
    /// The outcome of a read that returned the reading with the given bit pattern.
    pub fn success(bits: u64) -> (outcome: ReadOutcome)
        ensures
            outcome@ == ReadOutcomeView::Success(Reading { bits }),
    {
        ReadOutcome::Success(Reading { bits })
    }

    /// The outcome of a read that failed, described by `text`; none where the
    /// text is empty, since a failure has a description.
    pub fn failure(text: String) -> (outcome: Option<ReadOutcome>)
        ensures
            outcome is Some <==> text@.len() > 0,
            outcome matches Some(o) ==> o@ == ReadOutcomeView::DeviceError(text@),
    {
        match Diagnostic::new(text) {
            Some(diagnostic) => Some(ReadOutcome::DeviceError(diagnostic)),
            None => None,
        }
    }

    /// Whether the read succeeded.
    pub fn is_success(&self) -> (b: bool)
        ensures
            b == (self@ is Success),
    {
        match self {
            ReadOutcome::Success(_) => true,
            ReadOutcome::DeviceError(_) => false,
        }
    }
}

} // verus!
