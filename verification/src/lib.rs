//! A temperature service for one USB thermometer on a message bus.
//!
//! The crate holds the decisions of the service: how the outcome of a device
//! read becomes a bus reply, how access to the single device is guarded, how an
//! incoming bus item is routed, and in which order the service is brought up.
//! It performs no I/O. The program around it reads the device and talks to the
//! bus, hands plain values in and carries out the actions it gets back.
//!
//! A temperature is held as the bit pattern of a double-precision number, so
//! that every reading, also one that is not a number, passes through exactly.

pub mod diagnostic;
pub mod dispatch;
pub mod guard;
pub mod object;
pub mod reading;
pub mod registrar;
pub mod reply;

pub use diagnostic::Diagnostic;
pub use dispatch::{
    Action, ActionView, BusItem, BusItemView, Service, ServiceEvent, ServiceView,
};
pub use guard::{
    Acquisition, GuardEvent, GuardState, GuardedHandle, ReadStep, ReadStepView,
    POISONED_DIAGNOSTIC,
};
pub use object::{
    Argument, MethodCall, MethodCallView, MethodDescriptor, PublishedObject, PublishedObjectView,
    BUS_NAME, GET_TEMPERATURE, REPLY_ARGUMENT, REPLY_SIGNATURE, THERMOMETER_IFACE,
    THERMOMETER_PATH,
};
pub use reading::{ReadOutcome, ReadOutcomeView, Reading};
pub use registrar::{name_claimed, NameReply, Registrar, Startup, StartupStep};
pub use reply::{
    not_found_reply, temper_to_dbus, BusReply, BusReplyView, ErrorId, DBUS_ERROR_FAILED,
    DBUS_ERROR_NOT_FOUND, NOT_FOUND_DIAGNOSTIC,
};
