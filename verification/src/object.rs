//! The published object, and the calls that are addressed to it.

use vstd::prelude::*;

verus! {

/// The well-known name that the service claims on the bus.
pub const BUS_NAME: &'static str = "org.yasashiisyndicate.TemperServer";

/// The path of the one published object.
pub const THERMOMETER_PATH: &'static str = "/Thermometer";

/// The one interface of the published object.
pub const THERMOMETER_IFACE: &'static str = "org.yasashiisyndicate.TemperServer";

/// The one method of that interface.
pub const GET_TEMPERATURE: &'static str = "GetTemperature";

/// The name of the method's one output argument.
pub const REPLY_ARGUMENT: &'static str = "reply";

/// The type signature of that argument: a double-precision number.
pub const REPLY_SIGNATURE: &'static str = "d";

/// The headers of a method-call message that decide where it goes. A header
/// that the message does not carry is `None`.
#[derive(Debug, PartialEq, Eq)]
pub struct MethodCall {
    pub path: Option<String>,
    pub interface: Option<String>,
    pub member: Option<String>,
}

/// The mathematical value of a [`MethodCall`].
pub struct MethodCallView {
    pub path: Option<Seq<char>>,
    pub interface: Option<Seq<char>>,
    pub member: Option<Seq<char>>,
}

/// The characters of a header, where the message carries it.
pub open spec fn header_view(header: Option<String>) -> Option<Seq<char>> {
    match header {
        Some(text) => Some(text@),
        None => None,
    }
}

impl View for MethodCall {
    type V = MethodCallView;

    open spec fn view(&self) -> MethodCallView {
        MethodCallView {
            path: header_view(self.path),
            interface: header_view(self.interface),
            member: header_view(self.member),
        }
    }
}

impl MethodCall {
    /// A call with all three headers.
    pub fn new(path: String, interface: String, member: String) -> (call: MethodCall)
        ensures
            call@ == (MethodCallView {
                path: Some(path@),
                interface: Some(interface@),
                member: Some(member@),
            }),
    {
        MethodCall { path: Some(path), interface: Some(interface), member: Some(member) }
    }
}

/// One argument of a method: its name and its type signature.
#[derive(Debug, PartialEq, Eq)]
pub struct Argument {
    pub name: String,
    pub signature: String,
}

/// What a method takes and returns.
#[derive(Debug, PartialEq, Eq)]
pub struct MethodDescriptor {
    pub name: String,
    pub inputs: Vec<Argument>,
    pub outputs: Vec<Argument>,
}

/// The one object that the service publishes: one path, with one interface,
/// with one method, and neither properties nor signals. It does not change
/// once it is made.
#[derive(Debug, PartialEq, Eq)]
pub struct PublishedObject {
    path: String,
    interface: String,
    method: String,
}

/// The mathematical value of a [`PublishedObject`].
pub struct PublishedObjectView {
    pub path: Seq<char>,
    pub interface: Seq<char>,
    pub method: Seq<char>,
}

impl PublishedObjectView {
    /// The call is addressed to this object's path, interface and method, all three.
    pub open spec fn matches(self, call: MethodCallView) -> bool {
        &&& call.path == Some(self.path)
        &&& call.interface == Some(self.interface)
        &&& call.member == Some(self.method)
    }
}

/// The thermometer object: the fixed path, interface and method of this service.
pub open spec fn thermometer() -> PublishedObjectView {
    PublishedObjectView {
        path: THERMOMETER_PATH@,
        interface: THERMOMETER_IFACE@,
        method: GET_TEMPERATURE@,
    }
}

/// Whether a header is carried and holds exactly the wanted text.
fn header_is(header: &Option<String>, wanted: &String) -> (b: bool)
    ensures
        b == (header_view(*header) == Some(wanted@)),
{
    match header {
        Some(text) => *text == *wanted,
        None => false,
    }
}

impl View for PublishedObject {
    type V = PublishedObjectView;

    closed spec fn view(&self) -> PublishedObjectView {
        PublishedObjectView { path: self.path@, interface: self.interface@, method: self.method@ }
    }
}

impl PublishedObject {
    /// An object with the given path, interface and method.
    pub fn new(path: String, interface: String, method: String) -> (object: PublishedObject)
        ensures
            object@ == (PublishedObjectView {
                path: path@,
                interface: interface@,
                method: method@,
            }),
    {
        PublishedObject { path, interface, method }
    }

    /// The thermometer object of this service.
    pub fn thermometer() -> (object: PublishedObject)
        ensures
            object@ == thermometer(),
    {
        PublishedObject {
            path: THERMOMETER_PATH.to_owned(),
            interface: THERMOMETER_IFACE.to_owned(),
            method: GET_TEMPERATURE.to_owned(),
        }
    }

    /// The object's path.
    pub fn path(&self) -> (path: &String)
        ensures
            path@ == self@.path,
    {
        &self.path
    }

    /// The object's interface.
    pub fn interface(&self) -> (interface: &String)
        ensures
            interface@ == self@.interface,
    {
        &self.interface
    }

    /// The interface's method.
    pub fn method(&self) -> (method: &String)
        ensures
            method@ == self@.method,
    {
        &self.method
    }

    /// What the method takes and returns: no input, and one output, a
    /// double-precision number.
    pub fn descriptor(&self) -> (d: MethodDescriptor)
        ensures
            d.name@ == self@.method,
            d.inputs@.len() == 0,
            d.outputs@.len() == 1,
            d.outputs@[0].name@ == REPLY_ARGUMENT@,
            d.outputs@[0].signature@ == REPLY_SIGNATURE@,
    {
        let mut outputs: Vec<Argument> = Vec::new();
        outputs.push(
            Argument { name: REPLY_ARGUMENT.to_owned(), signature: REPLY_SIGNATURE.to_owned() },
        );
        MethodDescriptor { name: self.method.clone(), inputs: Vec::new(), outputs }
    }

    /// Whether the call is addressed to this object's path, interface and method.
    pub fn matches(&self, call: &MethodCall) -> (b: bool)
        ensures
            b == self@.matches(call@),
    {
        header_is(&call.path, &self.path) && header_is(&call.interface, &self.interface)
            && header_is(&call.member, &self.method)
    }
}

} // verus!
