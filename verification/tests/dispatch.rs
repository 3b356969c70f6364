use temper_server::{
    Action, BusItem, BusReply, Diagnostic, ErrorId, GuardState, MethodCall, PublishedObject,
    ReadOutcome, Reading, Service,
};

fn call_to(path: &str, interface: &str, member: &str) -> BusItem {
    BusItem::MethodCall(MethodCall::new(
        path.to_string(),
        interface.to_string(),
        member.to_string(),
    ))
}

fn get_temperature() -> BusItem {
    call_to("/Thermometer", "org.yasashiisyndicate.TemperServer", "GetTemperature")
}

fn failed(text: &str) -> BusReply {
    BusReply::Error { id: ErrorId::Failed, diagnostic: Diagnostic::new(text.to_string()).unwrap() }
}

fn not_found() -> BusReply {
    BusReply::Error {
        id: ErrorId::NotFound,
        diagnostic: Diagnostic::new("Object path not found".to_string()).unwrap(),
    }
}

fn poisoned_service() -> Service {
    let mut service = Service::new(PublishedObject::thermometer());
    assert_eq!(service.dispatch(&get_temperature()), Action::ReadDevice);
    assert!(service.abandon());
    service
}

#[test]
fn new_service_waits_with_the_device_free() {
    let service = Service::new(PublishedObject::thermometer());
    assert_eq!(service.guard_state(), GuardState::Unlocked);
    assert!(!service.is_processing());
    assert_eq!(service.object(), &PublishedObject::thermometer());
}

#[test]
fn sensor_value_22_5_reaches_the_caller() {
    let mut service = Service::new(PublishedObject::thermometer());
    assert_eq!(service.dispatch(&get_temperature()), Action::ReadDevice);
    assert!(service.is_processing());
    let reply = service.complete(ReadOutcome::success(22.5f64.to_bits()));
    match reply {
        Some(BusReply::Success(reading)) => {
            assert_eq!(f64::from_bits(reading.to_bits()), 22.5)
        },
        other => panic!("expected a reading, got {:?}", other),
    }
    assert!(!service.is_processing());
}

#[test]
fn transport_timeout_reaches_the_caller_as_failed() {
    let mut service = Service::new(PublishedObject::thermometer());
    assert_eq!(service.dispatch(&get_temperature()), Action::ReadDevice);
    let outcome = ReadOutcome::failure("Timeout".to_string()).unwrap();
    match service.complete(outcome) {
        Some(BusReply::Error { id, diagnostic }) => {
            assert_eq!(id, ErrorId::Failed);
            assert_eq!(id.name(), "org.freedesktop.DBus.Failed");
            assert!(diagnostic.text().contains("Timeout"));
        },
        other => panic!("expected an error, got {:?}", other),
    }
}

#[test]
fn service_goes_on_after_a_failed_read() {
    let mut service = Service::new(PublishedObject::thermometer());
    service.dispatch(&get_temperature());
    let reply = service.complete(ReadOutcome::failure("Timeout".to_string()).unwrap());
    assert_eq!(reply, Some(failed("Timeout")));
    assert_eq!(service.guard_state(), GuardState::Unlocked);
    assert_eq!(service.dispatch(&get_temperature()), Action::ReadDevice);
    let reply = service.complete(ReadOutcome::success(21.0f64.to_bits()));
    assert_eq!(reply, Some(BusReply::Success(Reading::from_bits(21.0f64.to_bits()))));
}

#[test]
fn call_to_thermometer2_is_not_found() {
    let mut service = Service::new(PublishedObject::thermometer());
    let item = call_to("/Thermometer2", "org.yasashiisyndicate.TemperServer", "GetTemperature");
    match service.dispatch(&item) {
        Action::Send(BusReply::Error { id, diagnostic }) => {
            assert_eq!(id, ErrorId::NotFound);
            assert_eq!(id.name(), "org.freedesktop.DBus.Error.UnknownObject");
            assert_eq!(diagnostic.text(), "Object path not found");
        },
        other => panic!("expected an error reply, got {:?}", other),
    }
    assert_eq!(service.guard_state(), GuardState::Unlocked);
}

#[test]
fn unmatched_calls_leave_the_device_alone() {
    let iface = "org.yasashiisyndicate.TemperServer";
    let items = [
        call_to("/Thermometer2", iface, "GetTemperature"),
        call_to("/thermometer", iface, "GetTemperature"),
        call_to("/Thermometer/", iface, "GetTemperature"),
        call_to("/", iface, "GetTemperature"),
        call_to("", iface, "GetTemperature"),
        call_to("/Thermometer", "org.yasashiisyndicate.TemperServer2", "GetTemperature"),
        call_to("/Thermometer", "org.freedesktop.DBus.Introspectable", "Introspect"),
        call_to("/Thermometer", iface, "SetTemperature"),
        call_to("/Thermometer", iface, "gettemperature"),
        call_to("/Thermometer", iface, ""),
        call_to(iface, "/Thermometer", "GetTemperature"),
        BusItem::MethodCall(MethodCall {
            path: None,
            interface: Some(iface.to_string()),
            member: Some("GetTemperature".to_string()),
        }),
        BusItem::MethodCall(MethodCall {
            path: Some("/Thermometer".to_string()),
            interface: None,
            member: Some("GetTemperature".to_string()),
        }),
        BusItem::MethodCall(MethodCall {
            path: Some("/Thermometer".to_string()),
            interface: Some(iface.to_string()),
            member: None,
        }),
        BusItem::MethodCall(MethodCall { path: None, interface: None, member: None }),
    ];
    let mut service = Service::new(PublishedObject::thermometer());
    for item in &items {
        assert_eq!(service.dispatch(item), Action::Send(not_found()));
        assert_eq!(service.guard_state(), GuardState::Unlocked);
    }
    assert_eq!(service.dispatch(&get_temperature()), Action::ReadDevice);
    for item in &items {
        assert_eq!(service.dispatch(item), Action::Send(not_found()));
        assert_eq!(service.guard_state(), GuardState::Locked);
    }
    let mut service = poisoned_service();
    for item in &items {
        assert_eq!(service.dispatch(item), Action::Send(not_found()));
        assert_eq!(service.guard_state(), GuardState::Poisoned);
    }
}

#[test]
fn signals_are_logged_and_not_answered() {
    let mut service = Service::new(PublishedObject::thermometer());
    assert_eq!(service.dispatch(&BusItem::Signal), Action::Log);
    assert_eq!(service.guard_state(), GuardState::Unlocked);
    service.dispatch(&get_temperature());
    assert_eq!(service.dispatch(&BusItem::Signal), Action::Log);
    assert_eq!(service.guard_state(), GuardState::Locked);
}

#[test]
fn empty_items_are_passed_over() {
    let mut service = Service::new(PublishedObject::thermometer());
    assert_eq!(service.dispatch(&BusItem::Nothing), Action::Idle);
    assert_eq!(service.guard_state(), GuardState::Unlocked);
    let mut service = poisoned_service();
    assert_eq!(service.dispatch(&BusItem::Nothing), Action::Idle);
    assert_eq!(service.guard_state(), GuardState::Poisoned);
}

#[test]
fn back_to_back_requests_are_answered_in_order() {
    let mut service = Service::new(PublishedObject::thermometer());
    let mut replies = Vec::new();
    for value in [20.0f64, 20.5] {
        assert_eq!(service.dispatch(&get_temperature()), Action::ReadDevice);
        replies.push(service.complete(ReadOutcome::success(value.to_bits())).unwrap());
    }
    assert_eq!(
        replies,
        vec![
            BusReply::Success(Reading::from_bits(20.0f64.to_bits())),
            BusReply::Success(Reading::from_bits(20.5f64.to_bits())),
        ]
    );
}

#[test]
fn second_request_is_put_off_while_the_first_reads() {
    let mut service = Service::new(PublishedObject::thermometer());
    assert_eq!(service.dispatch(&get_temperature()), Action::ReadDevice);
    assert_eq!(service.dispatch(&get_temperature()), Action::Defer);
    assert_eq!(service.dispatch(&get_temperature()), Action::Defer);
    assert!(service.is_processing());
    let first = service.complete(ReadOutcome::success(1));
    assert_eq!(first, Some(BusReply::Success(Reading::from_bits(1))));
    assert_eq!(service.dispatch(&get_temperature()), Action::ReadDevice);
    let second = service.complete(ReadOutcome::success(2));
    assert_eq!(second, Some(BusReply::Success(Reading::from_bits(2))));
}

#[test]
fn complete_without_a_read_sends_nothing() {
    let mut service = Service::new(PublishedObject::thermometer());
    assert_eq!(service.complete(ReadOutcome::success(1)), None);
    assert_eq!(service.guard_state(), GuardState::Unlocked);
    let mut service = poisoned_service();
    assert_eq!(service.complete(ReadOutcome::success(1)), None);
    assert_eq!(service.guard_state(), GuardState::Poisoned);
}

#[test]
fn abandon_without_a_read_changes_nothing() {
    let mut service = Service::new(PublishedObject::thermometer());
    assert!(!service.abandon());
    assert_eq!(service.guard_state(), GuardState::Unlocked);
    assert_eq!(service.dispatch(&get_temperature()), Action::ReadDevice);
}

#[test]
fn every_request_after_an_abnormal_end_is_poisoned() {
    let mut service = poisoned_service();
    for round in 0..50 {
        assert_eq!(service.dispatch(&get_temperature()), Action::Send(failed("poisoned")));
        assert_eq!(service.guard_state(), GuardState::Poisoned);
        if round % 2 == 0 {
            service.dispatch(&BusItem::Signal);
            service.dispatch(&BusItem::Nothing);
        }
        if round % 7 == 0 {
            assert_eq!(service.complete(ReadOutcome::success(0)), None);
            assert!(!service.abandon());
        }
    }
}

#[test]
fn service_with_another_object_routes_to_it() {
    let object = PublishedObject::new(
        "/Thermometer2".to_string(),
        "org.example.Probe".to_string(),
        "Read".to_string(),
    );
    let mut service = Service::new(object);
    assert_eq!(service.dispatch(&get_temperature()), Action::Send(not_found()));
    let item = call_to("/Thermometer2", "org.example.Probe", "Read");
    assert_eq!(service.dispatch(&item), Action::ReadDevice);
}
