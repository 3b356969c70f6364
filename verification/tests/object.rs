use temper_server::{
    Argument, MethodCall, PublishedObject, BUS_NAME, GET_TEMPERATURE, REPLY_ARGUMENT,
    REPLY_SIGNATURE, THERMOMETER_IFACE, THERMOMETER_PATH,
};

#[test]
fn names_of_the_service_are_fixed() {
    assert_eq!(BUS_NAME, "org.yasashiisyndicate.TemperServer");
    assert_eq!(THERMOMETER_PATH, "/Thermometer");
    assert_eq!(THERMOMETER_IFACE, "org.yasashiisyndicate.TemperServer");
    assert_eq!(GET_TEMPERATURE, "GetTemperature");
    assert_eq!(REPLY_ARGUMENT, "reply");
    assert_eq!(REPLY_SIGNATURE, "d");
}

#[test]
fn thermometer_object_has_the_fixed_names() {
    let object = PublishedObject::thermometer();
    assert_eq!(object.path(), "/Thermometer");
    assert_eq!(object.interface(), "org.yasashiisyndicate.TemperServer");
    assert_eq!(object.method(), "GetTemperature");
}

#[test]
fn object_keeps_what_it_was_made_with() {
    let object = PublishedObject::new("/a".to_string(), "b.c".to_string(), "D".to_string());
    assert_eq!(object.path(), "/a");
    assert_eq!(object.interface(), "b.c");
    assert_eq!(object.method(), "D");
}

#[test]
fn method_takes_nothing_and_returns_one_double() {
    let descriptor = PublishedObject::thermometer().descriptor();
    assert_eq!(descriptor.name, "GetTemperature");
    assert!(descriptor.inputs.is_empty());
    assert_eq!(
        descriptor.outputs,
        vec![Argument { name: "reply".to_string(), signature: "d".to_string() }]
    );
}

#[test]
fn object_matches_only_its_own_triple() {
    let object = PublishedObject::thermometer();
    let call = |path: &str, interface: &str, member: &str| {
        MethodCall::new(path.to_string(), interface.to_string(), member.to_string())
    };
    let iface = "org.yasashiisyndicate.TemperServer";
    assert!(object.matches(&call("/Thermometer", iface, "GetTemperature")));
    assert!(!object.matches(&call("/Thermometer2", iface, "GetTemperature")));
    assert!(!object.matches(&call("/Thermomete", iface, "GetTemperature")));
    assert!(!object.matches(&call("/Thermometer", "org.yasashiisyndicate", "GetTemperature")));
    assert!(!object.matches(&call("/Thermometer", iface, "GetTemperature2")));
    assert!(!object.matches(&call("GetTemperature", iface, "/Thermometer")));
}

#[test]
fn call_without_a_header_matches_nothing() {
    let object = PublishedObject::thermometer();
    let full = MethodCall::new(
        "/Thermometer".to_string(),
        "org.yasashiisyndicate.TemperServer".to_string(),
        "GetTemperature".to_string(),
    );
    assert!(object.matches(&full));
    let no_path = MethodCall { path: None, ..MethodCall::new(
        "/Thermometer".to_string(),
        "org.yasashiisyndicate.TemperServer".to_string(),
        "GetTemperature".to_string(),
    ) };
    assert!(!object.matches(&no_path));
    let no_interface = MethodCall {
        path: Some("/Thermometer".to_string()),
        interface: None,
        member: Some("GetTemperature".to_string()),
    };
    assert!(!object.matches(&no_interface));
    let no_member = MethodCall {
        path: Some("/Thermometer".to_string()),
        interface: Some("org.yasashiisyndicate.TemperServer".to_string()),
        member: None,
    };
    assert!(!object.matches(&no_member));
}

#[test]
fn method_call_new_carries_all_three_headers() {
    let call = MethodCall::new("/p".to_string(), "i.f".to_string(), "M".to_string());
    assert_eq!(call.path, Some("/p".to_string()));
    assert_eq!(call.interface, Some("i.f".to_string()));
    assert_eq!(call.member, Some("M".to_string()));
}
