use scpd::{
    Bool, DataType, Direction, Error, ParseError, RawAction, RawAllowedValueRange, RawArgument,
    RawDocument, RawStateVariable, SCPD,
};

fn raw_var(name: &str, data_type: &str) -> RawStateVariable {
    RawStateVariable {
        name: name.to_string(),
        send_events_attribute: None,
        multicast: None,
        data_type: data_type.to_string(),
        default_value: None,
        allowed_value_list: None,
        allowed_value_range: None,
        optional: None,
    }
}

fn raw_arg(name: &str, direction: &str, related: &str) -> RawArgument {
    RawArgument {
        name: name.to_string(),
        direction: direction.to_string(),
        related_state_variable: related.to_string(),
    }
}

fn raw_action(name: &str, args: Option<Vec<RawArgument>>) -> RawAction {
    RawAction { name: name.to_string(), argument_list: args }
}

fn build(vars: Vec<RawStateVariable>, actions: Vec<RawAction>) -> Result<SCPD, Error> {
    SCPD::from_document(
        RawDocument { service_state_table: vars, action_list: actions },
        "urn:schemas-upnp-org:service:RenderingControl:1".to_string(),
    )
}

#[test]
fn strips_marker_from_state_variable_name() {
    let v = scpd::StateVariable::from_raw(raw_var("A_ARG_TYPE_Foo", "string")).unwrap();
    assert_eq!(v.name(), "Foo");
    let v = scpd::StateVariable::from_raw(raw_var("Foo", "string")).unwrap();
    assert_eq!(v.name(), "Foo");
}

#[test]
fn stripping_is_idempotent() {
    let v = scpd::StateVariable::from_raw(raw_var("A_ARG_TYPE_A_ARG_TYPE_Foo", "string")).unwrap();
    assert_eq!(v.name(), "Foo");
    let again = scpd::StateVariable::from_raw(raw_var(v.name(), "string")).unwrap();
    assert_eq!(again.name(), v.name());
}

#[test]
fn strips_only_a_leading_marker() {
    let v = scpd::StateVariable::from_raw(raw_var("FooA_ARG_TYPE_", "string")).unwrap();
    assert_eq!(v.name(), "FooA_ARG_TYPE_");
    let v = scpd::StateVariable::from_raw(raw_var("A_ARG_TYPE", "string")).unwrap();
    assert_eq!(v.name(), "A_ARG_TYPE");
    let v = scpd::StateVariable::from_raw(raw_var("", "string")).unwrap();
    assert_eq!(v.name(), "");
}

#[test]
fn strips_marker_from_related_state_variable() {
    let a = scpd::Argument::from_raw(raw_arg("InstanceID", "in", "A_ARG_TYPE_InstanceID")).unwrap();
    assert_eq!(a.related_state_variable(), "InstanceID");
    assert_eq!(a.name(), "InstanceID");
    let a = scpd::Argument::from_raw(raw_arg("Volume", "out", "Volume")).unwrap();
    assert_eq!(a.related_state_variable(), "Volume");
}

#[test]
fn flags_default_when_absent() {
    let v = scpd::StateVariable::from_raw(raw_var("Volume", "ui2")).unwrap();
    assert_eq!(*v.send_events_attribute(), Bool::Yes);
    assert_eq!(*v.multicast(), Bool::No);
}

#[test]
fn flags_are_read_when_present() {
    let mut raw = raw_var("Volume", "ui2");
    raw.send_events_attribute = Some("no".to_string());
    raw.multicast = Some("yes".to_string());
    let v = scpd::StateVariable::from_raw(raw).unwrap();
    assert_eq!(*v.send_events_attribute(), Bool::No);
    assert_eq!(*v.multicast(), Bool::Yes);
}

#[test]
fn invalid_flag_is_a_parse_error() {
    let mut raw = raw_var("Volume", "ui2");
    raw.send_events_attribute = Some("maybe".to_string());
    let r = scpd::StateVariable::from_raw(raw);
    assert_eq!(r.unwrap_err(), ParseError::InvalidBool("maybe".to_string()));
    let mut raw = raw_var("Volume", "ui2");
    raw.multicast = Some("Yes".to_string());
    let r = scpd::StateVariable::from_raw(raw);
    assert_eq!(r.unwrap_err(), ParseError::InvalidBool("Yes".to_string()));
}

#[test]
fn invalid_data_type_is_a_parse_error() {
    let r = scpd::StateVariable::from_raw(raw_var("Volume", "u16"));
    assert_eq!(r.unwrap_err(), ParseError::InvalidDataType("u16".to_string()));
}

#[test]
fn optional_is_presence_of_marker() {
    let mut raw = raw_var("Mute", "boolean");
    raw.optional = Some(());
    assert!(scpd::StateVariable::from_raw(raw).unwrap().optional());
    assert!(!scpd::StateVariable::from_raw(raw_var("Mute", "boolean")).unwrap().optional());
}

#[test]
fn range_bounds_default_to_one() {
    let mut raw = raw_var("Volume", "ui2");
    raw.allowed_value_range = Some(RawAllowedValueRange { minimum: Some(0), maximum: Some(100), step: None });
    let v = scpd::StateVariable::from_raw(raw).unwrap();
    let range = v.allowed_value_range().unwrap();
    assert_eq!(range.minimum(), 0);
    assert_eq!(range.maximum(), 100);
    assert_eq!(range.step(), 1);
    let mut raw = raw_var("Volume", "ui2");
    raw.allowed_value_range = Some(RawAllowedValueRange { minimum: None, maximum: None, step: Some(5) });
    let v = scpd::StateVariable::from_raw(raw).unwrap();
    let range = v.allowed_value_range().unwrap();
    assert_eq!((range.minimum(), range.maximum(), range.step()), (1, 1, 5));
    assert!(scpd::StateVariable::from_raw(raw_var("Volume", "ui2")).unwrap().allowed_value_range().is_none());
}

#[test]
fn default_value_and_allowed_values_are_kept() {
    let mut raw = raw_var("A_ARG_TYPE_Mode", "string");
    raw.default_value = Some("A".to_string());
    raw.allowed_value_list = Some(vec!["A".to_string(), "B".to_string()]);
    let v = scpd::StateVariable::from_raw(raw).unwrap();
    assert_eq!(v.default_value().as_deref(), Some("A"));
    assert_eq!(v.allowed_values().unwrap(), &vec!["A".to_string(), "B".to_string()]);
    assert!(scpd::StateVariable::from_raw(raw_var("Mode", "string")).unwrap().allowed_values().is_none());
}

#[test]
fn enumerated_variable_maps_to_its_name() {
    let mut raw = raw_var("A_ARG_TYPE_Mode", "string");
    raw.allowed_value_list = Some(vec!["A".to_string(), "B".to_string()]);
    let v = scpd::StateVariable::from_raw(raw).unwrap();
    assert_eq!(v.data_type_str_input(), Ok("Mode"));
    assert_eq!(v.data_type_str_output(), Ok("Mode"));
}

#[test]
fn enumeration_takes_precedence_over_unsupported_type() {
    let mut raw = raw_var("Level", "r4");
    raw.allowed_value_list = Some(vec!["Low".to_string()]);
    let v = scpd::StateVariable::from_raw(raw).unwrap();
    assert_eq!(v.data_type_str_input(), Ok("Level"));
}

#[test]
fn supported_tags_map_to_fixed_types() {
    let table = [
        ("ui1", "u8"),
        ("ui2", "u16"),
        ("ui4", "u32"),
        ("ui8", "u64"),
        ("i1", "i8"),
        ("i2", "i16"),
        ("i4", "i32"),
        ("int", "i64"),
        ("char", "char"),
        ("string", "String"),
        ("boolean", "upnp::datatypes::Bool"),
        ("uri", "hyper::Uri"),
    ];
    for (tag, target) in table {
        let v = scpd::StateVariable::from_raw(raw_var("X", tag)).unwrap();
        assert_eq!(v.data_type_str_input(), Ok(target), "{}", tag);
        assert_eq!(v.data_type_str_output(), Ok(target), "{}", tag);
        let w = scpd::StateVariable::from_raw(raw_var("Y", tag)).unwrap();
        assert_eq!(w.data_type_str_input(), v.data_type_str_input(), "{}", tag);
    }
}

#[test]
fn unsupported_r4_is_an_error() {
    let v = scpd::StateVariable::from_raw(raw_var("Gain", "r4")).unwrap();
    assert_eq!(*v.data_type(), DataType::R4);
    assert_eq!(v.data_type_str_input(), Err(Error::UnsupportedTypeError(DataType::R4)));
    assert_eq!(v.data_type_str_output(), Err(Error::UnsupportedTypeError(DataType::R4)));
}

#[test]
fn every_unsupported_tag_is_an_error() {
    let table = [
        ("r4", DataType::R4),
        ("r8", DataType::R8),
        ("number", DataType::Number),
        ("float", DataType::Float),
        ("fixed14_4", DataType::Fixed14_4),
        ("date", DataType::Date),
        ("dateTime", DataType::DateTime),
        ("dateTimeTz", DataType::DateTimeTz),
        ("time", DataType::Time),
        ("timeTz", DataType::TimeTz),
        ("binBase64", DataType::BinBase64),
        ("binHex", DataType::BinHex),
    ];
    for (tag, dt) in table {
        let v = scpd::StateVariable::from_raw(raw_var("X", tag)).unwrap();
        assert_eq!(*v.data_type(), dt);
        assert_eq!(v.data_type_str_input(), Err(Error::UnsupportedTypeError(dt)));
    }
}

#[test]
fn direction_literals() {
    assert_eq!(Direction::from_literal("in"), Ok(Direction::In));
    assert_eq!(Direction::from_literal("out"), Ok(Direction::Out));
    assert_eq!(Direction::from_literal("In"), Err(ParseError::InvalidDirection("In".to_string())));
    assert!(Direction::In.is_in() && !Direction::In.is_out());
    assert!(Direction::Out.is_out() && !Direction::Out.is_in());
}

#[test]
fn input_and_output_arguments_partition_the_list() {
    let action = scpd::Action::from_raw(raw_action(
        "SetVolume",
        Some(vec![
            raw_arg("InstanceID", "in", "A_ARG_TYPE_InstanceID"),
            raw_arg("Result", "out", "A_ARG_TYPE_Result"),
            raw_arg("DesiredVolume", "in", "Volume"),
        ]),
    ))
    .unwrap();
    let inputs: Vec<&str> = action.input_arguments().iter().map(|a| a.name().as_str()).collect();
    let outputs: Vec<&str> = action.output_arguments().iter().map(|a| a.name().as_str()).collect();
    assert_eq!(inputs, vec!["InstanceID", "DesiredVolume"]);
    assert_eq!(outputs, vec!["Result"]);
    assert_eq!(inputs.len() + outputs.len(), action.arguments().len());
    for a in action.input_arguments() {
        assert!(std::ptr::eq(a, &action.arguments()[0]) || std::ptr::eq(a, &action.arguments()[2]));
    }
}

#[test]
fn absent_argument_list_is_empty() {
    let action = scpd::Action::from_raw(raw_action("Stop", None)).unwrap();
    assert_eq!(action.name(), "Stop");
    assert!(action.arguments().is_empty());
    assert!(action.input_arguments().is_empty());
    assert!(action.output_arguments().is_empty());
    let (name, args) = action.destructure();
    assert_eq!(name, "Stop");
    assert!(args.is_empty());
}

#[test]
fn build_then_destructure_keeps_document_order() {
    let doc = build(
        vec![raw_var("Volume", "ui2"), raw_var("Mute", "boolean"), raw_var("A_ARG_TYPE_InstanceID", "ui4")],
        vec![raw_action("GetVolume", None), raw_action("SetMute", None), raw_action("GetMute", None)],
    )
    .unwrap();
    assert_eq!(doc.urn(), "urn:schemas-upnp-org:service:RenderingControl:1");
    assert_eq!(doc.state_variables().len(), 3);
    assert_eq!(doc.actions().len(), 3);
    let (urn, vars, actions) = doc.destructure();
    assert_eq!(urn, "urn:schemas-upnp-org:service:RenderingControl:1");
    let names: Vec<&str> = vars.iter().map(|v| v.name()).collect();
    assert_eq!(names, vec!["Volume", "Mute", "InstanceID"]);
    let names: Vec<&str> = actions.iter().map(|a| a.name().as_str()).collect();
    assert_eq!(names, vec!["GetVolume", "SetMute", "GetMute"]);
}

#[test]
fn empty_document_builds() {
    let doc = SCPD::from_raw(RawDocument { service_state_table: vec![], action_list: vec![] }).unwrap();
    assert_eq!(doc.urn(), "");
    assert!(doc.state_variables().is_empty());
    assert!(doc.actions().is_empty());
}

#[test]
fn set_urn_registers_the_description() {
    let mut doc = SCPD::from_raw(RawDocument { service_state_table: vec![raw_var("Volume", "ui2")], action_list: vec![] }).unwrap();
    doc.set_urn("urn:x".to_string());
    assert_eq!(doc.urn(), "urn:x");
    assert_eq!(doc.state_variables().len(), 1);
}

#[test]
fn bad_direction_fails_the_whole_document() {
    let r = build(
        vec![raw_var("Volume", "ui2")],
        vec![
            raw_action("GetVolume", Some(vec![raw_arg("CurrentVolume", "out", "Volume")])),
            raw_action("SetVolume", Some(vec![raw_arg("DesiredVolume", "sideways", "Volume")])),
        ],
    );
    assert_eq!(
        r.unwrap_err(),
        Error::ParseError(ParseError::InvalidDirection("sideways".to_string()))
    );
}

#[test]
fn first_failure_gives_the_error() {
    let r = build(
        vec![raw_var("Volume", "ui2"), raw_var("Gain", "real"), raw_var("Mute", "bool")],
        vec![raw_action("SetVolume", Some(vec![raw_arg("DesiredVolume", "sideways", "Volume")]))],
    );
    assert_eq!(r.unwrap_err(), Error::ParseError(ParseError::InvalidDataType("real".to_string())));
}

#[test]
fn get_volume_scenario() {
    let doc = build(
        vec![raw_var("Volume", "ui2"), raw_var("A_ARG_TYPE_InstanceID", "ui4")],
        vec![raw_action(
            "GetVolume",
            Some(vec![
                raw_arg("InstanceID", "in", "A_ARG_TYPE_InstanceID"),
                raw_arg("CurrentVolume", "out", "Volume"),
            ]),
        )],
    )
    .unwrap();
    let action = &doc.actions()[0];
    assert_eq!(action.name(), "GetVolume");
    let outputs = action.output_arguments();
    assert_eq!(outputs.len(), 1);
    assert_eq!(outputs[0].name(), "CurrentVolume");
    assert_eq!(*outputs[0].direction(), Direction::Out);
    let related = outputs[0].related_state_variable();
    let var = doc.state_variables().iter().find(|v| v.name() == related).unwrap();
    assert_eq!(var.data_type_str_output(), Ok("u16"));
}

#[test]
fn bool_constructors() {
    assert_eq!(Bool::yes(), Bool::Yes);
    assert_eq!(Bool::no(), Bool::No);
    assert_eq!(Bool::from_literal("no"), Ok(Bool::No));
}
