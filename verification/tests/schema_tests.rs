use dive_core::schema::{
    bool_to_string, convert_property, convert_schema, create_permission_schema, format_to_string,
    parse_bool, parse_format, parse_property, parse_schema, ElicitationSchema, PrimitiveSchema,
    SchemaError, SchemaProperty, StringFormat,
};

fn empty_wire(kind: &str) -> SchemaProperty {
    SchemaProperty {
        kind: kind.to_string(),
        title: None,
        description: None,
        min_length: None,
        max_length: None,
        format: None,
        minimum: None,
        maximum: None,
        default_value: None,
        enum_values: vec![],
        enum_names: vec![],
    }
}

#[test]
fn format_labels_round_trip() {
    for f in [StringFormat::Email, StringFormat::Uri, StringFormat::Date, StringFormat::DateTime] {
        let label = format_to_string(&f);
        assert_eq!(parse_format(&label), Some(f));
    }
    assert_eq!(format_to_string(&StringFormat::DateTime), "date-time");
    assert_eq!(parse_format("datetime"), None);
}

#[test]
fn bool_labels_round_trip() {
    assert_eq!(bool_to_string(true), "true");
    assert_eq!(bool_to_string(false), "false");
    assert_eq!(parse_bool("true"), Some(true));
    assert_eq!(parse_bool("false"), Some(false));
    assert_eq!(parse_bool("yes"), None);
}

#[test]
fn string_property_round_trips() {
    let p = PrimitiveSchema::Str {
        title: Some("Name".to_string()),
        description: Some("your name".to_string()),
        min_length: Some(1),
        max_length: Some(80),
        format: Some(StringFormat::Email),
    };
    let w = convert_property(&p);
    assert_eq!(w.kind, "string");
    assert_eq!(w.title.as_deref(), Some("Name"));
    assert_eq!(w.min_length, Some(1));
    assert_eq!(w.max_length, Some(80));
    assert_eq!(w.format.as_deref(), Some("email"));
    assert!(w.enum_values.is_empty());
    assert_eq!(parse_property(&w).unwrap(), p);
}

#[test]
fn number_property_round_trips() {
    let p = PrimitiveSchema::Number {
        title: None,
        description: Some("a rate".to_string()),
        minimum: Some(-5),
        maximum: Some(10),
    };
    let w = convert_property(&p);
    assert_eq!(w.kind, "number");
    assert_eq!(w.minimum, Some(-5));
    assert_eq!(w.maximum, Some(10));
    assert_eq!(parse_property(&w).unwrap(), p);
}

#[test]
fn integer_property_round_trips() {
    let p = PrimitiveSchema::Integer {
        title: Some("Count".to_string()),
        description: None,
        minimum: Some(0),
        maximum: Some(100),
    };
    let w = convert_property(&p);
    assert_eq!(w.kind, "integer");
    assert_eq!(parse_property(&w).unwrap(), p);
}

#[test]
fn boolean_property_round_trips() {
    let p = PrimitiveSchema::Boolean {
        title: None,
        description: None,
        default: Some(true),
    };
    let w = convert_property(&p);
    assert_eq!(w.kind, "boolean");
    assert_eq!(w.default_value.as_deref(), Some("true"));
    assert_eq!(parse_property(&w).unwrap(), p);
}

#[test]
fn choice_property_round_trips() {
    let p = PrimitiveSchema::Choice {
        title: Some("Pick".to_string()),
        description: None,
        enum_values: vec!["a".to_string(), "b".to_string()],
        enum_names: Some(vec!["First".to_string(), "Second".to_string()]),
    };
    let w = convert_property(&p);
    assert_eq!(w.kind, "string");
    assert_eq!(w.enum_values, vec!["a".to_string(), "b".to_string()]);
    assert_eq!(w.enum_names, vec!["First".to_string(), "Second".to_string()]);
    assert_eq!(parse_property(&w).unwrap(), p);
}

#[test]
fn choice_without_names_round_trips() {
    let p = PrimitiveSchema::Choice {
        title: None,
        description: None,
        enum_values: vec!["x".to_string()],
        enum_names: None,
    };
    let w = convert_property(&p);
    assert!(w.enum_names.is_empty());
    assert_eq!(parse_property(&w).unwrap(), p);
}

#[test]
fn length_bounds_round_trip_at_the_wire_maximum() {
    let p = PrimitiveSchema::Str {
        title: None,
        description: None,
        min_length: Some(0),
        max_length: Some(0x7fff_ffff),
        format: None,
    };
    let w = convert_property(&p);
    assert_eq!(w.max_length, Some(i32::MAX));
    assert_eq!(parse_property(&w).unwrap(), p);
}

#[test]
fn wire_choice_without_names_reads_back_as_absent_names() {
    // An empty display-name list on the wire reads back as an absent
    // one: the wire cannot tell the two apart.
    let mut w = empty_wire("string");
    w.enum_values = vec!["x".to_string()];
    match parse_property(&w).unwrap() {
        PrimitiveSchema::Choice { enum_names, .. } => assert_eq!(enum_names, None),
        other => panic!("expected a choice property, got {:?}", other),
    }
}

#[test]
fn unknown_kind_fails() {
    let w = empty_wire("object");
    assert_eq!(parse_property(&w), Err(SchemaError::UnsupportedKind));
}

#[test]
fn unknown_format_fails() {
    let mut w = empty_wire("string");
    w.format = Some("phone".to_string());
    assert_eq!(parse_property(&w), Err(SchemaError::UnknownFormat));
}

#[test]
fn negative_length_fails() {
    let mut w = empty_wire("string");
    w.min_length = Some(-1);
    assert_eq!(parse_property(&w), Err(SchemaError::InvalidLength));
    let mut w2 = empty_wire("string");
    w2.max_length = Some(-7);
    assert_eq!(parse_property(&w2), Err(SchemaError::InvalidLength));
}

#[test]
fn bad_boolean_default_fails() {
    let mut w = empty_wire("boolean");
    w.default_value = Some("maybe".to_string());
    assert_eq!(parse_property(&w), Err(SchemaError::InvalidDefault));
}

#[test]
fn schema_round_trips_through_the_wire() {
    let native = ElicitationSchema {
        properties: vec![
            (
                "name".to_string(),
                PrimitiveSchema::Str {
                    title: None,
                    description: None,
                    min_length: None,
                    max_length: Some(10),
                    format: None,
                },
            ),
            (
                "age".to_string(),
                PrimitiveSchema::Integer {
                    title: None,
                    description: None,
                    minimum: Some(0),
                    maximum: None,
                },
            ),
        ],
        required: Some(vec!["name".to_string()]),
    };
    let wire = convert_schema(&native);
    assert_eq!(wire.required, vec!["name".to_string()]);
    assert_eq!(wire.properties.len(), 2);
    let back = parse_schema(&wire).unwrap();
    assert_eq!(back, native);
}

#[test]
fn schema_without_required_crosses_as_empty_list() {
    let native = ElicitationSchema { properties: vec![], required: None };
    let wire = convert_schema(&native);
    assert!(wire.required.is_empty());
    let back = parse_schema(&wire).unwrap();
    assert_eq!(back.required, None);
}

#[test]
fn schema_with_a_bad_property_fails_with_its_error() {
    let mut bad = empty_wire("string");
    bad.format = Some("phone".to_string());
    let wire = dive_core::schema::RequestedSchema {
        properties: vec![("ok".to_string(), empty_wire("number")), ("bad".to_string(), bad)],
        required: vec![],
    };
    assert_eq!(parse_schema(&wire), Err(SchemaError::UnknownFormat));
}

#[test]
fn permission_schema_has_the_fixed_choice_field() {
    let schema = create_permission_schema();
    assert_eq!(schema.required, Some(vec!["choice".to_string()]));
    assert_eq!(schema.properties.len(), 1);
    let (name, prop) = &schema.properties[0];
    assert_eq!(name, "choice");
    match prop {
        PrimitiveSchema::Choice { description, enum_values, enum_names, .. } => {
            assert_eq!(description.as_deref(), Some("Select your permission choice"));
            assert_eq!(
                enum_values,
                &vec!["always".to_string(), "yes".to_string(), "no".to_string()]
            );
            assert_eq!(
                enum_names,
                &Some(vec![
                    "Always (remember this choice)".to_string(),
                    "Yes (allow this time)".to_string(),
                    "No (deny access)".to_string(),
                ])
            );
        }
        other => panic!("expected a choice property, got {:?}", other),
    }
}
