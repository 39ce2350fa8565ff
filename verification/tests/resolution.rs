use minecraft_server_protocol::schema::document::{PacketTypes, Schema};
use minecraft_server_protocol::schema::error::SchemaError;
use minecraft_server_protocol::schema::field_type::FieldType;
use minecraft_server_protocol::schema::packet::{
    walk_direction, Field, Packet, PacketDirection, PacketWalk,
};
use minecraft_server_protocol::schema::value::RawValue;

fn text(s: &str) -> RawValue {
    RawValue::String(s.to_owned())
}

fn object(entries: Vec<(&str, RawValue)>) -> RawValue {
    RawValue::Object(entries.into_iter().map(|(k, v)| (k.to_owned(), v)).collect())
}

fn tagged(tag: &str, payload: RawValue) -> RawValue {
    RawValue::Array(vec![text(tag), payload])
}

fn definition(name: &str, ty: RawValue) -> RawValue {
    object(vec![("name", text(name)), ("type", ty)])
}

fn mapper(entries: Vec<(&str, &str)>) -> RawValue {
    tagged(
        "mapper",
        object(vec![
            ("type", text("varint")),
            ("mappings", object(entries.into_iter().map(|(k, v)| (k, text(v))).collect())),
        ]),
    )
}

fn switch(entries: Vec<(&str, &str)>) -> RawValue {
    tagged(
        "switch",
        object(vec![
            ("compareTo", text("name")),
            ("fields", object(entries.into_iter().map(|(k, v)| (k, text(v))).collect())),
        ]),
    )
}

fn direction(defs: Vec<RawValue>, bodies: Vec<(&str, RawValue)>) -> Vec<(String, RawValue)> {
    let mut types = vec![("packet".to_owned(), tagged("container", RawValue::Array(defs)))];
    for (k, v) in bodies {
        types.push((k.to_owned(), v));
    }
    types
}

fn foo_body() -> RawValue {
    tagged("container", RawValue::Array(vec![definition("a", text("varint"))]))
}

#[test]
fn one_packet_is_resolved() {
    let types = direction(
        vec![
            definition("name", mapper(vec![("0x00", "foo")])),
            definition("params", switch(vec![("foo", "foo_body")])),
        ],
        vec![("foo_body", foo_body())],
    );
    let packets = PacketTypes(&types).per_packet(PacketDirection::Clientbound).unwrap();
    assert_eq!(
        packets,
        vec![Packet {
            id: 0,
            direction: PacketDirection::Clientbound,
            name: "foo".to_owned(),
            fields: vec![Field { name: "a".to_owned(), ty: FieldType::Varint }],
        }]
    );
}

#[test]
fn second_mapper_is_a_duplicate() {
    let types = direction(
        vec![
            definition("name", mapper(vec![("0x00", "foo")])),
            definition("name", mapper(vec![("0x01", "bar")])),
            definition("params", switch(vec![("foo", "foo_body")])),
        ],
        vec![("foo_body", foo_body())],
    );
    let err = PacketTypes(&types).per_packet(PacketDirection::Clientbound).unwrap_err();
    assert_eq!(err.0, SchemaError::Duplicate("mapper"));
}

#[test]
fn mapped_name_without_switch_key() {
    let types = direction(
        vec![
            definition("name", mapper(vec![("0x00", "foo")])),
            definition("params", switch(vec![("bar", "foo_body")])),
        ],
        vec![("foo_body", foo_body())],
    );
    let err = PacketTypes(&types).per_packet(PacketDirection::Serverbound).unwrap_err();
    assert_eq!(err.0, SchemaError::MissingSwitchKey("foo".to_owned(), "packet lookup"));
    assert_eq!(err.1.unwrap().0.as_str(), "mapping packet: \"foo\"");
}

#[test]
fn schema_walks_four_states_in_order() {
    let state = || {
        let dir = || {
            object(vec![(
                "types",
                RawValue::Object(direction(
                    vec![
                        definition("name", mapper(vec![("0x02", "b"), ("0x01", "a")])),
                        definition("params", switch(vec![("a", "body"), ("b", "body")])),
                    ],
                    vec![("body", foo_body())],
                )),
            )])
        };
        object(vec![("toClient", dir()), ("toServer", dir())])
    };
    let protocol = object(vec![
        ("types", object(vec![])),
        ("handshaking", state()),
        ("status", state()),
        ("login", state()),
        ("play", state()),
    ]);
    let version = object(vec![
        ("minecraftVersion", text("1.16.1")),
        ("version", RawValue::Number("736".to_owned())),
        ("majorVersion", text("1.16")),
    ]);
    let schema = Schema::new(protocol, &version).unwrap();
    assert_eq!(schema.version().version, 736);
    let states = schema.per_state();
    let names: Vec<&str> = states.iter().map(|s| s.0).collect();
    assert_eq!(names, vec!["handshaking", "status", "login", "play"]);
    let packets = states[3].1.per_packet().unwrap();
    let seen: Vec<(u8, PacketDirection, &str)> =
        packets.iter().map(|p| (p.id, p.direction, p.name.as_str())).collect();
    assert_eq!(
        seen,
        vec![
            (1, PacketDirection::Clientbound, "a"),
            (2, PacketDirection::Clientbound, "b"),
            (1, PacketDirection::Serverbound, "a"),
            (2, PacketDirection::Serverbound, "b"),
        ]
    );
}

use minecraft_server_protocol::schema::context::{ContextArg, ErrorContext};
use minecraft_server_protocol::schema::document::{ProtocolVersion, State};
use minecraft_server_protocol::schema::field_type::{ArrayCount, FieldSwitch, VoidableType};
use minecraft_server_protocol::schema::mapping::{parse_packet_id, VarintMappings};
use minecraft_server_protocol::schema::raw::{parse_unsigned, ArrayType};
use minecraft_server_protocol::schema::render::render;
use minecraft_server_protocol::schema::value::{extract, extract_specific, find_entry};

fn number(n: u64) -> RawValue {
    RawValue::Number(n.to_string())
}

fn from_json(value: &serde_json::Value) -> RawValue {
    match value {
        serde_json::Value::Null => RawValue::Null,
        serde_json::Value::Bool(b) => RawValue::Bool(*b),
        serde_json::Value::Number(n) => RawValue::Number(n.to_string()),
        serde_json::Value::String(s) => RawValue::String(s.clone()),
        serde_json::Value::Array(items) => RawValue::Array(items.iter().map(from_json).collect()),
        serde_json::Value::Object(entries) => {
            RawValue::Object(entries.iter().map(|(k, v)| (k.clone(), from_json(v))).collect())
        }
    }
}

fn parse(json: &str) -> RawValue {
    from_json(&serde_json::from_str::<serde_json::Value>(json).unwrap())
}

fn resolve(json: &str) -> Result<FieldType, SchemaError> {
    FieldType::try_from(&parse(json))
}

fn failure(types: &Vec<(String, RawValue)>) -> (SchemaError, Option<String>) {
    let err = PacketTypes(types).per_packet(PacketDirection::Clientbound).unwrap_err();
    (err.0, err.1.map(|c| *c.0))
}

#[test]
fn terminal_names() {
    let table = [
        ("varint", FieldType::Varint),
        ("u16", FieldType::U16),
        ("u8", FieldType::U8),
        ("i64", FieldType::I64),
        ("string", FieldType::String),
        ("i32", FieldType::I32),
        ("i8", FieldType::I8),
        ("bool", FieldType::Bool),
        ("i16", FieldType::I16),
        ("f32", FieldType::F32),
        ("f64", FieldType::F64),
        ("UUID", FieldType::Uuid),
        ("entityMetadata", FieldType::EntityMetadata),
        ("position", FieldType::Position),
        ("restBuffer", FieldType::RestOfBuffer),
        ("nbt", FieldType::Nbt),
        ("optionalNbt", FieldType::OptionalNbt),
        ("slot", FieldType::Slot),
        ("tags", FieldType::Tags),
        ("void", FieldType::Void),
        ("minecraft_smelting_format", FieldType::SmeltingRecipe),
        ("ingredient", FieldType::Ingredient),
    ];
    for (name, expected) in table {
        assert_eq!(FieldType::from_str(name), Ok(expected));
    }
    assert_eq!(
        FieldType::from_str("uuid"),
        Err(SchemaError::UnknownFieldType("uuid".to_owned()))
    );
    assert_eq!(FieldType::from_str(""), Err(SchemaError::UnknownFieldType(String::new())));
    assert_eq!(resolve("\"varint\""), Ok(FieldType::Varint));
    assert_eq!(
        resolve("\"varlong\""),
        Err(SchemaError::UnknownFieldType("varlong".to_owned()))
    );
}

#[test]
fn tagged_types() {
    assert_eq!(
        resolve(r#"["buffer", {"countType": "varint"}]"#),
        Ok(FieldType::Buffer { count_ty: Box::new(FieldType::Varint) })
    );
    assert_eq!(
        resolve(r#"["buffer", {"countType": "nope"}]"#),
        Err(SchemaError::UnknownFieldType("nope".to_owned()))
    );
    assert_eq!(resolve(r#"["buffer", {}]"#), Err(SchemaError::Deserializing("buffer")));
    assert_eq!(resolve(r#"["buffer", {"countType": 3}]"#), Err(SchemaError::Deserializing("buffer")));
    assert_eq!(
        resolve(r#"["option", "u8"]"#),
        Ok(FieldType::Option(Box::new(FieldType::U8)))
    );
    assert_eq!(
        resolve(r#"["option", ["option", "void"]]"#),
        Ok(FieldType::Option(Box::new(FieldType::Option(Box::new(FieldType::Void)))))
    );
    assert_eq!(resolve(r#"["particleData", {"compareTo": "x"}]"#), Ok(FieldType::ParticleData));
    assert_eq!(resolve(r#"["bitfield", []]"#), Ok(FieldType::Bitfield));
    assert_eq!(
        resolve(r#"["topBitSetTerminatedArray", null]"#),
        Ok(FieldType::TopBitSetTerminatedArray)
    );
    assert_eq!(
        resolve(r#"["mystery", 1]"#),
        Err(SchemaError::UnknownFieldType("mystery".to_owned()))
    );
}

#[test]
fn values_that_are_no_types() {
    assert_eq!(resolve("12"), Err(SchemaError::UnknownFieldType("Number(12)".to_owned())));
    assert_eq!(resolve("null"), Err(SchemaError::UnknownFieldType("Null".to_owned())));
    assert_eq!(resolve("true"), Err(SchemaError::UnknownFieldType("Bool(true)".to_owned())));
    assert_eq!(
        resolve(r#"["a", "b", "c"]"#),
        Err(SchemaError::UnknownFieldType(
            "Array [String(\"a\"), String(\"b\"), String(\"c\")]".to_owned()
        ))
    );
    assert_eq!(
        resolve(r#"[1, "b"]"#),
        Err(SchemaError::UnknownFieldType("Array [Number(1), String(\"b\")]".to_owned()))
    );
    assert_eq!(
        resolve(r#"{"type": "u8"}"#),
        Err(SchemaError::UnknownFieldType("Object {\"type\": String(\"u8\")}".to_owned()))
    );
    assert_eq!(resolve("[]"), Err(SchemaError::UnknownFieldType("Array []".to_owned())));
}

#[test]
fn arrays_count_in_one_of_three_ways() {
    assert_eq!(
        resolve(r#"["array", {"countType": "varint", "type": "u8"}]"#),
        Ok(FieldType::Array {
            count: ArrayCount::Prefixed(Box::new(FieldType::Varint)),
            elem_ty: Box::new(FieldType::U8),
        })
    );
    assert_eq!(
        resolve(r#"["array", {"count": 16, "type": "i64"}]"#),
        Ok(FieldType::Array {
            count: ArrayCount::Constant(16),
            elem_ty: Box::new(FieldType::I64),
        })
    );
    assert_eq!(
        resolve(r#"["array", {"count": "size", "type": ["option", "string"]}]"#),
        Ok(FieldType::Array {
            count: ArrayCount::Field("size".to_owned()),
            elem_ty: Box::new(FieldType::Option(Box::new(FieldType::String))),
        })
    );
    assert_eq!(
        resolve(r#"["array", {"count": null, "countType": "u8", "type": "u8"}]"#),
        Ok(FieldType::Array {
            count: ArrayCount::Prefixed(Box::new(FieldType::U8)),
            elem_ty: Box::new(FieldType::U8),
        })
    );
    let count = Err(SchemaError::Deserializing("array count"));
    assert_eq!(resolve(r#"["array", {"type": "u8"}]"#), count);
    assert_eq!(resolve(r#"["array", {"count": 2, "countType": "u8", "type": "u8"}]"#), count);
    assert_eq!(resolve(r#"["array", {"count": -2, "type": "u8"}]"#), count);
    assert_eq!(resolve(r#"["array", {"count": 1.5, "type": "u8"}]"#), count);
    assert_eq!(resolve(r#"["array", {"count": true, "type": "u8"}]"#), count);
    assert_eq!(resolve(r#"["array", {"count": [1], "type": "u8"}]"#), count);
    let shape = Err(SchemaError::Deserializing("array"));
    assert_eq!(resolve(r#"["array", {"count": 2}]"#), shape);
    assert_eq!(resolve(r#"["array", {"countType": 7, "type": "u8"}]"#), shape);
    assert_eq!(resolve(r#"["array", "u8"]"#), shape);
    assert_eq!(
        resolve(r#"["array", {"countType": "nope", "type": "alsonope"}]"#),
        Err(SchemaError::UnknownFieldType("nope".to_owned()))
    );
    assert_eq!(
        resolve(r#"["array", {"count": 1, "type": "alsonope"}]"#),
        Err(SchemaError::UnknownFieldType("alsonope".to_owned()))
    );
}

#[test]
fn switches_keep_void_apart_from_absent() {
    let resolved = resolve(
        r#"["switch", {"compareTo": "kind", "fields": {"0": "void", "1": "varint",
            "2": ["container", [{"name": "x", "type": "i8"}]]}, "default": "void"}]"#,
    );
    assert_eq!(
        resolved,
        Ok(FieldType::Switch(FieldSwitch {
            predicate_field: "kind".to_owned(),
            cases: vec![
                ("0".to_owned(), VoidableType::Void),
                ("1".to_owned(), VoidableType::Present(Box::new(FieldType::Varint))),
                (
                    "2".to_owned(),
                    VoidableType::Present(Box::new(FieldType::Container(vec![(
                        "x".to_owned(),
                        FieldType::I8
                    )])))
                ),
            ],
            default: Some(VoidableType::Void),
        }))
    );
    let resolved = resolve(r#"["switch", {"compareTo": "k", "fields": {}}]"#);
    assert_eq!(
        resolved,
        Ok(FieldType::Switch(FieldSwitch {
            predicate_field: "k".to_owned(),
            cases: vec![],
            default: None,
        }))
    );
    let resolved = resolve(r#"["switch", {"compareTo": "k", "fields": {}, "default": null}]"#);
    assert!(matches!(resolved, Ok(FieldType::Switch(FieldSwitch { default: None, .. }))));
    let resolved = resolve(r#"["switch", {"compareTo": "k", "fields": {}, "default": "u8"}]"#);
    assert!(matches!(
        resolved,
        Ok(FieldType::Switch(FieldSwitch { default: Some(VoidableType::Present(_)), .. }))
    ));
    assert_eq!(VoidableType::from(FieldType::Void), VoidableType::Void);
    assert_eq!(
        VoidableType::from(FieldType::U8),
        VoidableType::Present(Box::new(FieldType::U8))
    );

    let shape = Err(SchemaError::Deserializing("switch"));
    assert_eq!(resolve(r#"["switch", {"fields": {}}]"#), shape);
    assert_eq!(resolve(r#"["switch", {"compareTo": "k"}]"#), shape);
    assert_eq!(resolve(r#"["switch", {"compareTo": "k", "fields": []}]"#), shape);
    assert_eq!(resolve(r#"["switch", {"compareTo": 1, "fields": {}}]"#), shape);
    assert_eq!(
        resolve(r#"["switch", {"compareTo": "k", "fields": {"a": "bad1"}, "default": "bad0"}]"#),
        Err(SchemaError::UnknownFieldType("bad0".to_owned()))
    );
    assert_eq!(
        resolve(r#"["switch", {"compareTo": "k", "fields": {"a": "u8", "b": "bad1", "c": "bad2"}}]"#),
        Err(SchemaError::UnknownFieldType("bad1".to_owned()))
    );
}

#[test]
fn containers_keep_their_order() {
    let resolved = resolve(
        r#"["container", [{"name": "z", "type": "u8"}, {"name": "a", "type":
            ["array", {"countType": "varint", "type": ["switch", {"compareTo": "z",
            "fields": {"1": ["container", [{"name": "deep", "type": "string"}]]}}]}]}]]"#,
    );
    let deep = FieldType::Container(vec![("deep".to_owned(), FieldType::String)]);
    assert_eq!(
        resolved,
        Ok(FieldType::Container(vec![
            ("z".to_owned(), FieldType::U8),
            (
                "a".to_owned(),
                FieldType::Array {
                    count: ArrayCount::Prefixed(Box::new(FieldType::Varint)),
                    elem_ty: Box::new(FieldType::Switch(FieldSwitch {
                        predicate_field: "z".to_owned(),
                        cases: vec![("1".to_owned(), VoidableType::Present(Box::new(deep)))],
                        default: None,
                    })),
                }
            ),
        ]))
    );
    assert_eq!(resolve(r#"["container", []]"#), Ok(FieldType::Container(vec![])));
    assert_eq!(resolve(r#"["container", {}]"#), Err(SchemaError::BadStructure("container")));
    let field = Err(SchemaError::Deserializing("container field"));
    assert_eq!(resolve(r#"["container", [{"name": "a"}]]"#), field);
    assert_eq!(resolve(r#"["container", [{"name": 1, "type": "u8"}]]"#), field);
    assert_eq!(resolve(r#"["container", [{"type": "u8"}]]"#), field);
    assert_eq!(resolve(r#"["container", [{"anon": true, "type": "u8"}]]"#), field);
    assert_eq!(resolve(r#"["container", [{"name": "a", "anon": 1, "type": "u8"}]]"#), field);
    assert_eq!(resolve(r#"["container", ["u8"]]"#), field);
    assert_eq!(
        resolve(r#"["container", [{"type": "nope"}]]"#),
        Err(SchemaError::UnknownFieldType("nope".to_owned()))
    );
    assert_eq!(
        resolve(r#"["container", [{"name": "a", "type": "u8"}, {"name": "b", "type": "x"},
            {"name": "c"}]]"#),
        Err(SchemaError::UnknownFieldType("x".to_owned()))
    );
}

#[test]
fn deep_nesting_is_resolved() {
    let mut value = text("u8");
    let mut expected = FieldType::U8;
    for _ in 0..200 {
        value = tagged("option", value);
        expected = FieldType::Option(Box::new(expected));
    }
    assert_eq!(FieldType::try_from(&value), Ok(expected));
}

#[test]
fn values_are_shown_as_the_document_library_shows_them() {
    for json in [
        "null",
        "true",
        "false",
        "0",
        "18446744073709551615",
        "-12",
        "1.5",
        "1e300",
        "\"plain\"",
        "\"quote \\\" backslash \\\\ newline \\n tab \\t\"",
        "\"\\u00e9 \\u0001 \\ud83d\\ude00\"",
        "[]",
        "{}",
        "[1, [2, [3]], {\"a\": null}]",
        "{\"b\": [true], \"a\": {\"c\": \"d\"}, \"\": 0}",
    ] {
        let value: serde_json::Value = serde_json::from_str(json).unwrap();
        assert_eq!(render(&from_json(&value)), format!("{:?}", value));
    }
    assert_eq!(render(&RawValue::Null), "Null");
    assert_eq!(
        render(&parse(r#"{"name": "a", "type": ["option", "u8"]}"#)),
        "Object {\"name\": String(\"a\"), \"type\": Array [String(\"option\"), String(\"u8\")]}"
    );
}

#[test]
fn every_failure_of_a_direction() {
    let ok_mapper = || definition("name", mapper(vec![("0x00", "foo")]));
    let ok_switch = || definition("params", switch(vec![("foo", "foo_body")]));
    let bodies = || vec![("foo_body", foo_body())];

    let types = vec![("other".to_owned(), RawValue::Null)];
    assert_eq!(
        failure(&types),
        (SchemaError::MissingPacketKey, Some("finding packet map".to_owned()))
    );

    let types = vec![("packet".to_owned(), text("container"))];
    assert_eq!(
        failure(&types),
        (SchemaError::BadStructure("packet"), Some("finding packet map".to_owned()))
    );
    let types = vec![("packet".to_owned(), tagged("switch", RawValue::Array(vec![])))];
    assert_eq!(failure(&types).0, SchemaError::BadStructure("packet"));
    let types = vec![("packet".to_owned(), tagged("container", object(vec![])))];
    assert_eq!(failure(&types).0, SchemaError::BadStructure("packet"));

    let types = direction(vec![object(vec![("name", text("x"))])], bodies());
    assert_eq!(
        failure(&types),
        (
            SchemaError::Deserializing("packet definition"),
            Some("parsing packet definition: Object {\"name\": String(\"x\")}".to_owned())
        )
    );
    let types = direction(vec![definition("x", text("mapper"))], bodies());
    assert_eq!(
        failure(&types),
        (
            SchemaError::BadStructure("packet definition"),
            Some(
                "parsing packet definition: Object {\"name\": String(\"x\"), \"type\": \
                 String(\"mapper\")}"
                    .to_owned()
            )
        )
    );
    let types = direction(vec![definition("x", tagged("bitfield", RawValue::Null))], bodies());
    let (fault, during) = failure(&types);
    assert_eq!(fault, SchemaError::UnknownDefinition("bitfield".to_owned()));
    assert!(during.unwrap().starts_with("parsing packet definition: Object {"));

    let types = direction(vec![definition("x", tagged("switch", object(vec![])))], bodies());
    let (fault, during) = failure(&types);
    assert_eq!(fault, SchemaError::Deserializing("switch"));
    assert!(during.unwrap().starts_with("parsing packet switch: Object {\"name\": String(\"x\")"));
    let types = direction(vec![ok_switch(), ok_mapper(), ok_switch()], bodies());
    let (fault, during) = failure(&types);
    assert_eq!(fault, SchemaError::Duplicate("switch"));
    assert!(during.unwrap().starts_with("parsing packet switch: "));

    let types = direction(vec![definition("x", tagged("mapper", object(vec![])))], bodies());
    let (fault, during) = failure(&types);
    assert_eq!(fault, SchemaError::Deserializing("mapper"));
    assert!(during.unwrap().starts_with("parsing packet mapper: "));
    let u8_mapper = tagged(
        "mapper",
        object(vec![("type", text("u8")), ("mappings", object(vec![]))]),
    );
    let types = direction(vec![definition("x", u8_mapper)], bodies());
    assert_eq!(failure(&types).0, SchemaError::UnknownMapper("u8".to_owned()));
    let types = direction(vec![definition("x", mapper(vec![("zz", "foo")]))], bodies());
    assert_eq!(failure(&types).0, SchemaError::BadStructure("packet mappings"));
    let unnamed = tagged(
        "mapper",
        object(vec![("type", text("varint")), ("mappings", object(vec![("0x01", number(1))]))]),
    );
    let types = direction(vec![definition("x", unnamed)], bodies());
    assert_eq!(failure(&types).0, SchemaError::BadStructure("packet mappings"));
    let types = direction(vec![ok_switch(), ok_mapper(), ok_mapper()], bodies());
    let (fault, during) = failure(&types);
    assert_eq!(fault, SchemaError::Duplicate("mapper"));
    assert!(during.unwrap().starts_with("parsing packet mapper: "));
    let types = direction(vec![ok_mapper(), ok_switch()], bodies());
    assert!(PacketTypes(&types).per_packet(PacketDirection::Clientbound).is_ok());
    let types = direction(vec![ok_switch(), ok_mapper()], bodies());
    assert!(PacketTypes(&types).per_packet(PacketDirection::Clientbound).is_ok());

    let types = direction(vec![], bodies());
    assert_eq!(
        failure(&types),
        (SchemaError::BadPacketDefinition, Some("validating mapper and switch".to_owned()))
    );
    let types = direction(vec![ok_mapper()], bodies());
    let (fault, during) = failure(&types);
    assert_eq!(fault, SchemaError::BadPacketDefinition);
    assert!(during.unwrap().starts_with("validating mapper and switch: Object {"));
    let types = direction(vec![ok_switch()], bodies());
    assert_eq!(failure(&types).0, SchemaError::BadPacketDefinition);

    let not_text = tagged(
        "switch",
        object(vec![("compareTo", text("name")), ("fields", object(vec![("foo", number(1))]))]),
    );
    let types = direction(vec![ok_mapper(), definition("params", not_text)], bodies());
    assert_eq!(
        failure(&types),
        (
            SchemaError::MissingSwitchKey("foo".to_owned(), "packet lookup"),
            Some("mapping packet: \"foo\"".to_owned())
        )
    );
    let types = direction(vec![ok_mapper(), ok_switch()], vec![]);
    assert_eq!(
        failure(&types),
        (SchemaError::BadStructure("packet body"), Some("mapping packet: \"foo\"".to_owned()))
    );
    let types = direction(vec![ok_mapper(), ok_switch()], vec![("foo_body", text("varint"))]);
    assert_eq!(
        failure(&types),
        (SchemaError::BadStructure("container"), Some("mapping packet: \"foo\"".to_owned()))
    );
    let types = direction(
        vec![ok_mapper(), ok_switch()],
        vec![("foo_body", tagged("container", text("varint")))],
    );
    assert_eq!(failure(&types).0, SchemaError::BadStructure("container"));

    let types = direction(
        vec![definition("name", mapper(vec![("0x100", "foo")])), ok_switch()],
        bodies(),
    );
    assert_eq!(
        failure(&types),
        (SchemaError::InvalidPacketId(256), Some("mapping packet: \"foo\"".to_owned()))
    );
    let types = direction(
        vec![definition("name", mapper(vec![("0x-1", "foo")])), ok_switch()],
        bodies(),
    );
    assert_eq!(failure(&types).0, SchemaError::InvalidPacketId(-1));
    let types = direction(
        vec![definition("name", mapper(vec![("0xff", "foo")])), ok_switch()],
        bodies(),
    );
    let packets = PacketTypes(&types).per_packet(PacketDirection::Clientbound).unwrap();
    assert_eq!(packets[0].id, 255);

    let body = |field: RawValue| vec![("foo_body", tagged("container", RawValue::Array(vec![field])))];
    let types = direction(vec![ok_mapper(), ok_switch()], body(object(vec![("name", text("a"))])));
    assert_eq!(
        failure(&types),
        (
            SchemaError::Deserializing("field"),
            Some("parsing field: Object {\"name\": String(\"a\")}".to_owned())
        )
    );
    let types = direction(vec![ok_mapper(), ok_switch()], body(definition("a", text("nope"))));
    assert_eq!(
        failure(&types),
        (
            SchemaError::UnknownFieldType("nope".to_owned()),
            Some(
                "parsing field: Object {\"name\": String(\"a\"), \"type\": String(\"nope\")}"
                    .to_owned()
            )
        )
    );
    let types = direction(vec![ok_mapper(), ok_switch()], body(object(vec![("type", text("u8"))])));
    assert_eq!(failure(&types).0, SchemaError::Deserializing("field"));
    let anon = object(vec![("anon", RawValue::Bool(true)), ("type", text("u8"))]);
    let types = direction(vec![ok_mapper(), ok_switch()], body(anon));
    let packets = PacketTypes(&types).per_packet(PacketDirection::Clientbound).unwrap();
    assert_eq!(packets[0].fields, vec![Field { name: "anon".to_owned(), ty: FieldType::U8 }]);
    let not_anon = object(vec![("anon", RawValue::Bool(false)), ("type", text("u8"))]);
    let types = direction(vec![ok_mapper(), ok_switch()], body(not_anon));
    assert_eq!(failure(&types).0, SchemaError::Deserializing("field"));
}

#[test]
fn a_failure_ends_the_walk_of_a_state() {
    let good = direction(
        vec![
            definition("name", mapper(vec![("0x00", "foo")])),
            definition("params", switch(vec![("foo", "foo_body")])),
        ],
        vec![("foo_body", foo_body())],
    );
    let bad = direction(
        vec![
            definition("name", mapper(vec![("0x00", "foo"), ("0x01", "bar")])),
            definition("params", switch(vec![("foo", "foo_body")])),
        ],
        vec![("foo_body", foo_body())],
    );
    let state = |to_client: &Vec<(String, RawValue)>, to_server: &Vec<(String, RawValue)>| {
        let side = |types: &Vec<(String, RawValue)>| {
            RawValue::Object(vec![("types".to_owned(), RawValue::Object(
                types.iter().map(|(k, v)| (k.clone(), copy(v))).collect(),
            ))])
        };
        RawValue::Object(vec![
            ("toClient".to_owned(), side(to_client)),
            ("toServer".to_owned(), side(to_server)),
        ])
    };
    let walk = |value: &RawValue| {
        let state = minecraft_server_protocol::schema::document::ProtocolState::deserialize(value)
            .unwrap();
        State::new(state).per_packet().map(|p| p.len()).map_err(|e| (e.0, e.1.map(|c| *c.0)))
    };
    assert_eq!(walk(&state(&good, &good)), Ok(2));
    let expected = Err((
        SchemaError::MissingSwitchKey("bar".to_owned(), "packet lookup"),
        Some("mapping packet: \"bar\"".to_owned()),
    ));
    assert_eq!(walk(&state(&bad, &good)), expected);
    assert_eq!(walk(&state(&good, &bad)), expected);

    let value = state(&good, &bad);
    let decoded =
        minecraft_server_protocol::schema::document::ProtocolState::deserialize(&value).unwrap();
    let state = State::new(decoded);
    assert_eq!(state.per_clientbound().unwrap().len(), 1);
    assert!(state.per_serverbound().is_err());
}

fn copy(value: &RawValue) -> RawValue {
    match value {
        RawValue::Null => RawValue::Null,
        RawValue::Bool(b) => RawValue::Bool(*b),
        RawValue::Number(n) => RawValue::Number(n.clone()),
        RawValue::String(s) => RawValue::String(s.clone()),
        RawValue::Array(items) => RawValue::Array(items.iter().map(copy).collect()),
        RawValue::Object(entries) => {
            RawValue::Object(entries.iter().map(|(k, v)| (k.clone(), copy(v))).collect())
        }
    }
}

#[test]
fn a_description_in_the_slot_is_kept() {
    let types = vec![("other".to_owned(), RawValue::Null)];
    let mut context = ErrorContext::new();
    let failed = State::per_packet_with_direction(
        &PacketTypes(&types),
        PacketDirection::Clientbound,
        &mut context,
    );
    assert_eq!(failed, Err(SchemaError::MissingPacketKey));
    assert_eq!(context.0.as_deref(), Some("finding packet map"));

    let mut context = ErrorContext(Some("deeper".to_owned()));
    let _ = State::per_packet_with_direction(
        &PacketTypes(&types),
        PacketDirection::Clientbound,
        &mut context,
    );
    assert_eq!(*context.take().unwrap().0, "deeper");

    let good = direction(
        vec![
            definition("name", mapper(vec![("0x00", "foo")])),
            definition("params", switch(vec![("foo", "foo_body")])),
        ],
        vec![("foo_body", foo_body())],
    );
    let mut context = ErrorContext::new();
    let walked = State::per_packet_with_direction(
        &PacketTypes(&good),
        PacketDirection::Serverbound,
        &mut context,
    );
    assert_eq!(walked.unwrap().len(), 1);
    assert!(context.take().is_none());
}

#[test]
fn steps_and_their_descriptions() {
    let value = number(7);
    let mut context = ErrorContext::new();
    let step = context.current();
    step.defuse();
    assert!(context.0.is_none());

    let step = context.current();
    step.release(&mut context);
    assert!(context.0.is_none());

    let mut step = context.current();
    step.currently("looking");
    step.release(&mut context);
    assert_eq!(context.0.as_deref(), Some("looking"));

    let mut context = ErrorContext::new();
    let mut step = context.current();
    step.currently_with("reading", ContextArg::Value(&value));
    step.currently("checking");
    step.release(&mut context);
    assert_eq!(context.0.as_deref(), Some("checking: Number(7)"));

    let mut outer = context.current();
    outer.currently_with("outer", ContextArg::Name("n"));
    outer.release(&mut context);
    assert_eq!(context.0.as_deref(), Some("checking: Number(7)"));

    let mut context = ErrorContext::new();
    let mut step = context.current();
    step.currently_with("naming", ContextArg::Name("a \"b\"\n"));
    step.release(&mut context);
    assert_eq!(context.0.as_deref(), Some("naming: \"a \\\"b\\\"\\n\""));
}

#[test]
fn packet_ids_are_hexadecimal() {
    assert_eq!(parse_packet_id("0x00"), Some(0));
    assert_eq!(parse_packet_id("0x1f"), Some(31));
    assert_eq!(parse_packet_id("0X1f"), None);
    assert_eq!(parse_packet_id("1F"), Some(31));
    assert_eq!(parse_packet_id("0x0x10"), Some(16));
    assert_eq!(parse_packet_id("x10"), None);
    assert_eq!(parse_packet_id("0x"), None);
    assert_eq!(parse_packet_id(""), None);
    assert_eq!(parse_packet_id("+"), None);
    assert_eq!(parse_packet_id("-"), None);
    assert_eq!(parse_packet_id("+a"), Some(10));
    assert_eq!(parse_packet_id("-a"), Some(-10));
    assert_eq!(parse_packet_id("0x-a"), Some(-10));
    assert_eq!(parse_packet_id("-0xa"), None);
    assert_eq!(parse_packet_id("7fffffff"), Some(i32::MAX));
    assert_eq!(parse_packet_id("80000000"), None);
    assert_eq!(parse_packet_id("-80000000"), Some(i32::MIN));
    assert_eq!(parse_packet_id("-80000001"), None);
    assert_eq!(parse_packet_id("000000000000000000001"), Some(1));
    assert_eq!(parse_packet_id("fffffffffffffffffffff"), None);
    assert_eq!(parse_packet_id("1g"), None);
    assert_eq!(parse_packet_id(" 1"), None);
    assert_eq!(parse_packet_id("\u{661}"), None);
    for (text, radix) in [("0", 16), ("ff", 16), ("-1", 16), ("+7f", 16), ("zz", 16), ("--1", 16)] {
        assert_eq!(parse_packet_id(text), i32::from_str_radix(text, radix).ok());
    }
}

#[test]
fn mappings_come_out_by_ascending_id() {
    let entries: Vec<(String, RawValue)> = vec![
        ("0x10".to_owned(), text("sixteen")),
        ("0x02".to_owned(), text("two")),
        ("0x0a".to_owned(), text("ten")),
        ("0x2".to_owned(), text("two again")),
        ("0x00".to_owned(), text("zero")),
    ];
    let table = VarintMappings::from_values(&entries).unwrap();
    assert_eq!(
        table.0,
        vec![(0, "zero"), (2, "two again"), (10, "ten"), (16, "sixteen")]
    );
    let mut table = VarintMappings(vec![]);
    table.set(5, "five");
    table.set(-1, "minus");
    table.set(7, "seven");
    table.set(5, "cinq");
    assert_eq!(table.0, vec![(-1, "minus"), (5, "cinq"), (7, "seven")]);
    assert!(VarintMappings::from_values(&vec![("nine".to_owned(), text("x"))]).is_none());
    assert!(VarintMappings::from_values(&vec![("0x01".to_owned(), RawValue::Null)]).is_none());
    assert_eq!(VarintMappings::from_values(&vec![]), Some(VarintMappings(vec![])));
}

#[test]
fn packets_follow_the_ids_not_the_document() {
    let types = direction(
        vec![
            definition("params", switch(vec![("a", "body"), ("b", "body"), ("c", "body")])),
            definition("name", mapper(vec![("0x0b", "b"), ("0x0c", "c"), ("0x0a", "a")])),
        ],
        vec![("body", tagged("container", RawValue::Array(vec![])))],
    );
    let packets = PacketTypes(&types).per_packet(PacketDirection::Serverbound).unwrap();
    let seen: Vec<(u8, &str)> = packets.iter().map(|p| (p.id, p.name.as_str())).collect();
    assert_eq!(seen, vec![(10, "a"), (11, "b"), (12, "c")]);
    assert!(packets.iter().all(|p| p.direction == PacketDirection::Serverbound));
    assert!(packets.iter().all(|p| p.fields.is_empty()));
}

#[test]
fn tagged_pairs() {
    let pair = tagged("container", number(1));
    assert_eq!(extract(&pair), Some(("container", &number(1))));
    assert_eq!(extract_specific("container", &pair), Some(&number(1)));
    assert_eq!(extract_specific("switch", &pair), None);
    assert_eq!(extract(&RawValue::Array(vec![text("a")])), None);
    assert_eq!(extract(&RawValue::Array(vec![number(1), number(2)])), None);
    assert_eq!(extract(&RawValue::Array(vec![text("a"), text("b"), text("c")])), None);
    assert_eq!(extract(&text("container")), None);
    let entries = vec![
        ("a".to_owned(), number(1)),
        ("b".to_owned(), number(2)),
        ("a".to_owned(), number(3)),
    ];
    assert_eq!(find_entry(&entries, "a"), Some(&number(1)));
    assert_eq!(find_entry(&entries, "b"), Some(&number(2)));
    assert_eq!(find_entry(&entries, "c"), None);
    let whole = RawValue::Object(entries);
    assert_eq!(whole.get("b"), Some(&number(2)));
    assert_eq!(number(1).get("b"), None);
    assert_eq!(text("x").as_str(), Some("x"));
    assert_eq!(number(1).as_str(), None);
    assert!(whole.as_object().is_some());
    assert!(whole.as_array().is_none());
}

#[test]
fn plain_numbers() {
    assert_eq!(parse_unsigned("0"), Some(0));
    assert_eq!(parse_unsigned("007"), Some(7));
    assert_eq!(parse_unsigned("18446744073709551615"), Some(u64::MAX));
    assert_eq!(parse_unsigned("18446744073709551616"), None);
    assert_eq!(parse_unsigned("99999999999999999999999"), None);
    assert_eq!(parse_unsigned(""), None);
    assert_eq!(parse_unsigned("-1"), None);
    assert_eq!(parse_unsigned("1.0"), None);
    assert_eq!(parse_unsigned("1e3"), None);
    let payload = parse(r#"{"count": 3, "type": "u8"}"#);
    let array = ArrayType::deserialize(&payload).unwrap();
    assert!(matches!(
        array.count(),
        Some(minecraft_server_protocol::schema::raw::ArrayCount::Constant(3))
    ));
}

#[test]
fn documents_must_have_their_shape() {
    let version = || parse(r#"{"minecraftVersion": "1.12.2", "version": 340, "majorVersion": "1.12"}"#);
    let side = r#"{"types": {}}"#;
    let state = format!(r#"{{"toClient": {0}, "toServer": {0}}}"#, side);
    let whole = format!(
        r#"{{"types": {{}}, "handshaking": {0}, "status": {0}, "login": {0}, "play": {0}}}"#,
        state
    );
    let schema = Schema::new(parse(&whole), &version()).unwrap();
    assert_eq!(
        *schema.version(),
        ProtocolVersion {
            mc_version: "1.12.2".to_owned(),
            version: 340,
            major_version: "1.12".to_owned(),
        }
    );
    for (name, state) in schema.per_state() {
        let failed = state.per_packet().unwrap_err();
        assert_eq!(failed.0, SchemaError::MissingPacketKey, "{}", name);
    }

    let failed = |protocol: &str, version: &str| {
        Schema::new(parse(protocol), &parse(version)).err()
    };
    let v = r#"{"minecraftVersion": "1.12.2", "version": 340, "majorVersion": "1.12"}"#;
    assert_eq!(failed(&whole, v), None);
    assert_eq!(failed("{}", v), Some(SchemaError::Deserializing("protocol")));
    assert_eq!(failed("[]", v), Some(SchemaError::Deserializing("protocol")));
    let no_play = format!(r#"{{"types": {{}}, "handshaking": {0}, "status": {0}, "login": {0}}}"#, state);
    assert_eq!(failed(&no_play, v), Some(SchemaError::Deserializing("protocol")));
    let no_types = format!(r#"{{"handshaking": {0}, "status": {0}, "login": {0}, "play": {0}}}"#, state);
    assert_eq!(failed(&no_types, v), Some(SchemaError::Deserializing("protocol")));
    let half = r#"{"toClient": {"types": {}}}"#;
    let halved = format!(
        r#"{{"types": {{}}, "handshaking": {0}, "status": {1}, "login": {0}, "play": {0}}}"#,
        state, half
    );
    assert_eq!(failed(&halved, v), Some(SchemaError::Deserializing("protocol")));
    let bad = Some(SchemaError::Deserializing("version"));
    assert_eq!(failed(&whole, "{}"), bad);
    assert_eq!(failed("{}", "{}"), bad);
    assert_eq!(failed(&whole, r#"{"minecraftVersion": "1", "version": "340", "majorVersion": "1"}"#), bad);
    assert_eq!(failed(&whole, r#"{"minecraftVersion": "1", "version": -1, "majorVersion": "1"}"#), bad);
    assert_eq!(
        failed(&whole, r#"{"minecraftVersion": "1", "version": 4294967296, "majorVersion": "1"}"#),
        bad
    );
    assert_eq!(failed(&whole, r#"{"minecraftVersion": "1", "version": 4294967295, "majorVersion": "1"}"#), None);
    assert_eq!(failed(&whole, r#"{"version": 1, "majorVersion": "1"}"#), bad);
    assert_eq!(failed(&whole, r#"{"minecraftVersion": "1", "version": 1}"#), bad);
}

#[test]
fn a_walk_hands_out_one_packet_at_a_time() {
    let types = direction(
        vec![
            definition("name", mapper(vec![("0x02", "bar"), ("0x01", "foo"), ("0x03", "baz")])),
            definition("params", switch(vec![("foo", "foo_body"), ("baz", "foo_body")])),
        ],
        vec![("foo_body", foo_body())],
    );
    let mut context = ErrorContext::new();
    let mut step = context.current();
    step.currently_with("stale", ContextArg::Name("x"));
    let mut walk = PacketWalk::begin(&types, PacketDirection::Clientbound, &mut step).unwrap();
    let first = walk.next(&mut step).unwrap().unwrap();
    assert_eq!((first.id, first.name.as_str()), (1, "foo"));
    let second = walk.next(&mut step).unwrap();
    assert_eq!(
        second,
        Err(SchemaError::MissingSwitchKey("bar".to_owned(), "packet lookup"))
    );
    let third = walk.next(&mut step).unwrap().unwrap();
    assert_eq!((third.id, third.name.as_str()), (3, "baz"));
    assert_eq!(walk.next(&mut step), None);
    assert_eq!(walk.next(&mut step), None);
    step.release(&mut context);
    assert_eq!(context.0.as_deref(), Some("mapping packet: \"baz\""));

    let mut step = context.current();
    step.currently_with("stale", ContextArg::Name("x"));
    let empty = direction(vec![], vec![]);
    let failed = PacketWalk::begin(&empty, PacketDirection::Clientbound, &mut step);
    assert!(matches!(failed, Err(SchemaError::BadPacketDefinition)));
    let mut context = ErrorContext::new();
    step.release(&mut context);
    assert_eq!(context.0.as_deref(), Some("validating mapper and switch"));

    let mut step = context.current();
    let all = walk_direction(&types, PacketDirection::Clientbound, &mut step);
    assert_eq!(all, Err(SchemaError::MissingSwitchKey("bar".to_owned(), "packet lookup")));
}

#[test]
fn fields_are_resolved_before_the_id_is_checked() {
    let body = tagged("container", RawValue::Array(vec![definition("a", text("nope"))]));
    let types = direction(
        vec![
            definition("name", mapper(vec![("0x100", "foo")])),
            definition("params", switch(vec![("foo", "foo_body")])),
        ],
        vec![("foo_body", body)],
    );
    assert_eq!(failure(&types).0, SchemaError::UnknownFieldType("nope".to_owned()));
    let types = direction(
        vec![
            definition("name", mapper(vec![("0x100", "foo")])),
            definition("params", switch(vec![("foo", "foo_body")])),
        ],
        vec![("foo_body", foo_body())],
    );
    assert_eq!(
        failure(&types),
        (SchemaError::InvalidPacketId(256), Some("mapping packet: \"foo\"".to_owned()))
    );
}
