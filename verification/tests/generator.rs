use minecraft_server_protocol::generator::{field_type, DeleteDirBomb, ModuleGenerator};
use minecraft_server_protocol::schema::field_type::FieldType;

#[test]
fn codec_types_of_field_types() {
    assert_eq!(field_type(&FieldType::Varint), Some("VarIntField"));
    assert_eq!(field_type(&FieldType::U16), Some("UShortField"));
    assert_eq!(field_type(&FieldType::U8), Some("UByteField"));
    assert_eq!(field_type(&FieldType::I64), Some("LongField"));
    assert_eq!(field_type(&FieldType::I32), Some("IntField"));
    assert_eq!(field_type(&FieldType::I8), Some("ByteField"));
    assert_eq!(field_type(&FieldType::I16), Some("ShortField"));
    assert_eq!(field_type(&FieldType::F32), Some("FloatField"));
    assert_eq!(field_type(&FieldType::F64), Some("DoubleField"));
    assert_eq!(field_type(&FieldType::Bool), Some("BoolField"));
    assert_eq!(field_type(&FieldType::String), Some("StringField"));
    assert_eq!(field_type(&FieldType::RestOfBuffer), Some("RestOfPacketByteArrayField"));
    assert_eq!(
        field_type(&FieldType::Buffer { count_ty: Box::new(FieldType::Varint) }),
        Some("VarIntThenByteArrayField")
    );
    assert_eq!(field_type(&FieldType::Buffer { count_ty: Box::new(FieldType::U8) }), None);
    assert_eq!(field_type(&FieldType::Position), None);
    assert_eq!(field_type(&FieldType::Uuid), None);
    assert_eq!(field_type(&FieldType::Option(Box::new(FieldType::Varint))), None);
    assert_eq!(field_type(&FieldType::Void), None);
}

#[test]
fn a_defused_bomb_removes_nothing() {
    let mut bomb = DeleteDirBomb::new("/tmp/packetgen".to_owned());
    bomb.defuse();
    assert_eq!(bomb.finish(), None);
    let bomb = DeleteDirBomb::new("/tmp/packetgen".to_owned());
    assert_eq!(bomb.finish(), Some("/tmp/packetgen".to_owned()));
}

#[test]
fn the_generator_keeps_its_directory() {
    assert_eq!(ModuleGenerator::new("out/v1_12_2".to_owned()).module_dir(), "out/v1_12_2");
}

use minecraft_server_protocol::generator::StateGenerator;
use minecraft_server_protocol::schema::field_type::{ArrayCount, FieldSwitch, VoidableType};
use minecraft_server_protocol::schema::packet::{Field, Packet, PacketDirection};

fn samples() -> Vec<FieldType> {
    vec![
        FieldType::Varint,
        FieldType::TopBitSetTerminatedArray,
        FieldType::Buffer { count_ty: Box::new(FieldType::I16) },
        FieldType::Option(Box::new(FieldType::Uuid)),
        FieldType::Container(vec![]),
        FieldType::Container(vec![
            ("a".to_owned(), FieldType::U8),
            ("b \"c\"".to_owned(), FieldType::Option(Box::new(FieldType::Nbt))),
            ("d".to_owned(), FieldType::Container(vec![("e".to_owned(), FieldType::Void)])),
        ]),
        FieldType::Array {
            count: ArrayCount::Prefixed(Box::new(FieldType::Varint)),
            elem_ty: Box::new(FieldType::Slot),
        },
        FieldType::Array { count: ArrayCount::Constant(0), elem_ty: Box::new(FieldType::U8) },
        FieldType::Array {
            count: ArrayCount::Constant(1234567890),
            elem_ty: Box::new(FieldType::U8),
        },
        FieldType::Array {
            count: ArrayCount::Field("n".to_owned()),
            elem_ty: Box::new(FieldType::Array {
                count: ArrayCount::Constant(3),
                elem_ty: Box::new(FieldType::F32),
            }),
        },
        FieldType::Switch(FieldSwitch {
            predicate_field: "kind".to_owned(),
            cases: vec![],
            default: None,
        }),
        FieldType::Switch(FieldSwitch {
            predicate_field: "kind".to_owned(),
            cases: vec![
                ("0".to_owned(), VoidableType::Void),
                ("1".to_owned(), VoidableType::Present(Box::new(FieldType::Position))),
                (
                    "2".to_owned(),
                    VoidableType::Present(Box::new(FieldType::Switch(FieldSwitch {
                        predicate_field: "x".to_owned(),
                        cases: vec![("y".to_owned(), VoidableType::Void)],
                        default: Some(VoidableType::Present(Box::new(FieldType::Tags))),
                    }))),
                ),
            ],
            default: Some(VoidableType::Void),
        }),
    ]
}

#[test]
fn field_types_are_shown_as_their_derived_text() {
    for ty in samples() {
        assert_eq!(ty.debug_text(), format!("{:?}", ty));
    }
    assert_eq!(
        samples()[6].debug_text(),
        "Array { count: Prefixed(Varint), elem_ty: Slot }"
    );
    assert_eq!(VoidableType::Void.debug_text(), "Void");
    assert_eq!(ArrayCount::Constant(usize::MAX).debug_text(), format!("Constant({})", usize::MAX));
}

#[test]
fn field_types_have_short_names() {
    assert_eq!(FieldType::Varint.name(), "Varint");
    assert_eq!(FieldType::Buffer { count_ty: Box::new(FieldType::Varint) }.name(), "Buffer");
    assert_eq!(samples()[9].name(), "Array<Array<F32>>");
    assert_eq!(samples()[10].name(), "Switch");
    assert_eq!(samples()[3].name(), "Option");
    assert_eq!(samples()[4].name(), "Container");
    assert_eq!(FieldType::SmeltingRecipe.name(), "SmeltingRecipe");
}

#[test]
fn modules_are_put_together_as_text() {
    let mut generator = ModuleGenerator::new("out".to_owned());
    assert_eq!(generator.mod_rs(), "");
    let mut play = generator.emit_state("Play");
    let login = generator.emit_state("login");
    assert_eq!(generator.mod_rs(), "mod Play;\npub use Play::*;\nmod login;\npub use login::*;\n");
    assert_eq!(play.file_name(), "play.rs");
    assert_eq!(login.file_name(), "login.rs");
    assert_eq!(login.text(), "");
    assert_eq!(StateGenerator::new("STATUS").file_name(), "status.rs");

    play.emit_packet(&Packet {
        id: 0x0b,
        direction: PacketDirection::Serverbound,
        name: "keep_alive".to_owned(),
        fields: vec![Field { name: "keepAliveId".to_owned(), ty: FieldType::I64 }],
    });
    assert_eq!(
        play.text(),
        "#[derive(ServerBoundPacket)]\n#[packet_id = 0x0b]\npub struct KeepAlive {\n\
         \tpub keep_alive_id: LongField,\n}\n\n"
    );
    play.emit_packet(&Packet {
        id: 0xf0,
        direction: PacketDirection::Clientbound,
        name: "statistics".to_owned(),
        fields: vec![
            Field {
                name: "entries".to_owned(),
                ty: FieldType::Array {
                    count: ArrayCount::Prefixed(Box::new(FieldType::Varint)),
                    elem_ty: Box::new(FieldType::Varint),
                },
            },
            Field {
                name: "data".to_owned(),
                ty: FieldType::Buffer { count_ty: Box::new(FieldType::Varint) },
            },
        ],
    });
    assert!(play.text().ends_with(
        "#[derive(ClientBoundPacket)]\n#[packet_id = 0xf0]\npub struct Statistics {\n\
         \t// TODO pub entries: Array { count: Prefixed(Varint), elem_ty: Varint },\n\
         \tpub data: VarIntThenByteArrayField,\n}\n\n"
    ));
    let mut empty = StateGenerator::new("x");
    empty.emit_packet(&Packet {
        id: 0,
        direction: PacketDirection::Clientbound,
        name: "ping_start".to_owned(),
        fields: vec![],
    });
    assert_eq!(
        empty.text(),
        "#[derive(ClientBoundPacket)]\n#[packet_id = 0x00]\npub struct PingStart {\n}\n\n"
    );
}

use minecraft_server_protocol::generator::{covered_field, declare, file_of, marked_field};
use minecraft_server_protocol::schema::describe::{pair, switch_shown};

#[test]
fn the_parts_of_a_declaration() {
    assert_eq!(covered_field("entity_id", "VarIntField"), "\tpub entity_id: VarIntField,\n");
    assert_eq!(marked_field("uuid", "Uuid"), "\t// TODO pub uuid: Uuid,\n");
    assert_eq!(
        declare(PacketDirection::Clientbound, 0x2a, "OpenSignEntity", "\tpub a: B,\n"),
        "#[derive(ClientBoundPacket)]\n#[packet_id = 0x2a]\npub struct OpenSignEntity {\n\
         \tpub a: B,\n}\n\n"
    );
    assert_eq!(
        declare(PacketDirection::Serverbound, 0, "", ""),
        "#[derive(ServerBoundPacket)]\n#[packet_id = 0x00]\npub struct  {\n}\n\n"
    );
    assert_eq!(file_of("play"), "play.rs");
    assert_eq!(pair("\"a\"", "Varint"), "(\"a\", Varint)");
    assert_eq!(
        switch_shown("\"k\"", "(\"a\", Void)", "None"),
        "FieldSwitch { predicate_field: \"k\", cases: [(\"a\", Void)], default: None }"
    );
}

use minecraft_server_protocol::schema::value::RawValue;
use minecraft_server_protocol::Schema;

fn from_json(value: &serde_json::Value) -> RawValue {
    match value {
        serde_json::Value::Null => RawValue::Null,
        serde_json::Value::Bool(b) => RawValue::Bool(*b),
        serde_json::Value::Number(n) => RawValue::Number(n.to_string()),
        serde_json::Value::String(s) => RawValue::String(s.clone()),
        serde_json::Value::Array(items) => RawValue::Array(items.iter().map(from_json).collect()),
        serde_json::Value::Object(entries) => {
            RawValue::Object(entries.iter().map(|(k, v)| (k.clone(), from_json(v))).collect())
        }
    }
}

const PROTOCOL: &str = r#"{
    "types": {"varint": "native"},
    "handshaking": {
        "toClient": {"types": {"packet": ["container", [
            {"name": "name", "type": ["mapper", {"type": "varint", "mappings": {}}]},
            {"name": "params", "type": ["switch", {"compareTo": "name", "fields": {}}]}
        ]]}},
        "toServer": {"types": {
            "packet_set_protocol": ["container", [
                {"name": "protocolVersion", "type": "varint"},
                {"name": "serverHost", "type": "string"},
                {"name": "serverPort", "type": "u16"},
                {"name": "nextState", "type": "varint"}
            ]],
            "packet": ["container", [
                {"name": "name", "type": ["mapper", {"type": "varint", "mappings": {
                    "0x00": "set_protocol"
                }}]},
                {"name": "params", "type": ["switch", {"compareTo": "name", "fields": {
                    "set_protocol": "packet_set_protocol"
                }}]}
            ]]
        }}
    },
    "status": {
        "toClient": {"types": {
            "packet_server_info": ["container", [{"name": "response", "type": "string"}]],
            "packet_ping": ["container", [{"name": "time", "type": "i64"}]],
            "packet": ["container", [
                {"name": "name", "type": ["mapper", {"type": "varint", "mappings": {
                    "0x01": "ping", "0x00": "server_info"
                }}]},
                {"name": "params", "type": ["switch", {"compareTo": "name", "fields": {
                    "server_info": "packet_server_info", "ping": "packet_ping"
                }}]}
            ]]
        }},
        "toServer": {"types": {
            "packet_ping_start": ["container", []],
            "packet_ping": ["container", [{"name": "time", "type": "i64"}]],
            "packet": ["container", [
                {"name": "name", "type": ["mapper", {"type": "varint", "mappings": {
                    "0x00": "ping_start", "0x01": "ping"
                }}]},
                {"name": "params", "type": ["switch", {"compareTo": "name", "fields": {
                    "ping_start": "packet_ping_start", "ping": "packet_ping"
                }}]}
            ]]
        }}
    },
    "login": {
        "toClient": {"types": {
            "packet_encryption_begin": ["container", [
                {"name": "serverId", "type": "string"},
                {"name": "publicKey", "type": ["buffer", {"countType": "varint"}]},
                {"name": "verifyToken", "type": ["buffer", {"countType": "varint"}]}
            ]],
            "packet": ["container", [
                {"name": "name", "type": ["mapper", {"type": "varint", "mappings": {
                    "0x01": "encryption_begin"
                }}]},
                {"name": "params", "type": ["switch", {"compareTo": "name", "fields": {
                    "encryption_begin": "packet_encryption_begin"
                }}]}
            ]]
        }},
        "toServer": {"types": {"packet": ["container", [
            {"name": "name", "type": ["mapper", {"type": "varint", "mappings": {}}]},
            {"name": "params", "type": ["switch", {"compareTo": "name", "fields": {}}]}
        ]]}}
    },
    "play": {
        "toClient": {"types": {
            "packet_statistics": ["container", [
                {"name": "entries", "type": ["array", {"countType": "varint", "type":
                    ["container", [
                        {"name": "name", "type": "string"},
                        {"name": "value", "type": "varint"}
                    ]]
                }]}
            ]],
            "packet": ["container", [
                {"name": "name", "type": ["mapper", {"type": "varint", "mappings": {
                    "0x07": "statistics"
                }}]},
                {"name": "params", "type": ["switch", {"compareTo": "name", "fields": {
                    "statistics": "packet_statistics"
                }}]}
            ]]
        }},
        "toServer": {"types": {"packet": ["container", [
            {"name": "name", "type": ["mapper", {"type": "varint", "mappings": {}}]},
            {"name": "params", "type": ["switch", {"compareTo": "name", "fields": {}}]}
        ]]}}
    }
}"#;

#[test]
fn test_json() {
    let protocol: serde_json::Value = serde_json::from_str(PROTOCOL).expect("failed");
    let version: serde_json::Value = serde_json::from_str(
        r#"{"minecraftVersion": "1.12.2", "version": 340, "majorVersion": "1.12"}"#,
    )
    .expect("failed");
    let schema = Schema::new(from_json(&protocol), &from_json(&version)).expect("failed");
    let mut generator = ModuleGenerator::new("/tmp/packetgen".to_owned());
    let mut modules = Vec::new();
    for (name, state) in schema.per_state() {
        let mut state_gen = generator.emit_state(name);
        for packet in state.per_packet().unwrap() {
            state_gen.emit_packet(&packet);
        }
        modules.push((state_gen.file_name().to_owned(), state_gen.text().to_owned()));
    }
    assert_eq!(
        generator.mod_rs(),
        "mod handshaking;\npub use handshaking::*;\nmod status;\npub use status::*;\n\
         mod login;\npub use login::*;\nmod play;\npub use play::*;\n"
    );
    let names: Vec<&str> = modules.iter().map(|m| m.0.as_str()).collect();
    assert_eq!(names, vec!["handshaking.rs", "status.rs", "login.rs", "play.rs"]);
    assert_eq!(
        modules[0].1,
        "#[derive(ServerBoundPacket)]\n#[packet_id = 0x00]\npub struct SetProtocol {\n\
         \tpub protocol_version: VarIntField,\n\tpub server_host: StringField,\n\
         \tpub server_port: UShortField,\n\tpub next_state: VarIntField,\n}\n\n"
    );
    assert_eq!(
        modules[1].1,
        "#[derive(ClientBoundPacket)]\n#[packet_id = 0x00]\npub struct ServerInfo {\n\
         \tpub response: StringField,\n}\n\n\
         #[derive(ClientBoundPacket)]\n#[packet_id = 0x01]\npub struct Ping {\n\
         \tpub time: LongField,\n}\n\n\
         #[derive(ServerBoundPacket)]\n#[packet_id = 0x00]\npub struct PingStart {\n}\n\n\
         #[derive(ServerBoundPacket)]\n#[packet_id = 0x01]\npub struct Ping {\n\
         \tpub time: LongField,\n}\n\n"
    );
    assert_eq!(
        modules[2].1,
        "#[derive(ClientBoundPacket)]\n#[packet_id = 0x01]\npub struct EncryptionBegin {\n\
         \tpub server_id: StringField,\n\tpub public_key: VarIntThenByteArrayField,\n\
         \tpub verify_token: VarIntThenByteArrayField,\n}\n\n"
    );
    assert_eq!(
        modules[3].1,
        "#[derive(ClientBoundPacket)]\n#[packet_id = 0x07]\npub struct Statistics {\n\
         \t// TODO pub entries: Array { count: Prefixed(Varint), elem_ty: \
         Container([(\"name\", String), (\"value\", Varint)]) },\n}\n\n"
    );
}
