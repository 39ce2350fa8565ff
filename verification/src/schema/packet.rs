//! Resolved packets, and the walk over one direction of a protocol state
//! that produces them.

use vstd::prelude::*;
use crate::schema::context::{ContextArg, CurrentErrorContext, describe};
use crate::schema::error::{SchemaError, SchemaFault};
use crate::schema::field_type::{FieldType, TypeModel};
use crate::schema::mapping::{VarintMappings, ascending, lemma_mappings_ascending, mappings_of};
use crate::schema::raw;
use crate::schema::raw::{
    Mapper, PacketDefinition, Switch, definition_shape, field_anon, field_shape, mapper_shape,
    switch_shape,
};
use crate::schema::render::{debug_text, quoted};
use crate::schema::resolve::resolve;
use crate::schema::value::{
    Json, RawValue, entries_view, extract, extract_specific, find_entry, items_view, lookup,
    tagged, tagged_as,
};
use crate::text::str_eq;

verus! {

/// Which way a packet travels.
#[derive(Debug, Copy, Clone, Eq, PartialEq)]
pub enum PacketDirection {
    Clientbound,
    Serverbound,
}

/// One named field of a packet.
#[derive(Debug, PartialEq, Eq)]
pub struct Field {
    pub name: String,
    pub ty: FieldType,
}

/// A packet with its fields resolved, in the order they go on the wire.
#[derive(Debug, PartialEq, Eq)]
pub struct Packet {
    pub id: u8,
    pub direction: PacketDirection,
    /// Snake case
    pub name: String,
    pub fields: Vec<Field>,
}

/// Model of a [`Packet`].
pub struct PacketModel {
    pub id: int,
    pub direction: PacketDirection,
    pub name: Seq<char>,
    pub fields: Seq<(Seq<char>, TypeModel)>,
}

impl View for Field {
    type V = (Seq<char>, TypeModel);

    open spec fn view(&self) -> (Seq<char>, TypeModel) {
        (self.name@, self.ty@)
    }
}

/// The models of a list of fields, in order.
pub open spec fn field_models(fields: Seq<Field>) -> Seq<(Seq<char>, TypeModel)> {
    Seq::new(fields.len(), |i: int| fields[i]@)
}

impl View for Packet {
    type V = PacketModel;

    open spec fn view(&self) -> PacketModel {
        PacketModel {
            id: self.id as int,
            direction: self.direction,
            name: self.name@,
            fields: field_models(self.fields@),
        }
    }
}

/// The models of a list of packets, in order.
pub open spec fn packet_models(packets: Seq<Packet>) -> Seq<PacketModel> {
    Seq::new(packets.len(), |i: int| packets[i]@)
}

/// An error of resolution and the description of the step in which it arose.
pub struct Failure {
    pub fault: SchemaFault,
    pub during: Seq<char>,
}

/// The failure of a step that works on a document value.
pub open spec fn failed_on(fault: SchemaFault, wat: Seq<char>, value: Json) -> Failure {
    Failure { fault, during: describe(wat, Some(debug_text(value))) }
}

/// What the definitions seen so far have given.
pub struct Scan {
    pub switch: Option<Seq<(Seq<char>, Json)>>,
    pub mapper: Option<Seq<(int, Seq<char>)>>,
}

/// The two tables that a direction's "packet" entry must define.
pub struct Table {
    /// From packet name to the key of its body in the type namespace.
    pub fields: Seq<(Seq<char>, Json)>,
    /// From packet id to packet name, by ascending id.
    pub mappings: Seq<(int, Seq<char>)>,
}

/// The members of a `["container", [...]]` value.
pub open spec fn container_members(value: Json) -> Option<Seq<Json>> {
    match tagged_as("container"@, value) {
        Some(payload) => payload.as_array(),
        None => None,
    }
}

/// Takes one definition into account: a "switch" or a "mapper", each of
/// which may come once.
pub open spec fn scan_step(seen: Scan, def: Json) -> Result<Scan, Failure> {
    if !definition_shape(def) {
        Err(
            failed_on(
                SchemaFault::Deserializing("packet definition"@),
                "parsing packet definition"@,
                def,
            ),
        )
    } else {
        match tagged(def.get("type"@)->0) {
            None => Err(
                failed_on(
                    SchemaFault::BadStructure("packet definition"@),
                    "parsing packet definition"@,
                    def,
                ),
            ),
            Some((kind, payload)) => {
                if kind == "switch"@ {
                    if !switch_shape(payload) {
                        Err(
                            failed_on(
                                SchemaFault::Deserializing("switch"@),
                                "parsing packet switch"@,
                                def,
                            ),
                        )
                    } else if seen.switch is Some {
                        Err(
                            failed_on(
                                SchemaFault::Duplicate("switch"@),
                                "parsing packet switch"@,
                                def,
                            ),
                        )
                    } else {
                        Ok(Scan { switch: payload.object_at("fields"@), mapper: seen.mapper })
                    }
                } else if kind == "mapper"@ {
                    if !mapper_shape(payload) {
                        Err(
                            failed_on(
                                SchemaFault::Deserializing("mapper"@),
                                "parsing packet mapper"@,
                                def,
                            ),
                        )
                    } else if payload.str_at("type"@)->0 != "varint"@ {
                        Err(
                            failed_on(
                                SchemaFault::UnknownMapper(payload.str_at("type"@)->0),
                                "parsing packet mapper"@,
                                def,
                            ),
                        )
                    } else {
                        let entries = payload.object_at("mappings"@)->0;
                        match mappings_of(entries, entries.len()) {
                            None => Err(
                                failed_on(
                                    SchemaFault::BadStructure("packet mappings"@),
                                    "parsing packet mapper"@,
                                    def,
                                ),
                            ),
                            Some(mappings) => if seen.mapper is Some {
                                Err(
                                    failed_on(
                                        SchemaFault::Duplicate("mapper"@),
                                        "parsing packet mapper"@,
                                        def,
                                    ),
                                )
                            } else {
                                Ok(Scan { switch: seen.switch, mapper: Some(mappings) })
                            },
                        }
                    }
                } else {
                    Err(
                        failed_on(
                            SchemaFault::UnknownDefinition(kind),
                            "parsing packet definition"@,
                            def,
                        ),
                    )
                }
            },
        }
    }
}

/// What the first `n` definitions give; the first failure wins.
pub open spec fn scan(defs: Seq<Json>, n: nat) -> Result<Scan, Failure>
    decreases n,
{
    if n == 0 || n > defs.len() {
        Ok(Scan { switch: None, mapper: None })
    } else {
        match scan(defs, (n - 1) as nat) {
            Err(f) => Err(f),
            Ok(seen) => scan_step(seen, defs[n - 1]),
        }
    }
}

/// The tables that the definitions give together: exactly one switch and
/// exactly one mapper.
pub open spec fn packet_table(defs: Seq<Json>) -> Result<Table, Failure> {
    match scan(defs, defs.len()) {
        Err(f) => Err(f),
        Ok(seen) => match (seen.switch, seen.mapper) {
            (Some(fields), Some(mappings)) => Ok(Table { fields, mappings }),
            _ => Err(
                Failure {
                    fault: SchemaFault::BadPacketDefinition,
                    during: describe(
                        "validating mapper and switch"@,
                        if defs.len() > 0 {
                            Some(debug_text(defs.last()))
                        } else {
                            None
                        },
                    ),
                },
            ),
        },
    }
}

/// One field of a packet body: its type is resolved, then its name is
/// taken; a member without a name is called "anon" if it is marked so.
pub open spec fn packet_field(member: Json) -> Result<(Seq<char>, TypeModel), Failure> {
    if !field_shape(member) {
        Err(failed_on(SchemaFault::Deserializing("field"@), "parsing field"@, member))
    } else {
        match resolve(member.get("type"@)->0) {
            Err(e) => Err(failed_on(e, "parsing field"@, member)),
            Ok(ty) => match member.optional_str("name"@) {
                Some(name) => Ok((name, ty)),
                None => if field_anon(member) {
                    Ok(("anon"@, ty))
                } else {
                    Err(failed_on(SchemaFault::Deserializing("field"@), "parsing field"@, member))
                },
            },
        }
    }
}

/// The first `n` fields of a packet body, in order; the first failure wins.
pub open spec fn packet_fields(members: Seq<Json>, n: nat) -> Result<
    Seq<(Seq<char>, TypeModel)>,
    Failure,
>
    decreases n,
{
    if n == 0 || n > members.len() {
        Ok(Seq::empty())
    } else {
        match packet_fields(members, (n - 1) as nat) {
            Err(f) => Err(f),
            Ok(earlier) => match packet_field(members[n - 1]) {
                Ok(field) => Ok(earlier.push(field)),
                Err(f) => Err(f),
            },
        }
    }
}

/// The text of the key under which the body of the packet `name` is kept.
pub open spec fn body_key(fields: Seq<(Seq<char>, Json)>, name: Seq<char>) -> Option<Seq<char>> {
    match lookup(fields, name) {
        Some(v) => v.as_str(),
        None => None,
    }
}

/// The packet that one mapping gives: its body is found through the switch
/// and the type namespace, its fields are resolved in order, and its id
/// must fit eight bits.
pub open spec fn packet_of(
    types: Seq<(Seq<char>, Json)>,
    fields: Seq<(Seq<char>, Json)>,
    id: int,
    name: Seq<char>,
    direction: PacketDirection,
) -> Result<PacketModel, Failure> {
    let during = describe("mapping packet"@, Some(quoted(name)));
    match body_key(fields, name) {
        None => Err(
            Failure { fault: SchemaFault::MissingSwitchKey(name, "packet lookup"@), during },
        ),
        Some(key) => match lookup(types, key) {
            None => Err(Failure { fault: SchemaFault::BadStructure("packet body"@), during }),
            Some(body) => match container_members(body) {
                None => Err(Failure { fault: SchemaFault::BadStructure("container"@), during }),
                Some(members) => match packet_fields(members, members.len()) {
                    Err(f) => Err(f),
                    Ok(resolved) => if 0 <= id <= 255 {
                        Ok(PacketModel { id, direction, name, fields: resolved })
                    } else {
                        Err(Failure { fault: SchemaFault::InvalidPacketId(id), during })
                    },
                },
            },
        },
    }
}

/// The packets of the first `n` mappings, in order; the first failure wins.
pub open spec fn packets_of(
    types: Seq<(Seq<char>, Json)>,
    table: Table,
    direction: PacketDirection,
    n: nat,
) -> Result<Seq<PacketModel>, Failure>
    decreases n,
{
    if n == 0 || n > table.mappings.len() {
        Ok(Seq::empty())
    } else {
        match packets_of(types, table, direction, (n - 1) as nat) {
            Err(f) => Err(f),
            Ok(earlier) => match packet_of(
                types,
                table.fields,
                table.mappings[n - 1].0,
                table.mappings[n - 1].1,
                direction,
            ) {
                Ok(packet) => Ok(earlier.push(packet)),
                Err(f) => Err(f),
            },
        }
    }
}

/// The two tables of a direction, read out of the "packet" entry of its
/// type namespace.
pub open spec fn direction_table(types: Seq<(Seq<char>, Json)>) -> Result<Table, Failure> {
    match lookup(types, "packet"@) {
        None => Err(
            Failure { fault: SchemaFault::MissingPacketKey, during: "finding packet map"@ },
        ),
        Some(packet) => match container_members(packet) {
            None => Err(
                Failure {
                    fault: SchemaFault::BadStructure("packet"@),
                    during: "finding packet map"@,
                },
            ),
            Some(defs) => packet_table(defs),
        },
    }
}

/// Every packet of one direction, by ascending id, or the first failure
/// together with the description of the step that failed.
pub open spec fn resolve_direction(
    types: Seq<(Seq<char>, Json)>,
    direction: PacketDirection,
) -> Result<Seq<PacketModel>, Failure> {
    match direction_table(types) {
        Err(f) => Err(f),
        Ok(table) => packets_of(types, table, direction, table.mappings.len()),
    }
}

/// A failure among the first definitions is the failure of the whole scan.
pub proof fn lemma_scan_failure_stays(defs: Seq<Json>, k: nat, n: nat)
    requires
        k <= n <= defs.len(),
        scan(defs, k) is Err,
    ensures
        scan(defs, n) == scan(defs, k),
    decreases n - k,
{
    if k < n {
        lemma_scan_failure_stays(defs, k, (n - 1) as nat);
    }
}

/// A failure among the first fields is the failure of the whole body.
pub proof fn lemma_fields_failure_stays(members: Seq<Json>, k: nat, n: nat)
    requires
        k <= n <= members.len(),
        packet_fields(members, k) is Err,
    ensures
        packet_fields(members, n) == packet_fields(members, k),
    decreases n - k,
{
    if k < n {
        lemma_fields_failure_stays(members, k, (n - 1) as nat);
    }
}

/// A failure among the first packets is the failure of the whole direction.
pub proof fn lemma_packets_failure_stays(
    types: Seq<(Seq<char>, Json)>,
    table: Table,
    direction: PacketDirection,
    k: nat,
    n: nat,
)
    requires
        k <= n <= table.mappings.len(),
        packets_of(types, table, direction, k) is Err,
    ensures
        packets_of(types, table, direction, n) == packets_of(types, table, direction, k),
    decreases n - k,
{
    if k < n {
        lemma_packets_failure_stays(types, table, direction, k, (n - 1) as nat);
    }
}

/// A mapper that the scan of the definitions has found lists its packets
/// by strictly ascending id.
pub proof fn lemma_scan_ascending(defs: Seq<Json>, n: nat)
    ensures
        scan(defs, n) matches Ok(seen) ==> (seen.mapper matches Some(m) ==> ascending(m)),
    decreases n,
{
    if n == 0 || n > defs.len() {
    } else {
        lemma_scan_ascending(defs, (n - 1) as nat);
        let pair = tagged(defs[n - 1].get("type"@)->0)->0;
        let payload = pair.1;
        let entries = payload.object_at("mappings"@)->0;
        lemma_mappings_ascending(entries, entries.len());
    }
}

/// The packets of the first mappings carry the ids of those mappings, in
/// the order of the table.
pub proof fn lemma_packets_follow_table(
    types: Seq<(Seq<char>, Json)>,
    table: Table,
    direction: PacketDirection,
    n: nat,
)
    requires
        n <= table.mappings.len(),
    ensures
        packets_of(types, table, direction, n) matches Ok(packets) ==> {
            &&& packets.len() == n
            &&& forall|k: int|
                0 <= k < n ==> (#[trigger] packets[k]).id == table.mappings[k].0
                    && packets[k].name == table.mappings[k].1 && packets[k].direction
                    == direction
        },
    decreases n,
{
    if n > 0 {
        lemma_packets_follow_table(types, table, direction, (n - 1) as nat);
    }
}

/// The packets of a direction come by strictly ascending id, each with the
/// direction asked for.
pub proof fn lemma_direction_ascending(types: Seq<(Seq<char>, Json)>, direction: PacketDirection)
    ensures
        resolve_direction(types, direction) matches Ok(packets) ==> {
            &&& forall|i: int, j: int|
                0 <= i < j < packets.len() ==> (#[trigger] packets[i]).id < (
                #[trigger] packets[j]).id
            &&& forall|i: int|
                0 <= i < packets.len() ==> 0 <= (#[trigger] packets[i]).id <= 255
                    && packets[i].direction == direction
        },
{
    if let Ok(packets) = resolve_direction(types, direction) {
        let defs = container_members(lookup(types, "packet"@)->0)->0;
        let table = direction_table(types)->Ok_0;
        lemma_scan_ascending(defs, defs.len());
        lemma_packets_follow_table(types, table, direction, table.mappings.len());
        assert forall|i: int| 0 <= i < packets.len() implies 0 <= (#[trigger] packets[i]).id
            <= 255 by {
            lemma_packet_id_fits(types, table, direction, table.mappings.len(), i);
        }
    }
}

/// Every packet of the first mappings has an id that fits eight bits.
pub proof fn lemma_packet_id_fits(
    types: Seq<(Seq<char>, Json)>,
    table: Table,
    direction: PacketDirection,
    n: nat,
    i: int,
)
    requires
        n <= table.mappings.len(),
        packets_of(types, table, direction, n) is Ok,
        0 <= i < packets_of(types, table, direction, n)->Ok_0.len(),
    ensures
        0 <= packets_of(types, table, direction, n)->Ok_0[i].id <= 255,
    decreases n,
{
    if n > 0 {
        lemma_packets_follow_table(types, table, direction, (n - 1) as nat);
        if i < n - 1 {
            lemma_packet_id_fits(types, table, direction, (n - 1) as nat, i);
        }
    }
}

/// The members of a `["container", [...]]` value.
pub fn container_of(value: &RawValue) -> (members: Option<&Vec<RawValue>>)
    ensures
        match members {
            Some(m) => container_members(value@) == Some(items_view(m@)),
            None => container_members(value@) is None,
        },
{
    match extract_specific("container", value) {
        Some(payload) => payload.as_array(),
        None => None,
    }
}

/// Resolves the fields of a packet body in order, recording each field as
/// the step in hand.
pub fn read_fields<'a>(members: &'a Vec<RawValue>, context: &mut CurrentErrorContext<'a>) -> (outcome:
    Result<Vec<Field>, SchemaError>)
    ensures
        match packet_fields(items_view(members@), members@.len()) {
            Ok(fields) => outcome is Ok && field_models(outcome->Ok_0@) == fields,
            Err(f) => outcome is Err && outcome->Err_0@ == f.fault && final(context).trail()
                == Some(f.during),
        },
{
    let ghost model = items_view(members@);
    let mut fields: Vec<Field> = Vec::with_capacity(members.len());
    let mut i: usize = 0;
    assert(field_models(fields@) =~= Seq::empty());
    while i < members.len()
        invariant
            i <= members.len(),
            model == items_view(members@),
            packet_fields(model, i as nat) == Ok::<_, Failure>(field_models(fields@)),
        decreases members.len() - i,
    {
        let ghost before = field_models(fields@);
        let member = &members[i];
        assert(model[i as int] == member@);
        context.currently_with("parsing field", ContextArg::Value(member));
        let field = match raw::Field::deserialize(member) {
            Some(field) => field,
            None => {
                proof {
                    lemma_fields_failure_stays(model, (i + 1) as nat, model.len());
                }
                return Err(SchemaError::Deserializing("field"));
            },
        };
        let ty = match FieldType::try_from(field.ty) {
            Ok(ty) => ty,
            Err(e) => {
                proof {
                    lemma_fields_failure_stays(model, (i + 1) as nat, model.len());
                }
                return Err(e);
            },
        };
        let name = match field.name {
            Some(name) => name.to_owned(),
            None => if field.anon {
                "anon".to_owned()
            } else {
                proof {
                    lemma_fields_failure_stays(model, (i + 1) as nat, model.len());
                }
                return Err(SchemaError::Deserializing("field"));
            },
        };
        fields.push(Field { name, ty });
        assert(field_models(fields@) =~= before.push((name@, ty@)));
        i = i + 1;
    }
    Ok(fields)
}

/// Resolves the packet of one mapping, recording the mapping, then each of
/// its fields, and then the mapping again as the step in hand.
pub fn resolve_packet<'a>(
    types: &'a Vec<(String, RawValue)>,
    fields: &'a Vec<(String, RawValue)>,
    id: i32,
    name: &'a str,
    direction: PacketDirection,
    context: &mut CurrentErrorContext<'a>,
) -> (outcome: Result<Packet, SchemaError>)
    ensures
        match packet_of(
            entries_view(types@),
            entries_view(fields@),
            id as int,
            name@,
            direction,
        ) {
            Ok(packet) => outcome is Ok && outcome->Ok_0@ == packet,
            Err(f) => outcome is Err && outcome->Err_0@ == f.fault && final(context).trail()
                == Some(f.during),
        },
{
    context.currently_with("mapping packet", ContextArg::Name(name));
    let key = match find_entry(fields, name) {
        Some(value) => value.as_str(),
        None => None,
    };
    let key = match key {
        Some(key) => key,
        None => return Err(SchemaError::MissingSwitchKey(name.to_owned(), "packet lookup")),
    };
    let body = match find_entry(types, key) {
        Some(body) => body,
        None => return Err(SchemaError::BadStructure("packet body")),
    };
    let container = match container_of(body) {
        Some(container) => container,
        None => return Err(SchemaError::BadStructure("container")),
    };
    let fields = match read_fields(container, context) {
        Ok(fields) => fields,
        Err(e) => return Err(e),
    };
    context.currently_with("mapping packet", ContextArg::Name(name));
    if id < 0 || id > 255 {
        return Err(SchemaError::InvalidPacketId(id));
    }
    Ok(Packet { id: id as u8, direction, name: name.to_owned(), fields })
}

/// Reads the definitions of a direction's "packet" entry into its switch
/// and its mapper, recording each definition as the step in hand.
pub(crate) fn scan_definitions<'a>(defs: &'a Vec<RawValue>, context: &mut CurrentErrorContext<'a>) -> (outcome:
    Result<(Switch<'a>, VarintMappings<'a>), SchemaError>)
    requires
        old(context).arg is None,
    ensures
        match packet_table(items_view(defs@)) {
            Ok(table) => outcome is Ok && entries_view(outcome->Ok_0.0.fields@) == table.fields
                && outcome->Ok_0.1@ == table.mappings,
            Err(f) => outcome is Err && outcome->Err_0@ == f.fault && final(context).trail()
                == Some(f.during),
        },
{
    let ghost model = items_view(defs@);
    let mut packet_id_mapper_opt: Option<VarintMappings<'a>> = None;
    let mut packet_body_switch_opt: Option<Switch<'a>> = None;
    let mut i: usize = 0;
    while i < defs.len()
        invariant
            i <= defs.len(),
            model == items_view(defs@),
            scan(model, i as nat) == Ok::<_, Failure>(
                Scan {
                    switch: match packet_body_switch_opt {
                        Some(s) => Some(entries_view(s.fields@)),
                        None => None,
                    },
                    mapper: match packet_id_mapper_opt {
                        Some(m) => Some(m@),
                        None => None,
                    },
                },
            ),
            context.arg == if i == 0 {
                None
            } else {
                Some(ContextArg::Value(&defs@[i - 1]))
            },
        decreases defs.len() - i,
    {
        let def = &defs[i];
        assert(model[i as int] == def@);
        let ghost seen = scan(model, i as nat)->Ok_0;
        context.currently_with("parsing packet definition", ContextArg::Value(def));
        let definition = match PacketDefinition::deserialize(def) {
            Some(definition) => definition,
            None => {
                proof {
                    lemma_scan_failure_stays(model, (i + 1) as nat, model.len());
                }
                return Err(SchemaError::Deserializing("packet definition"));
            },
        };
        let (def_type, value) = match extract(definition.ty) {
            Some(pair) => pair,
            None => {
                proof {
                    lemma_scan_failure_stays(model, (i + 1) as nat, model.len());
                }
                return Err(SchemaError::BadStructure("packet definition"));
            },
        };
        context.currently("parsing packet definition");
        if str_eq(def_type, "switch") {
            context.currently("parsing packet switch");
            let switch = match Switch::deserialize(value) {
                Some(switch) => switch,
                None => {
                    proof {
                        lemma_scan_failure_stays(model, (i + 1) as nat, model.len());
                    }
                    return Err(SchemaError::Deserializing("switch"));
                },
            };
            if packet_body_switch_opt.is_some() {
                proof {
                    lemma_scan_failure_stays(model, (i + 1) as nat, model.len());
                }
                return Err(SchemaError::Duplicate("switch"));
            }
            packet_body_switch_opt = Some(switch);
        } else if str_eq(def_type, "mapper") {
            context.currently("parsing packet mapper");
            let mapper = match Mapper::deserialize(value) {
                Some(mapper) => mapper,
                None => {
                    proof {
                        lemma_scan_failure_stays(model, (i + 1) as nat, model.len());
                    }
                    return Err(SchemaError::Deserializing("mapper"));
                },
            };
            if !str_eq(mapper.ty, "varint") {
                proof {
                    lemma_scan_failure_stays(model, (i + 1) as nat, model.len());
                }
                return Err(SchemaError::UnknownMapper(mapper.ty.to_owned()));
            }
            let mappings = match VarintMappings::from_values(mapper.mappings) {
                Some(mappings) => mappings,
                None => {
                    proof {
                        lemma_scan_failure_stays(model, (i + 1) as nat, model.len());
                    }
                    return Err(SchemaError::BadStructure("packet mappings"));
                },
            };
            if packet_id_mapper_opt.is_some() {
                proof {
                    lemma_scan_failure_stays(model, (i + 1) as nat, model.len());
                }
                return Err(SchemaError::Duplicate("mapper"));
            }
            packet_id_mapper_opt = Some(mappings);
        } else {
            proof {
                lemma_scan_failure_stays(model, (i + 1) as nat, model.len());
            }
            return Err(SchemaError::UnknownDefinition(def_type.to_owned()));
        }
        i = i + 1;
    }
    context.currently("validating mapper and switch");
    proof {
        if defs.len() > 0 {
            assert(model.last() == defs@[defs.len() - 1]@);
        }
    }
    match (packet_body_switch_opt, packet_id_mapper_opt) {
        (Some(switch), Some(mapper)) => Ok((switch, mapper)),
        _ => Err(SchemaError::BadPacketDefinition),
    }
}

/// A walk over the packets of one direction, one packet at a time and by
/// ascending id.
pub struct PacketWalk<'a> {
    types: &'a Vec<(String, RawValue)>,
    switch: Switch<'a>,
    mapper: VarintMappings<'a>,
    direction: PacketDirection,
    next: usize,
}

impl<'a> PacketWalk<'a> {
    /// The type namespace that is walked.
    pub closed spec fn namespace(&self) -> Seq<(Seq<char>, Json)> {
        entries_view(self.types@)
    }

    /// The two tables of the direction.
    pub closed spec fn table(&self) -> Table {
        Table { fields: entries_view(self.switch.fields@), mappings: self.mapper@ }
    }

    /// The direction of the packets.
    pub closed spec fn direction(&self) -> PacketDirection {
        self.direction
    }

    /// How many mappings the walk has gone past.
    pub closed spec fn position(&self) -> nat {
        self.next as nat
    }

    /// Whether the walk has gone past every mapping.
    pub open spec fn done(&self) -> bool {
        self.position() >= self.table().mappings.len()
    }

    /// Begins a walk: the "packet" entry of the namespace is read into its
    /// switch and its mapper. `context` is started afresh and records each
    /// step in hand.
    pub fn begin(
        types: &'a Vec<(String, RawValue)>,
        direction: PacketDirection,
        context: &mut CurrentErrorContext<'a>,
    ) -> (started: Result<PacketWalk<'a>, SchemaError>)
        ensures
            match direction_table(entries_view(types@)) {
                Ok(table) => {
                    &&& started is Ok
                    &&& started->Ok_0.table() == table
                    &&& started->Ok_0.namespace() == entries_view(types@)
                    &&& started->Ok_0.direction() == direction
                    &&& started->Ok_0.position() == 0
                },
                Err(f) => started is Err && started->Err_0@ == f.fault && final(context).trail()
                    == Some(f.during),
            },
    {
        context.wat = None;
        context.arg = None;
        context.currently("finding packet map");
        let packet = match find_entry(types, "packet") {
            Some(packet) => packet,
            None => return Err(SchemaError::MissingPacketKey),
        };
        let container = match container_of(packet) {
            Some(container) => container,
            None => return Err(SchemaError::BadStructure("packet")),
        };
        let (switch, mapper) = match scan_definitions(container, context) {
            Ok(pair) => pair,
            Err(e) => return Err(e),
        };
        Ok(PacketWalk { types, switch, mapper, direction, next: 0 })
    }

    /// Resolves the packet of the next mapping and goes past it, whether
    /// the packet could be resolved or not; `None` once the walk is done.
    pub fn next(&mut self, context: &mut CurrentErrorContext<'a>) -> (step: Option<
        Result<Packet, SchemaError>,
    >)
        ensures
            final(self).namespace() == old(self).namespace(),
            final(self).table() == old(self).table(),
            final(self).direction() == old(self).direction(),
            match step {
                None => old(self).done() && final(self).position() == old(self).position(),
                Some(outcome) => {
                    &&& !old(self).done()
                    &&& final(self).position() == old(self).position() + 1
                    &&& match packet_of(
                        old(self).namespace(),
                        old(self).table().fields,
                        old(self).table().mappings[old(self).position() as int].0,
                        old(self).table().mappings[old(self).position() as int].1,
                        old(self).direction(),
                    ) {
                        Ok(packet) => outcome is Ok && outcome->Ok_0@ == packet,
                        Err(f) => {
                            &&& outcome is Err
                            &&& outcome->Err_0@ == f.fault
                            &&& final(context).trail() == Some(f.during)
                        },
                    }
                },
            },
    {
        if self.next >= self.mapper.0.len() {
            return None;
        }
        let packet_id = self.mapper.0[self.next].0;
        let packet_name = self.mapper.0[self.next].1;
        assert(self.table().mappings[self.next as int] == (packet_id as int, packet_name@));
        self.next = self.next + 1;
        Some(
            resolve_packet(
                self.types,
                self.switch.fields,
                packet_id,
                packet_name,
                self.direction,
                context,
            ),
        )
    }
}

/// Resolves every packet of one direction, with `context` started afresh
/// as the record of the step in hand.
pub fn walk_direction<'a>(
    types: &'a Vec<(String, RawValue)>,
    direction: PacketDirection,
    context: &mut CurrentErrorContext<'a>,
) -> (outcome: Result<Vec<Packet>, SchemaError>)
    ensures
        match resolve_direction(entries_view(types@), direction) {
            Ok(packets) => outcome is Ok && packet_models(outcome->Ok_0@) == packets,
            Err(f) => outcome is Err && outcome->Err_0@ == f.fault && final(context).trail()
                == Some(f.during),
        },
{
    let mut walk = match PacketWalk::begin(types, direction, context) {
        Ok(walk) => walk,
        Err(e) => return Err(e),
    };
    let ghost model = entries_view(types@);
    let ghost table = walk.table();
    let mut packets: Vec<Packet> = Vec::new();
    assert(packet_models(packets@) =~= Seq::empty());
    loop
        invariant
            model == entries_view(types@),
            walk.namespace() == model,
            walk.table() == table,
            walk.direction() == direction,
            walk.position() == packets@.len(),
            walk.position() <= table.mappings.len(),
            packets_of(model, table, direction, walk.position()) == Ok::<_, Failure>(
                packet_models(packets@),
            ),
            resolve_direction(model, direction) == packets_of(
                model,
                table,
                direction,
                table.mappings.len(),
            ),
        decreases table.mappings.len() - walk.position(),
    {
        let ghost before = packet_models(packets@);
        let ghost at = walk.position();
        match walk.next(context) {
            None => {
                return Ok(packets);
            },
            Some(Ok(packet)) => {
                packets.push(packet);
                assert(packet_models(packets@) =~= before.push(packet@));
            },
            Some(Err(e)) => {
                proof {
                    lemma_packets_failure_stays(
                        model,
                        table,
                        direction,
                        at + 1,
                        table.mappings.len(),
                    );
                }
                return Err(e);
            },
        }
    }
}

} // verus!
