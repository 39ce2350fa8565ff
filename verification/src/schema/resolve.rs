//! Recursive resolution of a loosely typed schema value into a [`FieldType`].

use vstd::prelude::*;
use crate::schema::error::{SchemaError, SchemaFault};
use crate::schema::field_type::{
    ArrayCount, CountModel, FieldSwitch, FieldType, SwitchModel, TypeModel, VoidableModel,
    VoidableType, cases_model, fields_model, outcome_model, resolve_name, voidable_of,
};
use crate::schema::raw;
use crate::schema::raw::{
    ArrayType, BufferType, CountSpec, Field, Switch, array_count, array_shape, buffer_shape,
    field_shape, switch_shape,
};
use crate::schema::render::{debug_text, render};
use crate::schema::value::{
    Json, RawValue, entries_view, extract, items_view, lemma_position_found, tagged,
};
use crate::text::str_eq;

verus! {

/// The type that a schema value resolves to, or the first error met on the way.
///
/// A bare string is looked up among the terminal kinds. A `[kind, payload]`
/// pair is resolved by its kind, recursively through its payload. Anything
/// else is an unknown field type, named by the text of the value.
pub open spec fn resolve(value: Json) -> Result<TypeModel, SchemaFault>
    decreases value, 0nat,
{
    match value {
        Json::String(name) => resolve_name(name),
        _ => match tagged(value) {
            None => Err(SchemaFault::UnknownFieldType(debug_text(value))),
            Some((kind, payload)) => {
                if kind == "buffer"@ {
                    resolve_buffer(payload)
                } else if kind == "switch"@ {
                    resolve_switch(payload)
                } else if kind == "array"@ {
                    resolve_array(payload)
                } else if kind == "container"@ {
                    resolve_container(payload)
                } else if kind == "particleData"@ {
                    Ok(TypeModel::ParticleData)
                } else if kind == "option"@ {
                    match resolve(payload) {
                        Ok(inner) => Ok(TypeModel::Option(Box::new(inner))),
                        Err(e) => Err(e),
                    }
                } else if kind == "bitfield"@ {
                    Ok(TypeModel::Bitfield)
                } else if kind == "topBitSetTerminatedArray"@ {
                    Ok(TypeModel::TopBitSetTerminatedArray)
                } else {
                    Err(SchemaFault::UnknownFieldType(kind))
                }
            },
        },
    }
}

/// A buffer: the type named by "countType" is that of its length prefix.
pub open spec fn resolve_buffer(payload: Json) -> Result<TypeModel, SchemaFault> {
    if !buffer_shape(payload) {
        Err(SchemaFault::Deserializing("buffer"@))
    } else {
        match resolve_name(payload.str_at("countType"@)->0) {
            Ok(count_ty) => Ok(TypeModel::Buffer { count_ty: Box::new(count_ty) }),
            Err(e) => Err(e),
        }
    }
}

/// The resolved count of an array payload.
pub open spec fn resolve_count(count: CountSpec) -> Result<CountModel, SchemaFault> {
    match count {
        CountSpec::PrefixedBy(name) => match resolve_name(name) {
            Ok(ty) => Ok(CountModel::Prefixed(Box::new(ty))),
            Err(e) => Err(e),
        },
        CountSpec::Constant(n) => Ok(CountModel::Constant(n)),
        CountSpec::Field(name) => Ok(CountModel::Field(name)),
    }
}

/// An array: its count, then the type of its elements.
pub open spec fn resolve_array(payload: Json) -> Result<TypeModel, SchemaFault>
    decreases payload, 0nat,
{
    if !array_shape(payload) {
        Err(SchemaFault::Deserializing("array"@))
    } else {
        match array_count(payload) {
            None => Err(SchemaFault::Deserializing("array count"@)),
            Some(count) => match resolve_count(count) {
                Err(e) => Err(e),
                Ok(count) => {
                    proof {
                        if payload is Object {
                            lemma_position_found(payload->Object_0, "type"@);
                        }
                    }
                    match resolve(payload.get("type"@)->0) {
                        Ok(elem_ty) => Ok(TypeModel::Array { count, elem_ty: Box::new(elem_ty) }),
                        Err(e) => Err(e),
                    }
                },
            },
        }
    }
}

/// A switch: its default, if it has one, then its cases in their order.
pub open spec fn resolve_switch(payload: Json) -> Result<TypeModel, SchemaFault>
    decreases payload, 1nat,
{
    if !switch_shape(payload) {
        Err(SchemaFault::Deserializing("switch"@))
    } else {
        proof {
            if payload is Object {
                lemma_position_found(payload->Object_0, "default"@);
                lemma_position_found(payload->Object_0, "fields"@);
            }
        }
        let fields = payload.object_at("fields"@)->0;
        match resolve_default(payload) {
            Err(e) => Err(e),
            Ok(default) => match resolve_cases(fields, fields.len()) {
                Err(e) => Err(e),
                Ok(cases) => Ok(
                    TypeModel::Switch(
                        SwitchModel {
                            predicate_field: payload.str_at("compareTo"@)->0,
                            cases,
                            default,
                        },
                    ),
                ),
            },
        }
    }
}

/// The default of a switch payload, resolved where there is one.
pub open spec fn resolve_default(payload: Json) -> Result<Option<VoidableModel>, SchemaFault>
    decreases payload, 0nat,
{
    match payload.optional("default"@) {
        None => Ok(None),
        Some(default) => {
            proof {
                if payload is Object {
                    lemma_position_found(payload->Object_0, "default"@);
                }
            }
            match resolve(default) {
                Ok(ty) => Ok(Some(voidable_of(ty))),
                Err(e) => Err(e),
            }
        },
    }
}

/// The first `n` cases of a switch, resolved in order; the first error wins.
pub open spec fn resolve_cases(entries: Seq<(Seq<char>, Json)>, n: nat) -> Result<
    Seq<(Seq<char>, VoidableModel)>,
    SchemaFault,
>
    decreases entries, n,
{
    if n == 0 || n > entries.len() {
        Ok(Seq::empty())
    } else {
        match resolve_cases(entries, (n - 1) as nat) {
            Err(e) => Err(e),
            Ok(earlier) => match resolve(entries[n - 1].1) {
                Ok(ty) => Ok(earlier.push((entries[n - 1].0, voidable_of(ty)))),
                Err(e) => Err(e),
            },
        }
    }
}

/// A container: its members in order.
pub open spec fn resolve_container(payload: Json) -> Result<TypeModel, SchemaFault>
    decreases payload, 0nat,
{
    match payload.as_array() {
        None => Err(SchemaFault::BadStructure("container"@)),
        Some(members) => match resolve_members(members, members.len()) {
            Ok(fields) => Ok(TypeModel::Container(fields)),
            Err(e) => Err(e),
        },
    }
}

/// One member of a container: its type is resolved, then its name is asked for.
pub open spec fn resolve_member(member: Json) -> Result<(Seq<char>, TypeModel), SchemaFault>
    decreases member, 0nat,
{
    if !field_shape(member) {
        Err(SchemaFault::Deserializing("container field"@))
    } else {
        proof {
            if member is Object {
                lemma_position_found(member->Object_0, "type"@);
            }
        }
        match resolve(member.get("type"@)->0) {
            Err(e) => Err(e),
            Ok(ty) => match member.optional_str("name"@) {
                Some(name) => Ok((name, ty)),
                None => Err(SchemaFault::Deserializing("container field"@)),
            },
        }
    }
}

/// The first `n` members of a container, resolved in order; the first error wins.
pub open spec fn resolve_members(members: Seq<Json>, n: nat) -> Result<
    Seq<(Seq<char>, TypeModel)>,
    SchemaFault,
>
    decreases members, n,
{
    if n == 0 || n > members.len() {
        Ok(Seq::empty())
    } else {
        match resolve_members(members, (n - 1) as nat) {
            Err(e) => Err(e),
            Ok(earlier) => match resolve_member(members[n - 1]) {
                Ok(field) => Ok(earlier.push(field)),
                Err(e) => Err(e),
            },
        }
    }
}

/// An error among the first cases is the error of the whole list.
pub proof fn lemma_cases_error_stays(entries: Seq<(Seq<char>, Json)>, k: nat, n: nat)
    requires
        k <= n <= entries.len(),
        resolve_cases(entries, k) is Err,
    ensures
        resolve_cases(entries, n) == resolve_cases(entries, k),
    decreases n - k,
{
    if k < n {
        lemma_cases_error_stays(entries, k, (n - 1) as nat);
    }
}

/// An error among the first members is the error of the whole list.
pub proof fn lemma_members_error_stays(members: Seq<Json>, k: nat, n: nat)
    requires
        k <= n <= members.len(),
        resolve_members(members, k) is Err,
    ensures
        resolve_members(members, n) == resolve_members(members, k),
    decreases n - k,
{
    if k < n {
        lemma_members_error_stays(members, k, (n - 1) as nat);
    }
}

/// Resolves the payload of a "buffer" type.
pub fn buffer_type(payload: &RawValue) -> (outcome: Result<FieldType, SchemaError>)
    ensures
        outcome_model(outcome) == resolve_buffer(payload@),
{
    let buffer = match BufferType::deserialize(payload) {
        Some(buffer) => buffer,
        None => return Err(SchemaError::Deserializing("buffer")),
    };
    match FieldType::from_str(buffer.count_type) {
        Ok(count_ty) => Ok(FieldType::Buffer { count_ty: Box::new(count_ty) }),
        Err(e) => Err(e),
    }
}

/// Resolves the payload of an "array" type.
pub fn array_type(payload: &RawValue) -> (outcome: Result<FieldType, SchemaError>)
    ensures
        outcome_model(outcome) == resolve_array(payload@),
    decreases payload,
{
    let array = match ArrayType::deserialize(payload) {
        Some(array) => array,
        None => return Err(SchemaError::Deserializing("array")),
    };
    let found = match array.count() {
        Some(found) => found,
        None => return Err(SchemaError::Deserializing("array count")),
    };
    let ghost given = found@;
    let count = match found {
        raw::ArrayCount::PrefixedBy(name) => match FieldType::from_str(name) {
            Ok(ty) => ArrayCount::Prefixed(Box::new(ty)),
            Err(e) => return Err(e),
        },
        raw::ArrayCount::Constant(n) => ArrayCount::Constant(n),
        raw::ArrayCount::Field(name) => ArrayCount::Field(name),
    };
    assert(resolve_count(given) == Ok::<_, SchemaFault>(count@));
    match FieldType::try_from(array.ty) {
        Ok(elem_ty) => {
            let resolved = FieldType::Array { count, elem_ty: Box::new(elem_ty) };
            assert(resolved@ == TypeModel::Array { count: count@, elem_ty: Box::new(elem_ty@) });
            Ok(resolved)
        },
        Err(e) => Err(e),
    }
}

/// Resolves the payload of a "switch" type.
pub fn switch_type(payload: &RawValue) -> (outcome: Result<FieldType, SchemaError>)
    ensures
        outcome_model(outcome) == resolve_switch(payload@),
    decreases payload,
{
    let switch = match Switch::deserialize(payload) {
        Some(switch) => switch,
        None => return Err(SchemaError::Deserializing("switch")),
    };
    let default = match switch.default {
        Some(value) => match FieldType::try_from(value) {
            Ok(ty) => Some(VoidableType::from(ty)),
            Err(e) => return Err(e),
        },
        None => None,
    };
    let fields = switch.fields;
    let ghost model = entries_view(fields@);
    let mut cases: Vec<(String, VoidableType)> = Vec::new();
    let mut i: usize = 0;
    assert(cases_model(cases@) =~= Seq::empty());
    while i < fields.len()
        invariant
            i <= fields.len(),
            model == entries_view(fields@),
            decreases_to!(*payload => *fields),
            resolve_cases(model, i as nat) == Ok::<_, SchemaFault>(cases_model(cases@)),
            resolve_cases(model, model.len()) is Err ==> resolve_switch(payload@) == Err::<
                TypeModel,
                _,
            >(resolve_cases(model, model.len())->Err_0),
        decreases fields.len() - i,
    {
        proof {
            assert(decreases_to!(*fields => fields@[i as int].1));
            assert(model[i as int].1 == fields@[i as int].1@);
        }
        let ghost before = cases_model(cases@);
        match FieldType::try_from(&fields[i].1) {
            Ok(ty) => {
                let key = fields[i].0.clone();
                let case = VoidableType::from(ty);
                cases.push((key, case));
                assert(cases_model(cases@) =~= before.push((model[i as int].0, case@)));
            },
            Err(e) => {
                proof {
                    lemma_cases_error_stays(model, (i + 1) as nat, model.len());
                }
                return Err(e);
            },
        }
        i = i + 1;
    }
    let predicate_field = switch.predicate_field.to_owned();
    let resolved = FieldType::Switch(FieldSwitch { predicate_field, cases, default });
    proof {
        let by_view = resolved@->Switch_0;
        assert(by_view.cases =~= cases_model(cases@));
    }
    Ok(resolved)
}

/// Resolves the payload of a "container" type.
pub fn container_type(payload: &RawValue) -> (outcome: Result<FieldType, SchemaError>)
    ensures
        outcome_model(outcome) == resolve_container(payload@),
    decreases payload,
{
    let members = match payload.as_array() {
        Some(members) => members,
        None => return Err(SchemaError::BadStructure("container")),
    };
    let ghost model = items_view(members@);
    let mut fields: Vec<(String, FieldType)> = Vec::new();
    let mut i: usize = 0;
    assert(fields_model(fields@) =~= Seq::empty());
    while i < members.len()
        invariant
            i <= members.len(),
            model == items_view(members@),
            payload@.as_array() == Some(model),
            decreases_to!(*payload => *members),
            resolve_members(model, i as nat) == Ok::<_, SchemaFault>(fields_model(fields@)),
        decreases members.len() - i,
    {
        proof {
            assert(decreases_to!(*members => members@[i as int]));
            assert(model[i as int] == members@[i as int]@);
        }
        let ghost before = fields_model(fields@);
        let member = &members[i];
        let field = match Field::deserialize(member) {
            Some(field) => field,
            None => {
                proof {
                    assert(resolve_member(member@) is Err);
                    lemma_members_error_stays(model, (i + 1) as nat, model.len());
                }
                return Err(SchemaError::Deserializing("container field"));
            },
        };
        let ty = match FieldType::try_from(field.ty) {
            Ok(ty) => ty,
            Err(e) => {
                proof {
                    assert(resolve_member(member@) == Err::<(Seq<char>, TypeModel), _>(e@));
                    lemma_members_error_stays(model, (i + 1) as nat, model.len());
                }
                return Err(e);
            },
        };
        let name = match field.name {
            Some(name) => name.to_owned(),
            None => {
                proof {
                    assert(resolve_member(member@) is Err);
                    lemma_members_error_stays(model, (i + 1) as nat, model.len());
                }
                return Err(SchemaError::Deserializing("container field"));
            },
        };
        assert(resolve_member(member@) == Ok::<_, SchemaFault>((name@, ty@)));
        fields.push((name, ty));
        assert(fields_model(fields@) =~= before.push((name@, ty@)));
        i = i + 1;
    }
    let resolved = FieldType::Container(fields);
    proof {
        assert(resolved@->Container_0 =~= fields_model(fields@));
    }
    Ok(resolved)
}

impl FieldType {
    /// Resolves a schema value into the type it describes.
    pub fn try_from(value: &RawValue) -> (outcome: Result<FieldType, SchemaError>)
        ensures
            outcome_model(outcome) == resolve(value@),
        decreases value,
    {
        if let Some(name) = value.as_str() {
            return FieldType::from_str(name);
        }
        match extract(value) {
            None => Err(SchemaError::UnknownFieldType(render(value))),
            Some((kind, payload)) => {
                if str_eq(kind, "buffer") {
                    buffer_type(payload)
                } else if str_eq(kind, "switch") {
                    switch_type(payload)
                } else if str_eq(kind, "array") {
                    array_type(payload)
                } else if str_eq(kind, "container") {
                    container_type(payload)
                } else if str_eq(kind, "particleData") {
                    Ok(FieldType::ParticleData)
                } else if str_eq(kind, "option") {
                    match FieldType::try_from(payload) {
                        Ok(inner) => Ok(FieldType::Option(Box::new(inner))),
                        Err(e) => Err(e),
                    }
                } else if str_eq(kind, "bitfield") {
                    Ok(FieldType::Bitfield)
                } else if str_eq(kind, "topBitSetTerminatedArray") {
                    Ok(FieldType::TopBitSetTerminatedArray)
                } else {
                    Err(SchemaError::UnknownFieldType(kind.to_owned()))
                }
            },
        }
    }
}

} // verus!
