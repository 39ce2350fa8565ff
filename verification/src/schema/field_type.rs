//! The closed set of resolved field types and its mathematical model.

use vstd::prelude::*;
use crate::text::str_eq;
use crate::schema::error::{SchemaError, SchemaFault};

verus! {

/// How the length of an array field is found.
#[derive(Debug, PartialEq, Eq)]
pub enum ArrayCount {
    /// A count of the given type precedes the elements.
    Prefixed(Box<FieldType>),
    /// The array always holds this many elements.
    Constant(usize),
    /// The count is the value of the sibling field of this name; whether
    /// such a field exists is left to whoever uses the resolved type.
    Field(String),
}

/// A resolved type that may stand for "no body at all".
#[derive(Debug, PartialEq, Eq)]
pub enum VoidableType {
    Void,
    Present(Box<FieldType>),
}

/// A field whose layout depends on the value of an earlier sibling field.
#[derive(Debug, PartialEq, Eq)]
pub struct FieldSwitch {
    pub predicate_field: String,
    pub cases: Vec<(String, VoidableType)>,
    /// `None` if the schema gives no default.
    pub default: Option<VoidableType>,
}

/// The layout of one field, fully resolved.
#[derive(Debug, PartialEq, Eq)]
pub enum FieldType {
    Varint,
    U16,
    U8,
    I64,
    String,
    Buffer { count_ty: Box<FieldType> },
    Array { count: ArrayCount, elem_ty: Box<FieldType> },
    I32,
    I8,
    Bool,
    I16,
    F32,
    F64,
    Uuid,
    EntityMetadata,
    Position,
    RestOfBuffer,
    Nbt,
    OptionalNbt,
    Switch(FieldSwitch),
    Option(Box<FieldType>),
    Container(Vec<(String, FieldType)>),
    Void,
    Slot,
    ParticleData,
    Bitfield,
    TopBitSetTerminatedArray,
    Tags,
    SmeltingRecipe,
    Ingredient,
}

/// Model of an [`ArrayCount`].
pub enum CountModel {
    Prefixed(Box<TypeModel>),
    Constant(nat),
    Field(Seq<char>),
}

/// Model of a [`VoidableType`].
pub enum VoidableModel {
    Void,
    Present(Box<TypeModel>),
}

/// Model of a [`FieldSwitch`].
pub struct SwitchModel {
    pub predicate_field: Seq<char>,
    pub cases: Seq<(Seq<char>, VoidableModel)>,
    pub default: Option<VoidableModel>,
}

/// Model of a [`FieldType`]: the same tree with texts and lists as sequences.
pub enum TypeModel {
    Varint,
    U16,
    U8,
    I64,
    String,
    Buffer { count_ty: Box<TypeModel> },
    Array { count: CountModel, elem_ty: Box<TypeModel> },
    I32,
    I8,
    Bool,
    I16,
    F32,
    F64,
    Uuid,
    EntityMetadata,
    Position,
    RestOfBuffer,
    Nbt,
    OptionalNbt,
    Switch(SwitchModel),
    Option(Box<TypeModel>),
    Container(Seq<(Seq<char>, TypeModel)>),
    Void,
    Slot,
    ParticleData,
    Bitfield,
    TopBitSetTerminatedArray,
    Tags,
    SmeltingRecipe,
    Ingredient,
}

/// The model of a field type.
pub open spec fn type_model(ty: FieldType) -> TypeModel
    decreases ty,
{
    match ty {
        FieldType::Varint => TypeModel::Varint,
        FieldType::U16 => TypeModel::U16,
        FieldType::U8 => TypeModel::U8,
        FieldType::I64 => TypeModel::I64,
        FieldType::String => TypeModel::String,
        FieldType::Buffer { count_ty } => TypeModel::Buffer {
            count_ty: Box::new(type_model(*count_ty)),
        },
        FieldType::Array { count, elem_ty } => TypeModel::Array {
            count: count_model(count),
            elem_ty: Box::new(type_model(*elem_ty)),
        },
        FieldType::I32 => TypeModel::I32,
        FieldType::I8 => TypeModel::I8,
        FieldType::Bool => TypeModel::Bool,
        FieldType::I16 => TypeModel::I16,
        FieldType::F32 => TypeModel::F32,
        FieldType::F64 => TypeModel::F64,
        FieldType::Uuid => TypeModel::Uuid,
        FieldType::EntityMetadata => TypeModel::EntityMetadata,
        FieldType::Position => TypeModel::Position,
        FieldType::RestOfBuffer => TypeModel::RestOfBuffer,
        FieldType::Nbt => TypeModel::Nbt,
        FieldType::OptionalNbt => TypeModel::OptionalNbt,
        FieldType::Switch(switch) => TypeModel::Switch(
            SwitchModel {
                predicate_field: switch.predicate_field@,
                cases: Seq::new(
                    switch.cases@.len(),
                    |i: int|
                        (
                            switch.cases@[i].0@,
                            if 0 <= i < switch.cases@.len() {
                                voidable_model(switch.cases@[i].1)
                            } else {
                                VoidableModel::Void
                            },
                        ),
                ),
                default: match switch.default {
                    Some(v) => Some(voidable_model(v)),
                    None => None,
                },
            },
        ),
        FieldType::Option(inner) => TypeModel::Option(Box::new(type_model(*inner))),
        FieldType::Container(fields) => TypeModel::Container(
            Seq::new(
                fields@.len(),
                |i: int|
                    (
                        fields@[i].0@,
                        if 0 <= i < fields@.len() {
                            type_model(fields@[i].1)
                        } else {
                            TypeModel::Void
                        },
                    ),
            ),
        ),
        FieldType::Void => TypeModel::Void,
        FieldType::Slot => TypeModel::Slot,
        FieldType::ParticleData => TypeModel::ParticleData,
        FieldType::Bitfield => TypeModel::Bitfield,
        FieldType::TopBitSetTerminatedArray => TypeModel::TopBitSetTerminatedArray,
        FieldType::Tags => TypeModel::Tags,
        FieldType::SmeltingRecipe => TypeModel::SmeltingRecipe,
        FieldType::Ingredient => TypeModel::Ingredient,
    }
}

/// The model of an array count.
pub open spec fn count_model(count: ArrayCount) -> CountModel
    decreases count,
{
    match count {
        ArrayCount::Prefixed(ty) => CountModel::Prefixed(Box::new(type_model(*ty))),
        ArrayCount::Constant(n) => CountModel::Constant(n as nat),
        ArrayCount::Field(name) => CountModel::Field(name@),
    }
}

/// The model of a voidable type.
pub open spec fn voidable_model(ty: VoidableType) -> VoidableModel
    decreases ty,
{
    match ty {
        VoidableType::Void => VoidableModel::Void,
        VoidableType::Present(inner) => VoidableModel::Present(Box::new(type_model(*inner))),
    }
}

impl View for FieldType {
    type V = TypeModel;

    open spec fn view(&self) -> TypeModel {
        type_model(*self)
    }
}

impl View for ArrayCount {
    type V = CountModel;

    open spec fn view(&self) -> CountModel {
        count_model(*self)
    }
}

impl View for VoidableType {
    type V = VoidableModel;

    open spec fn view(&self) -> VoidableModel {
        voidable_model(*self)
    }
}

/// The models of a list of named fields, in order.
pub open spec fn fields_model(fields: Seq<(String, FieldType)>) -> Seq<(Seq<char>, TypeModel)> {
    Seq::new(fields.len(), |i: int| (fields[i].0@, fields[i].1@))
}

/// The models of a list of switch cases, in order.
pub open spec fn cases_model(cases: Seq<(String, VoidableType)>) -> Seq<
    (Seq<char>, VoidableModel),
> {
    Seq::new(cases.len(), |i: int| (cases[i].0@, cases[i].1@))
}

/// Wraps a resolved model, keeping "void" apart from a present type.
pub open spec fn voidable_of(ty: TypeModel) -> VoidableModel {
    match ty {
        TypeModel::Void => VoidableModel::Void,
        _ => VoidableModel::Present(Box::new(ty)),
    }
}

/// The terminal kind that a bare type name stands for.
pub open spec fn terminal(name: Seq<char>) -> Option<TypeModel> {
    if name == "varint"@ {
        Some(TypeModel::Varint)
    } else if name == "u16"@ {
        Some(TypeModel::U16)
    } else if name == "u8"@ {
        Some(TypeModel::U8)
    } else if name == "i64"@ {
        Some(TypeModel::I64)
    } else if name == "string"@ {
        Some(TypeModel::String)
    } else if name == "i32"@ {
        Some(TypeModel::I32)
    } else if name == "i8"@ {
        Some(TypeModel::I8)
    } else if name == "bool"@ {
        Some(TypeModel::Bool)
    } else if name == "i16"@ {
        Some(TypeModel::I16)
    } else if name == "f32"@ {
        Some(TypeModel::F32)
    } else if name == "f64"@ {
        Some(TypeModel::F64)
    } else if name == "UUID"@ {
        Some(TypeModel::Uuid)
    } else if name == "entityMetadata"@ {
        Some(TypeModel::EntityMetadata)
    } else if name == "position"@ {
        Some(TypeModel::Position)
    } else if name == "restBuffer"@ {
        Some(TypeModel::RestOfBuffer)
    } else if name == "nbt"@ {
        Some(TypeModel::Nbt)
    } else if name == "optionalNbt"@ {
        Some(TypeModel::OptionalNbt)
    } else if name == "slot"@ {
        Some(TypeModel::Slot)
    } else if name == "tags"@ {
        Some(TypeModel::Tags)
    } else if name == "void"@ {
        Some(TypeModel::Void)
    } else if name == "minecraft_smelting_format"@ {
        Some(TypeModel::SmeltingRecipe)
    } else if name == "ingredient"@ {
        Some(TypeModel::Ingredient)
    } else {
        None
    }
}

/// What a bare type name resolves to: its terminal kind, or the error that
/// names the unknown type.
pub open spec fn resolve_name(name: Seq<char>) -> Result<TypeModel, SchemaFault> {
    match terminal(name) {
        Some(ty) => Ok(ty),
        None => Err(SchemaFault::UnknownFieldType(name)),
    }
}

/// The model of the outcome of a resolution step.
pub open spec fn outcome_model(outcome: Result<FieldType, SchemaError>) -> Result<
    TypeModel,
    SchemaFault,
> {
    match outcome {
        Ok(ty) => Ok(ty@),
        Err(e) => Err(e@),
    }
}

impl FieldType {
    /// Resolves a bare type name through the table of terminal kinds.
    pub fn from_str(s: &str) -> (outcome: Result<FieldType, SchemaError>)
        ensures
            outcome_model(outcome) == resolve_name(s@),
    {
        if str_eq(s, "varint") {
            Ok(FieldType::Varint)
        } else if str_eq(s, "u16") {
            Ok(FieldType::U16)
        } else if str_eq(s, "u8") {
            Ok(FieldType::U8)
        } else if str_eq(s, "i64") {
            Ok(FieldType::I64)
        } else if str_eq(s, "string") {
            Ok(FieldType::String)
        } else if str_eq(s, "i32") {
            Ok(FieldType::I32)
        } else if str_eq(s, "i8") {
            Ok(FieldType::I8)
        } else if str_eq(s, "bool") {
            Ok(FieldType::Bool)
        } else if str_eq(s, "i16") {
            Ok(FieldType::I16)
        } else if str_eq(s, "f32") {
            Ok(FieldType::F32)
        } else if str_eq(s, "f64") {
            Ok(FieldType::F64)
        } else if str_eq(s, "UUID") {
            Ok(FieldType::Uuid)
        } else if str_eq(s, "entityMetadata") {
            Ok(FieldType::EntityMetadata)
        } else if str_eq(s, "position") {
            Ok(FieldType::Position)
        } else if str_eq(s, "restBuffer") {
            Ok(FieldType::RestOfBuffer)
        } else if str_eq(s, "nbt") {
            Ok(FieldType::Nbt)
        } else if str_eq(s, "optionalNbt") {
            Ok(FieldType::OptionalNbt)
        } else if str_eq(s, "slot") {
            Ok(FieldType::Slot)
        } else if str_eq(s, "tags") {
            Ok(FieldType::Tags)
        } else if str_eq(s, "void") {
            Ok(FieldType::Void)
        } else if str_eq(s, "minecraft_smelting_format") {
            Ok(FieldType::SmeltingRecipe)
        } else if str_eq(s, "ingredient") {
            Ok(FieldType::Ingredient)
        } else {
            Err(SchemaError::UnknownFieldType(s.to_owned()))
        }
    }

    /// The short name of the variant, without what it holds; an array also
    /// names the variant of its element.
    pub fn name(&self) -> (name: String)
        ensures
            name@ == type_label(self@),
        decreases self,
    {
        match self {
            FieldType::Varint => "Varint".to_owned(),
            FieldType::U16 => "U16".to_owned(),
            FieldType::U8 => "U8".to_owned(),
            FieldType::I64 => "I64".to_owned(),
            FieldType::String => "String".to_owned(),
            FieldType::Buffer { .. } => "Buffer".to_owned(),
            FieldType::Array { elem_ty, .. } => {
                let inner = elem_ty.name();
                "Array<".to_owned().concat(inner.as_str()).concat(">")
            },
            FieldType::I32 => "I32".to_owned(),
            FieldType::I8 => "I8".to_owned(),
            FieldType::Bool => "Bool".to_owned(),
            FieldType::I16 => "I16".to_owned(),
            FieldType::F32 => "F32".to_owned(),
            FieldType::F64 => "F64".to_owned(),
            FieldType::Uuid => "Uuid".to_owned(),
            FieldType::EntityMetadata => "EntityMetadata".to_owned(),
            FieldType::Position => "Position".to_owned(),
            FieldType::RestOfBuffer => "RestOfBuffer".to_owned(),
            FieldType::Nbt => "Nbt".to_owned(),
            FieldType::OptionalNbt => "OptionalNbt".to_owned(),
            FieldType::Switch(_) => "Switch".to_owned(),
            FieldType::Option(_) => "Option".to_owned(),
            FieldType::Container(_) => "Container".to_owned(),
            FieldType::Void => "Void".to_owned(),
            FieldType::Slot => "Slot".to_owned(),
            FieldType::ParticleData => "ParticleData".to_owned(),
            FieldType::Bitfield => "Bitfield".to_owned(),
            FieldType::TopBitSetTerminatedArray => "TopBitSetTerminatedArray".to_owned(),
            FieldType::Tags => "Tags".to_owned(),
            FieldType::SmeltingRecipe => "SmeltingRecipe".to_owned(),
            FieldType::Ingredient => "Ingredient".to_owned(),
        }
    }
}

/// The text that [`FieldType::name`] gives for a type.
pub open spec fn type_label(ty: TypeModel) -> Seq<char>
    decreases ty,
{
    match ty {
        TypeModel::Varint => "Varint"@,
        TypeModel::U16 => "U16"@,
        TypeModel::U8 => "U8"@,
        TypeModel::I64 => "I64"@,
        TypeModel::String => "String"@,
        TypeModel::Buffer { .. } => "Buffer"@,
        TypeModel::Array { elem_ty, .. } => "Array<"@ + type_label(*elem_ty) + ">"@,
        TypeModel::I32 => "I32"@,
        TypeModel::I8 => "I8"@,
        TypeModel::Bool => "Bool"@,
        TypeModel::I16 => "I16"@,
        TypeModel::F32 => "F32"@,
        TypeModel::F64 => "F64"@,
        TypeModel::Uuid => "Uuid"@,
        TypeModel::EntityMetadata => "EntityMetadata"@,
        TypeModel::Position => "Position"@,
        TypeModel::RestOfBuffer => "RestOfBuffer"@,
        TypeModel::Nbt => "Nbt"@,
        TypeModel::OptionalNbt => "OptionalNbt"@,
        TypeModel::Switch(_) => "Switch"@,
        TypeModel::Option(_) => "Option"@,
        TypeModel::Container(_) => "Container"@,
        TypeModel::Void => "Void"@,
        TypeModel::Slot => "Slot"@,
        TypeModel::ParticleData => "ParticleData"@,
        TypeModel::Bitfield => "Bitfield"@,
        TypeModel::TopBitSetTerminatedArray => "TopBitSetTerminatedArray"@,
        TypeModel::Tags => "Tags"@,
        TypeModel::SmeltingRecipe => "SmeltingRecipe"@,
        TypeModel::Ingredient => "Ingredient"@,
    }
}

impl VoidableType {
    /// Wraps a resolved type, keeping "void" apart from a present type.
    pub fn from(ty: FieldType) -> (wrapped: VoidableType)
        ensures
            wrapped@ == voidable_of(ty@),
    {
        match ty {
            FieldType::Void => VoidableType::Void,
            other => VoidableType::Present(Box::new(other)),
        }
    }
}

} // verus!
