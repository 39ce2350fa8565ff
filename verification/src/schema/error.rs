//! What can go wrong while a schema is resolved.

use vstd::prelude::*;

verus! {

/// A failure of schema resolution.
#[derive(Debug, PartialEq, Eq)]
pub enum SchemaError {
    /// The packet id does not fit an unsigned 8-bit value.
    InvalidPacketId(i32),
    /// The type namespace has no "packet" entry.
    MissingPacketKey,
    /// The named part of the document does not have the expected shape.
    BadStructure(&'static str),
    /// The named part of the document could not be decoded.
    Deserializing(&'static str),
    /// The named definition occurs twice.
    Duplicate(&'static str),
    /// A mapper of a kind other than "varint".
    UnknownMapper(String),
    /// A packet definition that is neither a mapper nor a switch.
    UnknownDefinition(String),
    /// The mapper or the switch of the packet definition is missing.
    BadPacketDefinition,
    /// A field type that the resolver does not know.
    UnknownFieldType(String),
    /// The named key is missing in the switch used for the named purpose.
    MissingSwitchKey(String, &'static str),
    /// A switch refers to a field that does not exist.
    BadSwitchField(String),
}

/// Model of a [`SchemaError`], with every text as a sequence of characters.
pub enum SchemaFault {
    InvalidPacketId(int),
    MissingPacketKey,
    BadStructure(Seq<char>),
    Deserializing(Seq<char>),
    Duplicate(Seq<char>),
    UnknownMapper(Seq<char>),
    UnknownDefinition(Seq<char>),
    BadPacketDefinition,
    UnknownFieldType(Seq<char>),
    MissingSwitchKey(Seq<char>, Seq<char>),
    BadSwitchField(Seq<char>),
}

impl View for SchemaError {
    type V = SchemaFault;

    open spec fn view(&self) -> SchemaFault {
        match self {
            SchemaError::InvalidPacketId(id) => SchemaFault::InvalidPacketId(*id as int),
            SchemaError::MissingPacketKey => SchemaFault::MissingPacketKey,
            SchemaError::BadStructure(what) => SchemaFault::BadStructure(what@),
            SchemaError::Deserializing(what) => SchemaFault::Deserializing(what@),
            SchemaError::Duplicate(what) => SchemaFault::Duplicate(what@),
            SchemaError::UnknownMapper(kind) => SchemaFault::UnknownMapper(kind@),
            SchemaError::UnknownDefinition(kind) => SchemaFault::UnknownDefinition(kind@),
            SchemaError::BadPacketDefinition => SchemaFault::BadPacketDefinition,
            SchemaError::UnknownFieldType(name) => SchemaFault::UnknownFieldType(name@),
            SchemaError::MissingSwitchKey(key, what) => SchemaFault::MissingSwitchKey(
                key@,
                what@,
            ),
            SchemaError::BadSwitchField(name) => SchemaFault::BadSwitchField(name@),
        }
    }
}

} // verus!
