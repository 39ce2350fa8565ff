//! Resolution of a protocol description into typed packet layouts.

pub mod context;
pub mod describe;
pub mod document;
pub mod error;
pub mod field_type;
pub mod mapping;
pub mod packet;
pub mod raw;
pub mod render;
pub mod resolve;
pub mod value;

pub use crate::schema::context::{ContextError, ContextualError, ErrorContext};
pub use crate::schema::document::{ProtocolVersion, Schema, State};
pub use crate::schema::error::SchemaError;
pub use crate::schema::field_type::{ArrayCount, FieldSwitch, FieldType, VoidableType};
pub use crate::schema::packet::{Field, Packet, PacketDirection};
pub use crate::schema::value::RawValue;
