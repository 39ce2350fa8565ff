//! Wire codec and schema resolver for the Minecraft server protocol.

pub mod generator;
pub mod schema;
pub mod text;
pub mod types;
pub mod v1_12_2;
pub mod v1_13;
pub mod v21w07a;

pub use crate::generator::ModuleGenerator;
pub use crate::schema::{Schema, SchemaError};
