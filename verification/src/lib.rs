//! Field enumeration for schema classes that live in another process.
//!
//! A class's metadata record sits in the address space of a running target.
//! Through a borrowed read capability this library reads how many fields the
//! class declares and where its field table starts, and hands out one
//! descriptor per field record. A descriptor reads the properties of its
//! field when they are asked for.
//!
//! - [`memory`]: the read capability, and what a read of it may answer.
//! - [`layout`]: where things stand in a class record and in a field table.
//! - [`table`]: which records of a field table give a field.
//! - [`class`]: the descriptor of a class and the walk over its field table.
//! - [`field`]: the descriptor of a field.
//! - [`recorded`]: a target that answers from a record.

pub mod class;
pub mod field;
pub mod layout;
pub mod memory;
pub mod recorded;
pub mod table;

pub use crate::class::SchemaClassInfo;
pub use crate::field::{FieldLayout, SchemaClassFieldData, TypeRef};
pub use crate::memory::{ReadError, ReadMemory};
pub use crate::recorded::RecordedMemory;
