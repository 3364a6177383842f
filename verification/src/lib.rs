//! Reflect the shapes used by Serde serialization and deserialization.
//!
//! `serde_shape` builds a lightweight graph that describes what a Rust type emits through Serde
//! serialization and accepts through Serde deserialization. A shape graph has a [`ShapeRef`] root
//! and a list of named definitions; structs and enums are stored as named definitions and
//! referenced by [`ShapeId`].
use vstd::prelude::*;

pub mod attrs;
pub mod bounds;
pub mod builtin;
pub mod collections;
pub mod definition;
pub mod description;
pub mod graph;
mod impls;
pub mod model;
pub mod plan;
pub mod shape;

pub use definition::{
    DefaultShape, DeserializeContainerAttributes, DeserializeDefinitionKind,
    DeserializeDefinitionShape, DeserializeEnumShape, DeserializeFieldShape,
    DeserializeStructShape, DeserializeVariantContent, DeserializeVariantShape, FieldMember,
    FieldWireShape, FieldsStyle, SerializeContainerAttributes, SerializeDefinitionKind,
    SerializeDefinitionShape, SerializeEnumShape, SerializeFieldShape, SerializeStructShape,
    SerializeVariantContent, SerializeVariantShape, Tagging, TypeName,
};
pub use graph::{
    DeserializeShape, DeserializeShapeContext, DeserializeShapeGraph, SerializeShape,
    SerializeShapeContext, SerializeShapeGraph,
};
pub use impls::os_string::{OsPlatform, deserialize_os_string, serialize_os_string};
pub use model::OpaqueReason;
pub use shape::{OpaqueShape, ShapeId, ShapeRef, UnionShape};

verus! {
}
