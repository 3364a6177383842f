//! `Duration` and `SystemTime` as Serde structs of whole seconds and nanoseconds.
use vstd::prelude::*;

use super::variant::{
    deserialize_fields_kind, is_struct_body_in, is_struct_body_out, serialize_fields_kind,
};
use crate::definition::{DeserializeDefinitionKind, SerializeDefinitionKind, TypeName};
use crate::graph::{DeserializeShape, DeserializeShapeContext, SerializeShape, SerializeShapeContext};
use crate::shape::ShapeRef;

verus! {

/// The names of a list of named field shapes.
pub open spec fn field_names(fields: Seq<(&'static str, ShapeRef)>) -> Seq<&'static str> {
    fields.map_values(|f: (&'static str, ShapeRef)| f.0)
}

/// The shapes of a list of named field shapes.
pub open spec fn field_shapes(fields: Seq<(&'static str, ShapeRef)>) -> Seq<ShapeRef> {
    fields.map_values(|f: (&'static str, ShapeRef)| f.1)
}

/// A run of a builder that leaves the context as it is and returns the struct of plain named
/// fields `names` with values of `shapes`.
pub open spec fn fixed_struct_run_out(names: Seq<&'static str>, shapes: Seq<ShapeRef>) -> spec_fn(SerializeShapeContext, SerializeShapeContext, SerializeDefinitionKind) -> bool {
    |during: SerializeShapeContext, built: SerializeShapeContext, kind: SerializeDefinitionKind| built == during && is_struct_body_out(kind, names, shapes)
}

/// A run of a builder that leaves the context as it is and returns the struct of plain named
/// fields `names` with values of `shapes`.
pub open spec fn fixed_struct_run_in(names: Seq<&'static str>, shapes: Seq<ShapeRef>) -> spec_fn(DeserializeShapeContext, DeserializeShapeContext, DeserializeDefinitionKind) -> bool {
    |during: DeserializeShapeContext, built: DeserializeShapeContext, kind: DeserializeDefinitionKind| built == during && is_struct_body_in(kind, names, shapes)
}

/// Define, under the names `rust_name` and `name`, a serialized struct of the plain named
/// fields in `fields`, in order.
fn serialize_time_shape(
    context: &mut SerializeShapeContext,
    rust_name: &'static str,
    name: &'static str,
    fields: Vec<(&'static str, ShapeRef)>,
) -> (r: ShapeRef)
    ensures
        exists|identity: core::any::TypeId|
            #[trigger] SerializeShapeContext::defines_with(
                *old(context),
                *final(context),
                identity,
                TypeName { rust_name, name },
                None,
                fixed_struct_run_out(
                    field_names(fields@),
                    field_shapes(fields@),
                ),
                r,
            ),
{
    let ghost before = *context;
    let ghost names = field_names(fields@);
    let ghost shapes = field_shapes(fields@);
    let build = move |_context: &mut SerializeShapeContext| -> (kind: SerializeDefinitionKind)
        ensures
            SerializeShapeContext::extends(*old(_context), *final(_context)),
            fixed_struct_run_out(names, shapes)(*old(_context), *final(_context), kind)
        {
            serialize_fields_kind(fields)
        };
    let ghost builder = build;
    let type_names = TypeName { rust_name, name };
    let r = context.define_named_type(type_names, build);
    proof {
        SerializeShapeContext::lemma_define_named_type(
            before,
            *context,
            type_names,
            None,
            builder,
            fixed_struct_run_out(names, shapes),
            r,
        );
    }
    r
}

/// Define, under the names `rust_name` and `name`, a deserialized struct that rejects unknown
/// fields, of the plain named fields in `fields`, in order.
fn deserialize_time_shape(
    context: &mut DeserializeShapeContext,
    rust_name: &'static str,
    name: &'static str,
    fields: Vec<(&'static str, ShapeRef)>,
) -> (r: ShapeRef)
    ensures
        exists|identity: core::any::TypeId|
            #[trigger] DeserializeShapeContext::defines_with(
                *old(context),
                *final(context),
                identity,
                TypeName { rust_name, name },
                None,
                fixed_struct_run_in(
                    field_names(fields@),
                    field_shapes(fields@),
                ),
                r,
            ),
{
    let ghost before = *context;
    let ghost names = field_names(fields@);
    let ghost shapes = field_shapes(fields@);
    let build = move |_context: &mut DeserializeShapeContext| -> (kind: DeserializeDefinitionKind)
        ensures
            DeserializeShapeContext::extends(*old(_context), *final(_context)),
            fixed_struct_run_in(names, shapes)(*old(_context), *final(_context), kind)
        {
            deserialize_fields_kind(fields)
        };
    let ghost builder = build;
    let type_names = TypeName { rust_name, name };
    let r = context.define_named_type(type_names, build);
    proof {
        DeserializeShapeContext::lemma_define_named_type(
            before,
            *context,
            type_names,
            None,
            builder,
            fixed_struct_run_in(names, shapes),
            r,
        );
    }
    r
}

impl SerializeShape for core::time::Duration {
    open spec fn emits(before: SerializeShapeContext, after: SerializeShapeContext, r: ShapeRef) -> bool {
        exists|identity: core::any::TypeId|
            SerializeShapeContext::defines_with(
                before,
                after,
                identity,
                TypeName { rust_name: "core::time::Duration", name: "Duration" },
                None,
                fixed_struct_run_out(seq!["secs", "nanos"], seq![ShapeRef::U64, ShapeRef::U32]),
                r,
            )
    }

    fn serialize_shape_in(context: &mut SerializeShapeContext) -> (r: ShapeRef) {
        let fields = vec![("secs", ShapeRef::U64), ("nanos", ShapeRef::U32)];
        proof {
            assert(field_names(fields@) =~= seq!["secs", "nanos"]);
            assert(field_shapes(fields@) =~= seq![ShapeRef::U64, ShapeRef::U32]);
        }
        serialize_time_shape(context, "core::time::Duration", "Duration", fields)
    }
}

impl DeserializeShape for core::time::Duration {
    open spec fn accepts(before: DeserializeShapeContext, after: DeserializeShapeContext, r: ShapeRef) -> bool {
        exists|identity: core::any::TypeId|
            DeserializeShapeContext::defines_with(
                before,
                after,
                identity,
                TypeName { rust_name: "core::time::Duration", name: "Duration" },
                None,
                fixed_struct_run_in(seq!["secs", "nanos"], seq![ShapeRef::U64, ShapeRef::U32]),
                r,
            )
    }

    fn deserialize_shape_in(context: &mut DeserializeShapeContext) -> (r: ShapeRef) {
        let fields = vec![("secs", ShapeRef::U64), ("nanos", ShapeRef::U32)];
        proof {
            assert(field_names(fields@) =~= seq!["secs", "nanos"]);
            assert(field_shapes(fields@) =~= seq![ShapeRef::U64, ShapeRef::U32]);
        }
        deserialize_time_shape(context, "core::time::Duration", "Duration", fields)
    }
}

impl SerializeShape for std::time::SystemTime {
    open spec fn emits(before: SerializeShapeContext, after: SerializeShapeContext, r: ShapeRef) -> bool {
        exists|identity: core::any::TypeId|
            SerializeShapeContext::defines_with(
                before,
                after,
                identity,
                TypeName { rust_name: "std::time::SystemTime", name: "SystemTime" },
                None,
                fixed_struct_run_out(seq!["secs_since_epoch", "nanos_since_epoch"], seq![ShapeRef::U64, ShapeRef::U32]),
                r,
            )
    }

    fn serialize_shape_in(context: &mut SerializeShapeContext) -> (r: ShapeRef) {
        let fields = vec![("secs_since_epoch", ShapeRef::U64), ("nanos_since_epoch", ShapeRef::U32)];
        proof {
            assert(field_names(fields@) =~= seq!["secs_since_epoch", "nanos_since_epoch"]);
            assert(field_shapes(fields@) =~= seq![ShapeRef::U64, ShapeRef::U32]);
        }
        serialize_time_shape(context, "std::time::SystemTime", "SystemTime", fields)
    }
}

impl DeserializeShape for std::time::SystemTime {
    open spec fn accepts(before: DeserializeShapeContext, after: DeserializeShapeContext, r: ShapeRef) -> bool {
        exists|identity: core::any::TypeId|
            DeserializeShapeContext::defines_with(
                before,
                after,
                identity,
                TypeName { rust_name: "std::time::SystemTime", name: "SystemTime" },
                None,
                fixed_struct_run_in(seq!["secs_since_epoch", "nanos_since_epoch"], seq![ShapeRef::U64, ShapeRef::U32]),
                r,
            )
    }

    fn deserialize_shape_in(context: &mut DeserializeShapeContext) -> (r: ShapeRef) {
        let fields = vec![("secs_since_epoch", ShapeRef::U64), ("nanos_since_epoch", ShapeRef::U32)];
        proof {
            assert(field_names(fields@) =~= seq!["secs_since_epoch", "nanos_since_epoch"]);
            assert(field_shapes(fields@) =~= seq![ShapeRef::U64, ShapeRef::U32]);
        }
        deserialize_time_shape(context, "std::time::SystemTime", "SystemTime", fields)
    }
}

} // verus!
