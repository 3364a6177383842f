//! `Bound` as Serde's externally tagged enum: `Unbounded`, then `Included` and `Excluded`
//! carrying the bound value.
use vstd::prelude::*;

use super::variant::{
    deserialize_newtype_variant, deserialize_unit_variant, is_newtype_variant_in,
    is_newtype_variant_out, is_unit_variant_in, is_unit_variant_out, serialize_newtype_variant,
    serialize_unit_variant,
};
use crate::definition::{
    DeserializeContainerAttributes, DeserializeDefinitionKind, DeserializeEnumShape,
    DeserializeVariantShape, SerializeContainerAttributes, SerializeDefinitionKind,
    SerializeEnumShape, SerializeVariantShape, Tagging, TypeName,
};
use crate::graph::{DeserializeShape, DeserializeShapeContext, SerializeShape, SerializeShapeContext};
use crate::model::Shape;
use crate::shape::ShapeRef;

verus! {

/// A serialized `Bound` variant: a newtype variant when it carries a value, a unit variant
/// otherwise.
pub open spec fn is_bound_variant_out(v: SerializeVariantShape, name: &'static str, value: Option<ShapeRef>) -> bool {
    match value {
        Some(shape) => is_newtype_variant_out(v, name, shape),
        None => is_unit_variant_out(v, name),
    }
}

/// A deserialized `Bound` variant: a newtype variant when it carries a value, a unit variant
/// otherwise.
pub open spec fn is_bound_variant_in(v: DeserializeVariantShape, name: &'static str, value: Option<ShapeRef>) -> bool {
    match value {
        Some(shape) => is_newtype_variant_in(v, name, shape),
        None => is_unit_variant_in(v, name),
    }
}

/// The serialized body of `Bound`: an externally tagged enum of `Unbounded`, `Included` and
/// `Excluded`, the last two carrying values of `included` and `excluded`.
pub open spec fn is_bound_body_out(k: SerializeDefinitionKind, included: ShapeRef, excluded: ShapeRef) -> bool {
    &&& k matches SerializeDefinitionKind::Enum(e)
    &&& e.repr == Tagging::External
    &&& e.variants@.len() == 3
    &&& is_bound_variant_out(e.variants@[0], "Unbounded", None)
    &&& is_bound_variant_out(e.variants@[1], "Included", Some(included))
    &&& is_bound_variant_out(e.variants@[2], "Excluded", Some(excluded))
    &&& !e.attributes.non_exhaustive
}

/// The deserialized body of `Bound`: an externally tagged enum of `Unbounded`, `Included` and
/// `Excluded`, the last two accepting values of `included` and `excluded`.
pub open spec fn is_bound_body_in(k: DeserializeDefinitionKind, included: ShapeRef, excluded: ShapeRef) -> bool {
    &&& k matches DeserializeDefinitionKind::Enum(e)
    &&& e.repr == Tagging::External
    &&& e.variants@.len() == 3
    &&& is_bound_variant_in(e.variants@[0], "Unbounded", None)
    &&& is_bound_variant_in(e.variants@[1], "Included", Some(included))
    &&& is_bound_variant_in(e.variants@[2], "Excluded", Some(excluded))
    &&& !e.attributes.deny_unknown_fields
    &&& e.attributes.default is Unset
    &&& e.attributes.expecting is None
    &&& !e.attributes.transparent
    &&& !e.attributes.non_exhaustive
}

/// The serialized `Bound` variant `name`, carrying `value_shape` when there is one.
fn serialize_bound_variant(name: &'static str, value_shape: Option<ShapeRef>) -> (r: SerializeVariantShape)
    ensures
        is_bound_variant_out(r, name, value_shape),
{
    match value_shape {
        Some(shape) => serialize_newtype_variant(name, shape),
        None => serialize_unit_variant(name),
    }
}

/// The deserialized `Bound` variant `name`, carrying `value_shape` when there is one.
fn deserialize_bound_variant(name: &'static str, value_shape: Option<ShapeRef>) -> (r: DeserializeVariantShape)
    ensures
        is_bound_variant_in(r, name, value_shape),
{
    match value_shape {
        Some(shape) => deserialize_newtype_variant(name, shape),
        None => deserialize_unit_variant(name),
    }
}

/// The serialized body of `Bound`.
fn serialize_bound_kind(included: ShapeRef, excluded: ShapeRef) -> (r: SerializeDefinitionKind)
    ensures
        is_bound_body_out(r, included, excluded),
{
    let variants = vec![
        serialize_bound_variant("Unbounded", None),
        serialize_bound_variant("Included", Some(included)),
        serialize_bound_variant("Excluded", Some(excluded)),
    ];
    SerializeDefinitionKind::Enum(
        SerializeEnumShape {
            repr: Tagging::External,
            variants,
            attributes: SerializeContainerAttributes::default(),
        },
    )
}

/// The deserialized body of `Bound`.
fn deserialize_bound_kind(included: ShapeRef, excluded: ShapeRef) -> (r: DeserializeDefinitionKind)
    ensures
        is_bound_body_in(r, included, excluded),
{
    let variants = vec![
        deserialize_bound_variant("Unbounded", None),
        deserialize_bound_variant("Included", Some(included)),
        deserialize_bound_variant("Excluded", Some(excluded)),
    ];
    DeserializeDefinitionKind::Enum(
        DeserializeEnumShape {
            repr: Tagging::External,
            variants,
            attributes: DeserializeContainerAttributes::default(),
        },
    )
}

/// A run of `Bound`'s builder: `T`'s shape, built twice in turn, becomes the value of `Included`
/// and then of `Excluded`.
pub open spec fn bound_run_out<T: SerializeShape>() -> spec_fn(SerializeShapeContext, SerializeShapeContext, SerializeDefinitionKind) -> bool {
    |during: SerializeShapeContext, built: SerializeShapeContext, kind: SerializeDefinitionKind| exists|middle: SerializeShapeContext, included: ShapeRef, excluded: ShapeRef|
        #[trigger] T::emits(during, middle, included) && #[trigger] T::emits(middle, built, excluded)
            && is_bound_body_out(kind, included, excluded)
}

/// A run of `Bound`'s builder: `T`'s shape, built twice in turn, becomes the value of `Included`
/// and then of `Excluded`.
pub open spec fn bound_run_in<T: DeserializeShape>() -> spec_fn(DeserializeShapeContext, DeserializeShapeContext, DeserializeDefinitionKind) -> bool {
    |during: DeserializeShapeContext, built: DeserializeShapeContext, kind: DeserializeDefinitionKind| exists|middle: DeserializeShapeContext, included: ShapeRef, excluded: ShapeRef|
        #[trigger] T::accepts(during, middle, included) && #[trigger] T::accepts(middle, built, excluded)
            && is_bound_body_in(kind, included, excluded)
}

impl<T: SerializeShape> SerializeShape for core::ops::Bound<T> {
    open spec fn emits(before: SerializeShapeContext, after: SerializeShapeContext, r: ShapeRef) -> bool {
        exists|identity: core::any::TypeId|
            SerializeShapeContext::defines_with(
                before,
                after,
                identity,
                TypeName { rust_name: "Bound", name: "Bound" },
                None,
                bound_run_out::<T>(),
                r,
            )
    }

    fn serialize_shape_in(context: &mut SerializeShapeContext) -> (r: ShapeRef) {
        let ghost before = *context;
        let build = |context: &mut SerializeShapeContext| -> (kind: SerializeDefinitionKind)
            ensures
                SerializeShapeContext::extends(*old(context), *final(context)),
                bound_run_out::<T>()(*old(context), *final(context), kind)
            {
                let ghost during = *context;
                let included = T::serialize_shape_in(context);
                let ghost middle = *context;
                let excluded = T::serialize_shape_in(context);
                proof {
                    assert(T::emits(during, middle, included) && T::emits(middle, *context, excluded));
                }
                serialize_bound_kind(included, excluded)
            };
        let type_names = TypeName::of::<Self>("Bound");
        let r = context.define_named_type(type_names, build);
        proof {
            SerializeShapeContext::lemma_define_named_type(before, *context, type_names, None, build, bound_run_out::<T>(), r);
        }
        r
    }
}

impl<T: DeserializeShape> DeserializeShape for core::ops::Bound<T> {
    open spec fn accepts(before: DeserializeShapeContext, after: DeserializeShapeContext, r: ShapeRef) -> bool {
        exists|identity: core::any::TypeId|
            DeserializeShapeContext::defines_with(
                before,
                after,
                identity,
                TypeName { rust_name: "Bound", name: "Bound" },
                None,
                bound_run_in::<T>(),
                r,
            )
    }

    fn deserialize_shape_in(context: &mut DeserializeShapeContext) -> (r: ShapeRef) {
        let ghost before = *context;
        let build = |context: &mut DeserializeShapeContext| -> (kind: DeserializeDefinitionKind)
            ensures
                DeserializeShapeContext::extends(*old(context), *final(context)),
                bound_run_in::<T>()(*old(context), *final(context), kind)
            {
                let ghost during = *context;
                let included = T::deserialize_shape_in(context);
                let ghost middle = *context;
                let excluded = T::deserialize_shape_in(context);
                proof {
                    assert(T::accepts(during, middle, included) && T::accepts(middle, *context, excluded));
                }
                deserialize_bound_kind(included, excluded)
            };
        let type_names = TypeName::of::<Self>("Bound");
        let r = context.define_named_type(type_names, build);
        proof {
            DeserializeShapeContext::lemma_define_named_type(before, *context, type_names, None, build, bound_run_in::<T>(), r);
        }
        r
    }
}

} // verus!
