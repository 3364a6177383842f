//! `Result` as Serde's externally tagged enum with newtype `Ok` and `Err` variants.
use vstd::prelude::*;

use super::variant::{
    deserialize_newtype_variant, is_newtype_variant_in, is_newtype_variant_out,
    serialize_newtype_variant,
};
use crate::definition::{
    DeserializeContainerAttributes, DeserializeDefinitionKind, DeserializeEnumShape,
    SerializeContainerAttributes, SerializeDefinitionKind, SerializeEnumShape, Tagging, TypeName,
};
use crate::graph::{DeserializeShape, DeserializeShapeContext, SerializeShape, SerializeShapeContext};
use crate::model::Shape;
use crate::shape::ShapeRef;

verus! {

/// The serialized body of `Result`: an externally tagged enum of `Ok` then `Err`, carrying
/// values of `ok` and `err`.
pub open spec fn is_result_body_out(k: SerializeDefinitionKind, ok: ShapeRef, err: ShapeRef) -> bool {
    &&& k matches SerializeDefinitionKind::Enum(e)
    &&& e.repr == Tagging::External
    &&& e.variants@.len() == 2
    &&& is_newtype_variant_out(e.variants@[0], "Ok", ok)
    &&& is_newtype_variant_out(e.variants@[1], "Err", err)
    &&& !e.attributes.non_exhaustive
}

/// The deserialized body of `Result`: an externally tagged enum of `Ok` then `Err`, accepting
/// values of `ok` and `err`.
pub open spec fn is_result_body_in(k: DeserializeDefinitionKind, ok: ShapeRef, err: ShapeRef) -> bool {
    &&& k matches DeserializeDefinitionKind::Enum(e)
    &&& e.repr == Tagging::External
    &&& e.variants@.len() == 2
    &&& is_newtype_variant_in(e.variants@[0], "Ok", ok)
    &&& is_newtype_variant_in(e.variants@[1], "Err", err)
    &&& !e.attributes.deny_unknown_fields
    &&& e.attributes.default is Unset
    &&& e.attributes.expecting is None
    &&& !e.attributes.transparent
    &&& !e.attributes.non_exhaustive
}

/// The serialized body of `Result`.
fn serialize_result_kind(ok: ShapeRef, err: ShapeRef) -> (r: SerializeDefinitionKind)
    ensures
        is_result_body_out(r, ok, err),
{
    let variants = vec![serialize_newtype_variant("Ok", ok), serialize_newtype_variant("Err", err)];
    SerializeDefinitionKind::Enum(
        SerializeEnumShape {
            repr: Tagging::External,
            variants,
            attributes: SerializeContainerAttributes::default(),
        },
    )
}

/// The deserialized body of `Result`.
fn deserialize_result_kind(ok: ShapeRef, err: ShapeRef) -> (r: DeserializeDefinitionKind)
    ensures
        is_result_body_in(r, ok, err),
{
    let variants = vec![deserialize_newtype_variant("Ok", ok), deserialize_newtype_variant("Err", err)];
    DeserializeDefinitionKind::Enum(
        DeserializeEnumShape {
            repr: Tagging::External,
            variants,
            attributes: DeserializeContainerAttributes::default(),
        },
    )
}

/// A run of `Result`'s builder: `T`'s shape, then `E`'s, built in turn, become the payloads of
/// `Ok` and `Err`.
pub open spec fn result_run_out<T: SerializeShape, E: SerializeShape>() -> spec_fn(SerializeShapeContext, SerializeShapeContext, SerializeDefinitionKind) -> bool {
    |during: SerializeShapeContext, built: SerializeShapeContext, kind: SerializeDefinitionKind| exists|middle: SerializeShapeContext, ok: ShapeRef, err: ShapeRef|
        #[trigger] T::emits(during, middle, ok) && #[trigger] E::emits(middle, built, err)
            && is_result_body_out(kind, ok, err)
}

/// A run of `Result`'s builder: `T`'s shape, then `E`'s, built in turn, become the payloads of
/// `Ok` and `Err`.
pub open spec fn result_run_in<T: DeserializeShape, E: DeserializeShape>() -> spec_fn(DeserializeShapeContext, DeserializeShapeContext, DeserializeDefinitionKind) -> bool {
    |during: DeserializeShapeContext, built: DeserializeShapeContext, kind: DeserializeDefinitionKind| exists|middle: DeserializeShapeContext, ok: ShapeRef, err: ShapeRef|
        #[trigger] T::accepts(during, middle, ok) && #[trigger] E::accepts(middle, built, err)
            && is_result_body_in(kind, ok, err)
}

impl<T: SerializeShape, E: SerializeShape> SerializeShape for Result<T, E> {
    open spec fn emits(before: SerializeShapeContext, after: SerializeShapeContext, r: ShapeRef) -> bool {
        exists|identity: core::any::TypeId|
            SerializeShapeContext::defines_with(
                before,
                after,
                identity,
                TypeName { rust_name: "Result", name: "Result" },
                None,
                result_run_out::<T, E>(),
                r,
            )
    }

    fn serialize_shape_in(context: &mut SerializeShapeContext) -> (r: ShapeRef) {
        let ghost before = *context;
        let build = |context: &mut SerializeShapeContext| -> (kind: SerializeDefinitionKind)
            ensures
                SerializeShapeContext::extends(*old(context), *final(context)),
                result_run_out::<T, E>()(*old(context), *final(context), kind)
            {
                let ghost during = *context;
                let ok = T::serialize_shape_in(context);
                let ghost middle = *context;
                let err = E::serialize_shape_in(context);
                proof {
                    assert(T::emits(during, middle, ok) && E::emits(middle, *context, err));
                }
                serialize_result_kind(ok, err)
            };
        let type_names = TypeName::of::<Self>("Result");
        let r = context.define_named_type(type_names, build);
        proof {
            SerializeShapeContext::lemma_define_named_type(before, *context, type_names, None, build, result_run_out::<T, E>(), r);
        }
        r
    }
}

impl<T: DeserializeShape, E: DeserializeShape> DeserializeShape for Result<T, E> {
    open spec fn accepts(before: DeserializeShapeContext, after: DeserializeShapeContext, r: ShapeRef) -> bool {
        exists|identity: core::any::TypeId|
            DeserializeShapeContext::defines_with(
                before,
                after,
                identity,
                TypeName { rust_name: "Result", name: "Result" },
                None,
                result_run_in::<T, E>(),
                r,
            )
    }

    fn deserialize_shape_in(context: &mut DeserializeShapeContext) -> (r: ShapeRef) {
        let ghost before = *context;
        let build = |context: &mut DeserializeShapeContext| -> (kind: DeserializeDefinitionKind)
            ensures
                DeserializeShapeContext::extends(*old(context), *final(context)),
                result_run_in::<T, E>()(*old(context), *final(context), kind)
            {
                let ghost during = *context;
                let ok = T::deserialize_shape_in(context);
                let ghost middle = *context;
                let err = E::deserialize_shape_in(context);
                proof {
                    assert(T::accepts(during, middle, ok) && E::accepts(middle, *context, err));
                }
                deserialize_result_kind(ok, err)
            };
        let type_names = TypeName::of::<Self>("Result");
        let r = context.define_named_type(type_names, build);
        proof {
            DeserializeShapeContext::lemma_define_named_type(before, *context, type_names, None, build, result_run_in::<T, E>(), r);
        }
        r
    }
}

} // verus!
