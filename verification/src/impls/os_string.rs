//! The shapes Serde gives OS strings: an externally tagged enum with a single variant named for
//! the platform family, carrying the platform's code units.
use vstd::prelude::*;

use super::variant::{
    deserialize_newtype_variant, is_newtype_variant_in, is_newtype_variant_of_in,
    is_newtype_variant_of_out, is_newtype_variant_out, serialize_newtype_variant,
};
use crate::definition::{
    DeserializeContainerAttributes, DeserializeDefinitionKind, DeserializeEnumShape,
    SerializeContainerAttributes, SerializeDefinitionKind, SerializeEnumShape, Tagging, TypeName,
};
use crate::graph::{DeserializeShapeContext, SerializeShapeContext};
use crate::model::Shape;
use crate::shape::ShapeRef;

verus! {

/// A platform family with its own Serde representation of OS strings.
#[derive(Clone, Copy, Debug, Eq, PartialEq)]
pub enum OsPlatform {
    /// Unix-like platforms, whose OS strings are byte sequences.
    Unix,
    /// Windows, whose OS strings are sequences of UTF-16 code units.
    Windows,
}

/// The variant name under which an OS string of `platform` is tagged.
pub open spec fn platform_variant_label(platform: OsPlatform) -> &'static str {
    match platform {
        OsPlatform::Unix => "Unix",
        OsPlatform::Windows => "Windows",
    }
}

/// The model of the code-unit sequence an OS string of `platform` carries.
pub open spec fn platform_value_model(platform: OsPlatform) -> Shape {
    match platform {
        OsPlatform::Unix => Shape::Sequence(Box::new(Shape::U8)),
        OsPlatform::Windows => Shape::Sequence(Box::new(Shape::U16)),
    }
}

/// The serialized body of an OS string on `platform`: an externally tagged enum whose only
/// variant is named for the platform and carries its code units.
pub open spec fn is_os_string_body_out(k: SerializeDefinitionKind, platform: OsPlatform) -> bool {
    &&& k matches SerializeDefinitionKind::Enum(e)
    &&& e.repr == Tagging::External
    &&& e.variants@.len() == 1
    &&& is_newtype_variant_of_out(
        e.variants@[0],
        platform_variant_label(platform),
        platform_value_model(platform),
    )
    &&& !e.attributes.non_exhaustive
}

/// The deserialized body of an OS string on `platform`: an externally tagged enum that accepts
/// only the variant named for the platform, carrying its code units.
pub open spec fn is_os_string_body_in(k: DeserializeDefinitionKind, platform: OsPlatform) -> bool {
    &&& k matches DeserializeDefinitionKind::Enum(e)
    &&& e.repr == Tagging::External
    &&& e.variants@.len() == 1
    &&& is_newtype_variant_of_in(
        e.variants@[0],
        platform_variant_label(platform),
        platform_value_model(platform),
    )
    &&& !e.attributes.deny_unknown_fields
    &&& e.attributes.default is Unset
    &&& e.attributes.expecting is None
    &&& !e.attributes.transparent
    &&& !e.attributes.non_exhaustive
}

/// The variant name under which an OS string of `platform` is tagged.
fn platform_variant_name(platform: OsPlatform) -> (r: &'static str)
    ensures
        r == platform_variant_label(platform),
{
    match platform {
        OsPlatform::Unix => "Unix",
        OsPlatform::Windows => "Windows",
    }
}

/// The code-unit sequence an OS string of `platform` carries.
fn platform_value_shape(platform: OsPlatform) -> (r: ShapeRef)
    ensures
        r@ == platform_value_model(platform),
{
    match platform {
        OsPlatform::Unix => {
            let unit = ShapeRef::U8;
            assert(unit@ == Shape::U8);
            ShapeRef::Sequence(Box::new(unit))
        },
        OsPlatform::Windows => {
            let unit = ShapeRef::U16;
            assert(unit@ == Shape::U16);
            ShapeRef::Sequence(Box::new(unit))
        },
    }
}

/// The serialized body of an OS string on `platform`.
fn serialize_os_string_kind(platform: OsPlatform) -> (r: SerializeDefinitionKind)
    ensures
        is_os_string_body_out(r, platform),
{
    let value = platform_value_shape(platform);
    let ghost model = value;
    let name = platform_variant_name(platform);
    let variants = vec![serialize_newtype_variant(name, value)];
    proof {
        assert(is_newtype_variant_out(variants@[0], name, model));
    }
    SerializeDefinitionKind::Enum(
        SerializeEnumShape {
            repr: Tagging::External,
            variants,
            attributes: SerializeContainerAttributes::default(),
        },
    )
}

/// The deserialized body of an OS string on `platform`.
fn deserialize_os_string_kind(platform: OsPlatform) -> (r: DeserializeDefinitionKind)
    ensures
        is_os_string_body_in(r, platform),
{
    let value = platform_value_shape(platform);
    let ghost model = value;
    let name = platform_variant_name(platform);
    let variants = vec![deserialize_newtype_variant(name, value)];
    proof {
        assert(is_newtype_variant_in(variants@[0], name, model));
    }
    DeserializeDefinitionKind::Enum(
        DeserializeEnumShape {
            repr: Tagging::External,
            variants,
            attributes: DeserializeContainerAttributes::default(),
        },
    )
}

/// A run of an OS string's builder: it leaves the context as it is and returns the enum of the
/// variant named for `platform`.
pub open spec fn os_string_run_out(platform: OsPlatform) -> spec_fn(SerializeShapeContext, SerializeShapeContext, SerializeDefinitionKind) -> bool {
    |during: SerializeShapeContext, built: SerializeShapeContext, kind: SerializeDefinitionKind| built == during && is_os_string_body_out(kind, platform)
}

/// A run of an OS string's builder: it leaves the context as it is and returns the enum of the
/// variant named for `platform`.
pub open spec fn os_string_run_in(platform: OsPlatform) -> spec_fn(DeserializeShapeContext, DeserializeShapeContext, DeserializeDefinitionKind) -> bool {
    |during: DeserializeShapeContext, built: DeserializeShapeContext, kind: DeserializeDefinitionKind| built == during && is_os_string_body_in(kind, platform)
}

/// Define, under `type_names`, the shape Serde serializes an OS string of `platform` with.
///
/// This is the shape of `OsStr` and `OsString`; an implementation of
/// [`crate::SerializeShape`] for a type that serializes as one can return it.
pub fn serialize_os_string(
    context: &mut SerializeShapeContext,
    type_names: TypeName,
    platform: OsPlatform,
) -> (r: ShapeRef)
    ensures
        exists|identity: core::any::TypeId|
            #[trigger] SerializeShapeContext::defines_with(
                *old(context),
                *final(context),
                identity,
                type_names,
                None,
                os_string_run_out(platform),
                r,
            ),
{
    let ghost before = *context;
    let build = move |_context: &mut SerializeShapeContext| -> (kind: SerializeDefinitionKind)
        ensures
            SerializeShapeContext::extends(*old(_context), *final(_context)),
            os_string_run_out(platform)(*old(_context), *final(_context), kind)
        {
            serialize_os_string_kind(platform)
        };
    let r = context.define_named_type(type_names, build);
    proof {
        SerializeShapeContext::lemma_define_named_type(before, *context, type_names, None, build, os_string_run_out(platform), r);
    }
    r
}

/// Define, under `type_names`, the shape Serde deserializes an OS string of `platform` from.
///
/// This is the shape of `OsString` and `Box<OsStr>`; an implementation of
/// [`crate::DeserializeShape`] for a type that deserializes as one can return it.
pub fn deserialize_os_string(
    context: &mut DeserializeShapeContext,
    type_names: TypeName,
    platform: OsPlatform,
) -> (r: ShapeRef)
    ensures
        exists|identity: core::any::TypeId|
            #[trigger] DeserializeShapeContext::defines_with(
                *old(context),
                *final(context),
                identity,
                type_names,
                None,
                os_string_run_in(platform),
                r,
            ),
{
    let ghost before = *context;
    let build = move |_context: &mut DeserializeShapeContext| -> (kind: DeserializeDefinitionKind)
        ensures
            DeserializeShapeContext::extends(*old(_context), *final(_context)),
            os_string_run_in(platform)(*old(_context), *final(_context), kind)
        {
            deserialize_os_string_kind(platform)
        };
    let r = context.define_named_type(type_names, build);
    proof {
        DeserializeShapeContext::lemma_define_named_type(before, *context, type_names, None, build, os_string_run_in(platform), r);
    }
    r
}

} // verus!
