//! The decisions a derived shape implementation makes, taken from a container's Serde attributes
//! as plain values: where each field's value shape and each variant's content come from, which
//! wire position a field takes, how the container is tagged, and which body the definition gets.
use vstd::prelude::*;

use crate::definition::{
    DefaultShape, DeserializeContainerAttributes, DeserializeDefinitionKind,
    DeserializeEnumShape, DeserializeFieldShape, DeserializeStructShape,
    DeserializeVariantContent, DeserializeVariantShape, FieldMember, FieldWireShape, FieldsStyle,
    SerializeContainerAttributes, SerializeDefinitionKind, SerializeEnumShape,
    SerializeFieldShape, SerializeStructShape, SerializeVariantContent, SerializeVariantShape,
    Tagging,
};
use crate::model::OpaqueReason;
use crate::shape::{OpaqueShape, ShapeRef};

verus! {

/// The element of a field declared as `Cow<'a, T>` with a borrowed lifetime.
#[derive(Clone, Copy, Debug, Eq, PartialEq)]
pub enum CowElement {
    /// The field is no `Cow` of an element type.
    NotCow,
    /// `Cow<'a, str>`.
    Str,
    /// `Cow<'a, [u8]>`.
    Bytes,
    /// A `Cow` of any other element type.
    Other,
}

/// Where the value shape of a field, or the content of a variant, comes from.
#[derive(Clone, Copy, Debug, Eq, PartialEq)]
pub enum ValueSource {
    /// Nothing is contributed: the item is skipped in this direction.
    Omitted,
    /// A `serde_shape` hook function supplies the shape.
    Hook,
    /// A Serde custom function controls the representation, so the shape is this opaque one.
    Custom(OpaqueShape),
    /// Serde borrows the input as a string or as bytes.
    Borrowed(CowElement),
    /// The item's own shape implementation (for a variant: its fields) supplies the shape.
    Derived,
}

/// The serialization attributes of one field.
#[derive(Clone, Copy, Debug, Eq, PartialEq)]
pub struct SerializeFieldAttrs {
    /// The Rust member the field comes from.
    pub member: FieldMember,
    /// The Serde serialize name, after rename rules.
    pub name: &'static str,
    /// The field's documentation, if any.
    pub description: Option<&'static str>,
    /// Whether the field is skipped when serializing.
    pub skip: bool,
    /// The `skip_serializing_if` predicate path, if any.
    pub skip_if: Option<&'static str>,
    /// Whether the field is flattened.
    pub flatten: bool,
    /// Whether the field is the single field of a transparent container.
    pub transparent: bool,
    /// Whether a `serde_shape` serialization hook is given.
    pub shape_hook: bool,
    /// The Serde `serialize_with` path, if any.
    pub custom_serializer: Option<&'static str>,
    /// The field type's name, which labels an opaque shape.
    pub type_label: &'static str,
}

/// The deserialization attributes of one field.
#[derive(Clone, Debug, Eq, PartialEq)]
pub struct DeserializeFieldAttrs {
    /// The Rust member the field comes from.
    pub member: FieldMember,
    /// The Serde deserialize name, after rename rules.
    pub name: &'static str,
    /// Every accepted name, the deserialize name included.
    pub aliases: Vec<&'static str>,
    /// The field's documentation, if any.
    pub description: Option<&'static str>,
    /// Whether the field is skipped when deserializing.
    pub skip: bool,
    /// The default used when the field is missing.
    pub default: DefaultShape,
    /// Whether the field is flattened.
    pub flatten: bool,
    /// Whether the field is the single field of a transparent container.
    pub transparent: bool,
    /// Whether a `serde_shape` deserialization hook is given.
    pub shape_hook: bool,
    /// The Serde `deserialize_with` path, if any.
    pub custom_deserializer: Option<&'static str>,
    /// Whether the field borrows from the input (`#[serde(borrow)]` or a borrowed lifetime).
    pub borrowed: bool,
    /// Whether the field names a Serde `deserialize_with` or `with` function itself.
    pub explicit_deserializer: bool,
    /// The element of the field's `Cow` type, if it has one.
    pub cow_element: CowElement,
    /// The field type's name, which labels an opaque shape.
    pub type_label: &'static str,
}

/// The serialization attributes of one enum variant.
#[derive(Clone, Copy, Debug, Eq, PartialEq)]
pub struct SerializeVariantAttrs {
    /// The Rust variant name.
    pub rust_name: &'static str,
    /// The Serde serialize name, after rename rules.
    pub name: &'static str,
    /// The variant's documentation, if any.
    pub description: Option<&'static str>,
    /// The variant's field style.
    pub style: FieldsStyle,
    /// Whether the variant is skipped when serializing.
    pub skip: bool,
    /// Whether the variant is individually untagged.
    pub untagged: bool,
    /// Whether a `serde_shape` serialization hook is given.
    pub shape_hook: bool,
    /// The Serde `serialize_with` path, if any.
    pub custom_serializer: Option<&'static str>,
    /// The enum's name, which labels an opaque shape.
    pub type_label: &'static str,
}

/// The deserialization attributes of one enum variant.
#[derive(Clone, Debug, Eq, PartialEq)]
pub struct DeserializeVariantAttrs {
    /// The Rust variant name.
    pub rust_name: &'static str,
    /// The Serde deserialize name, after rename rules.
    pub name: &'static str,
    /// Every accepted name, the deserialize name included.
    pub aliases: Vec<&'static str>,
    /// The variant's documentation, if any.
    pub description: Option<&'static str>,
    /// The variant's field style.
    pub style: FieldsStyle,
    /// Whether the variant is skipped when deserializing.
    pub skip: bool,
    /// Whether this is the `other` catch-all variant.
    pub other: bool,
    /// Whether the variant is individually untagged.
    pub untagged: bool,
    /// Whether a `serde_shape` deserialization hook is given.
    pub shape_hook: bool,
    /// The Serde `deserialize_with` path, if any.
    pub custom_deserializer: Option<&'static str>,
    /// The enum's name, which labels an opaque shape.
    pub type_label: &'static str,
}

/// Serde's enum tag attribute.
#[derive(Clone, Copy, Debug, Eq, PartialEq)]
pub enum TagType {
    /// No tag attribute: externally tagged.
    External,
    /// `#[serde(tag = "...")]`.
    Internal {
        /// The tag field name.
        tag: &'static str,
    },
    /// `#[serde(tag = "...", content = "...")]`.
    Adjacent {
        /// The tag field name.
        tag: &'static str,
        /// The content field name.
        content: &'static str,
    },
    /// `#[serde(untagged)]`.
    Untagged,
}

/// Serde's identifier attribute on an enum.
#[derive(Clone, Copy, Debug, Eq, PartialEq)]
pub enum Identifier {
    /// No identifier attribute.
    No,
    /// `#[serde(field_identifier)]`.
    Field,
    /// `#[serde(variant_identifier)]`.
    Variant,
}

/// The serialization attributes of a container.
#[derive(Clone, Copy, Debug, Eq, PartialEq)]
pub struct SerializeContainerAttrs {
    /// Whether the Rust item is marked `#[non_exhaustive]`.
    pub non_exhaustive: bool,
    /// The enum tag attribute.
    pub tag: TagType,
}

/// The deserialization attributes of a container.
#[derive(Clone, Copy, Debug, Eq, PartialEq)]
pub struct DeserializeContainerAttrs {
    /// Whether unknown fields are rejected.
    pub deny_unknown_fields: bool,
    /// The default used for missing fields.
    pub default: DefaultShape,
    /// The Serde expectation text, if any.
    pub expecting: Option<&'static str>,
    /// Whether the Rust item is marked `#[non_exhaustive]`.
    pub non_exhaustive: bool,
    /// Whether the container is `#[serde(transparent)]`.
    pub transparent: bool,
    /// The enum tag attribute.
    pub tag: TagType,
    /// The enum identifier attribute.
    pub identifier: Identifier,
}

/// The form of a container's data.
#[derive(Clone, Copy, Debug, Eq, PartialEq)]
pub enum ContainerData {
    /// A struct with this field style.
    Struct(FieldsStyle),
    /// An enum.
    Enum,
}

/// Where a container's whole shape comes from.
#[derive(Clone, Copy, Debug, Eq, PartialEq)]
pub enum BodySource {
    /// A container-level `serde_shape` hook supplies it.
    Hook,
    /// Serde converts through another type (`into`, `from` or `try_from`), whose shape applies.
    Conversion,
    /// A named definition is built from the container's fields or variants.
    Definition,
}

/// Where the value shape of a serialized field comes from: nothing when it is skipped, then a
/// hook, then an opaque shape for a custom serializer, and otherwise the field type.
pub open spec fn serialize_value_source_of(f: SerializeFieldAttrs) -> ValueSource {
    if f.skip {
        ValueSource::Omitted
    } else if f.shape_hook {
        ValueSource::Hook
    } else if f.custom_serializer is Some {
        ValueSource::Custom(
            OpaqueShape {
                type_label: f.type_label,
                reason: OpaqueReason::CustomSerializer,
                detail: f.custom_serializer,
            },
        )
    } else {
        ValueSource::Derived
    }
}

/// Serde borrows a `Cow` field as a string or bytes when it borrows, names no deserializer of
/// its own, and its element is `str` or `[u8]`.
pub open spec fn borrowed_cow_of(f: DeserializeFieldAttrs) -> Option<CowElement> {
    if f.borrowed && !f.explicit_deserializer && (f.cow_element is Str || f.cow_element is Bytes) {
        Some(f.cow_element)
    } else {
        None
    }
}

/// Where the value shape of a deserialized field comes from: nothing when it is skipped, then a
/// hook, then a borrowed string or bytes, then an opaque shape for a custom deserializer, and
/// otherwise the field type.
pub open spec fn deserialize_value_source_of(f: DeserializeFieldAttrs) -> ValueSource {
    if f.skip {
        ValueSource::Omitted
    } else if f.shape_hook {
        ValueSource::Hook
    } else if borrowed_cow_of(f) is Some {
        ValueSource::Borrowed(borrowed_cow_of(f)->0)
    } else if f.custom_deserializer is Some {
        ValueSource::Custom(
            OpaqueShape {
                type_label: f.type_label,
                reason: OpaqueReason::CustomDeserializer,
                detail: f.custom_deserializer,
            },
        )
    } else {
        ValueSource::Derived
    }
}

/// The value shape a source gives, where `value` is what the hook or the field type built.
pub open spec fn source_value(source: ValueSource, value: ShapeRef) -> ShapeRef {
    match source {
        ValueSource::Custom(opaque) => ShapeRef::Opaque(opaque),
        ValueSource::Borrowed(CowElement::Bytes) => ShapeRef::Bytes,
        ValueSource::Borrowed(_) => ShapeRef::String,
        _ => value,
    }
}

/// A field's wire shape: omitted, or its value inline for a transparent field, flattened for a
/// flattened one, and a regular value otherwise.
pub open spec fn wire_shape_of(source: ValueSource, transparent: bool, flatten: bool, value: ShapeRef) -> FieldWireShape {
    if source is Omitted {
        FieldWireShape::Omitted
    } else if transparent {
        FieldWireShape::Inline(source_value(source, value))
    } else if flatten {
        FieldWireShape::Flatten(source_value(source, value))
    } else {
        FieldWireShape::Value(source_value(source, value))
    }
}

/// Where the content of a serialized variant comes from.
pub open spec fn serialize_variant_source_of(v: SerializeVariantAttrs) -> ValueSource {
    if v.skip {
        ValueSource::Omitted
    } else if v.shape_hook {
        ValueSource::Hook
    } else if v.custom_serializer is Some {
        ValueSource::Custom(
            OpaqueShape {
                type_label: v.type_label,
                reason: OpaqueReason::CustomSerializer,
                detail: v.custom_serializer,
            },
        )
    } else {
        ValueSource::Derived
    }
}

/// Where the content of a deserialized variant comes from.
pub open spec fn deserialize_variant_source_of(v: DeserializeVariantAttrs) -> ValueSource {
    if v.skip {
        ValueSource::Omitted
    } else if v.shape_hook {
        ValueSource::Hook
    } else if v.custom_deserializer is Some {
        ValueSource::Custom(
            OpaqueShape {
                type_label: v.type_label,
                reason: OpaqueReason::CustomDeserializer,
                detail: v.custom_deserializer,
            },
        )
    } else {
        ValueSource::Derived
    }
}

/// The tagging a tag attribute gives.
pub open spec fn tagging_of(tag: TagType) -> Tagging {
    match tag {
        TagType::External => Tagging::External,
        TagType::Internal { tag } => Tagging::Internal { tag },
        TagType::Adjacent { tag, content } => Tagging::Adjacent { tag, content },
        TagType::Untagged => Tagging::Untagged,
    }
}

/// The tagging of a deserialized enum: an identifier attribute wins over the tag attribute.
pub open spec fn deserialize_tagging_of(identifier: Identifier, tag: TagType) -> Tagging {
    match identifier {
        Identifier::No => tagging_of(tag),
        Identifier::Field => Tagging::FieldIdentifier,
        Identifier::Variant => Tagging::VariantIdentifier,
    }
}

/// Where a container's shape comes from: a hook first, then a conversion type, and otherwise a
/// named definition.
pub open spec fn body_source_of(shape_hook: bool, conversion: bool) -> BodySource {
    if shape_hook {
        BodySource::Hook
    } else if conversion {
        BodySource::Conversion
    } else {
        BodySource::Definition
    }
}

/// Where the value shape of a serialized field comes from.
pub fn serialize_value_source(f: &SerializeFieldAttrs) -> (r: ValueSource)
    ensures
        r == serialize_value_source_of(*f),
{
    if f.skip {
        ValueSource::Omitted
    } else if f.shape_hook {
        ValueSource::Hook
    } else if f.custom_serializer.is_some() {
        ValueSource::Custom(
            OpaqueShape {
                type_label: f.type_label,
                reason: OpaqueReason::CustomSerializer,
                detail: f.custom_serializer,
            },
        )
    } else {
        ValueSource::Derived
    }
}

/// The element Serde borrows a `Cow` field as, if it borrows one.
pub fn borrowed_cow_shape(f: &DeserializeFieldAttrs) -> (r: Option<CowElement>)
    ensures
        r == borrowed_cow_of(*f),
{
    let element_borrows = match f.cow_element {
        CowElement::Str => true,
        CowElement::Bytes => true,
        _ => false,
    };
    if f.borrowed && !f.explicit_deserializer && element_borrows {
        Some(f.cow_element)
    } else {
        None
    }
}

/// Where the value shape of a deserialized field comes from.
pub fn deserialize_value_source(f: &DeserializeFieldAttrs) -> (r: ValueSource)
    ensures
        r == deserialize_value_source_of(*f),
{
    if f.skip {
        ValueSource::Omitted
    } else if f.shape_hook {
        ValueSource::Hook
    } else {
        match borrowed_cow_shape(f) {
            Some(element) => ValueSource::Borrowed(element),
            None => {
                if f.custom_deserializer.is_some() {
                    ValueSource::Custom(
                        OpaqueShape {
                            type_label: f.type_label,
                            reason: OpaqueReason::CustomDeserializer,
                            detail: f.custom_deserializer,
                        },
                    )
                } else {
                    ValueSource::Derived
                }
            },
        }
    }
}

/// The value shape of a source, where `value` is what the hook or the field type built.
fn value_from_source(source: ValueSource, value: ShapeRef) -> (r: ShapeRef)
    ensures
        r == source_value(source, value),
{
    match source {
        ValueSource::Custom(opaque) => ShapeRef::Opaque(opaque),
        ValueSource::Borrowed(CowElement::Bytes) => ShapeRef::Bytes,
        ValueSource::Borrowed(_) => ShapeRef::String,
        _ => value,
    }
}

/// The wire shape of a field whose value comes from `source`.
fn wire_shape(source: ValueSource, transparent: bool, flatten: bool, value: ShapeRef) -> (r: FieldWireShape)
    ensures
        r == wire_shape_of(source, transparent, flatten, value),
{
    let omitted = match source {
        ValueSource::Omitted => true,
        _ => false,
    };
    if omitted {
        FieldWireShape::Omitted
    } else if transparent {
        FieldWireShape::Inline(value_from_source(source, value))
    } else if flatten {
        FieldWireShape::Flatten(value_from_source(source, value))
    } else {
        FieldWireShape::Value(value_from_source(source, value))
    }
}

/// The serialized shape of a field, where `value` is what its hook or its type built; it is not
/// used when the field is skipped or has a custom serializer.
pub fn serialize_field_shape(f: &SerializeFieldAttrs, value: ShapeRef) -> (r: SerializeFieldShape)
    ensures
        r.member == f.member,
        r.name == f.name,
        r.description == f.description,
        r.wire_shape == wire_shape_of(serialize_value_source_of(*f), f.transparent, f.flatten, value),
        r.skip_if == f.skip_if,
{
    let source = serialize_value_source(f);
    SerializeFieldShape {
        member: f.member,
        name: f.name,
        description: f.description,
        wire_shape: wire_shape(source, f.transparent, f.flatten, value),
        skip_if: f.skip_if,
    }
}

/// The deserialized shape of a field, where `value` is what its hook or its type built; it is
/// not used when the field is skipped, borrowed as a string or bytes, or has a custom
/// deserializer.
pub fn deserialize_field_shape(f: DeserializeFieldAttrs, value: ShapeRef) -> (r: DeserializeFieldShape)
    ensures
        r.member == f.member,
        r.name == f.name,
        r.aliases@ == f.aliases@,
        r.description == f.description,
        r.wire_shape == wire_shape_of(deserialize_value_source_of(f), f.transparent, f.flatten, value),
        r.default == f.default,
{
    let source = deserialize_value_source(&f);
    let wire = wire_shape(source, f.transparent, f.flatten, value);
    DeserializeFieldShape {
        member: f.member,
        name: f.name,
        aliases: f.aliases,
        description: f.description,
        wire_shape: wire,
        default: f.default,
    }
}

/// Where the content of a serialized variant comes from.
pub fn serialize_variant_source(v: &SerializeVariantAttrs) -> (r: ValueSource)
    ensures
        r == serialize_variant_source_of(*v),
{
    if v.skip {
        ValueSource::Omitted
    } else if v.shape_hook {
        ValueSource::Hook
    } else if v.custom_serializer.is_some() {
        ValueSource::Custom(
            OpaqueShape {
                type_label: v.type_label,
                reason: OpaqueReason::CustomSerializer,
                detail: v.custom_serializer,
            },
        )
    } else {
        ValueSource::Derived
    }
}

/// Where the content of a deserialized variant comes from.
pub fn deserialize_variant_source(v: &DeserializeVariantAttrs) -> (r: ValueSource)
    ensures
        r == deserialize_variant_source_of(*v),
{
    if v.skip {
        ValueSource::Omitted
    } else if v.shape_hook {
        ValueSource::Hook
    } else if v.custom_deserializer.is_some() {
        ValueSource::Custom(
            OpaqueShape {
                type_label: v.type_label,
                reason: OpaqueReason::CustomDeserializer,
                detail: v.custom_deserializer,
            },
        )
    } else {
        ValueSource::Derived
    }
}

/// The serialized shape of a variant, where `hook_shape` is what its hook built (used only when
/// it has one) and `fields` its derived fields (used only when its content is derived).
pub fn serialize_variant_shape(
    v: &SerializeVariantAttrs,
    hook_shape: ShapeRef,
    fields: Vec<SerializeFieldShape>,
) -> (r: SerializeVariantShape)
    ensures
        r.rust_name == v.rust_name,
        r.name == v.name,
        r.description == v.description,
        r.style == v.style,
        r.untagged == v.untagged,
        match serialize_variant_source_of(*v) {
            ValueSource::Omitted => r.content is Omitted,
            ValueSource::Hook => r.content == SerializeVariantContent::Shape(hook_shape),
            ValueSource::Custom(opaque) => r.content == SerializeVariantContent::Custom(opaque),
            _ => r.content == SerializeVariantContent::Fields(fields),
        },
{
    let content = match serialize_variant_source(v) {
        ValueSource::Omitted => SerializeVariantContent::Omitted,
        ValueSource::Hook => SerializeVariantContent::Shape(hook_shape),
        ValueSource::Custom(opaque) => SerializeVariantContent::Custom(opaque),
        _ => SerializeVariantContent::Fields(fields),
    };
    SerializeVariantShape {
        rust_name: v.rust_name,
        name: v.name,
        description: v.description,
        style: v.style,
        content,
        untagged: v.untagged,
    }
}

/// The deserialized shape of a variant, where `hook_shape` is what its hook built (used only
/// when it has one) and `fields` its derived fields (used only when its content is derived).
pub fn deserialize_variant_shape(
    v: DeserializeVariantAttrs,
    hook_shape: ShapeRef,
    fields: Vec<DeserializeFieldShape>,
) -> (r: DeserializeVariantShape)
    ensures
        r.rust_name == v.rust_name,
        r.name == v.name,
        r.aliases@ == v.aliases@,
        r.description == v.description,
        r.style == v.style,
        r.other == v.other,
        r.untagged == v.untagged,
        match deserialize_variant_source_of(v) {
            ValueSource::Omitted => r.content is Omitted,
            ValueSource::Hook => r.content == DeserializeVariantContent::Shape(hook_shape),
            ValueSource::Custom(opaque) => r.content == DeserializeVariantContent::Custom(opaque),
            _ => r.content == DeserializeVariantContent::Fields(fields),
        },
{
    let content = match deserialize_variant_source(&v) {
        ValueSource::Omitted => DeserializeVariantContent::Omitted,
        ValueSource::Hook => DeserializeVariantContent::Shape(hook_shape),
        ValueSource::Custom(opaque) => DeserializeVariantContent::Custom(opaque),
        _ => DeserializeVariantContent::Fields(fields),
    };
    DeserializeVariantShape {
        rust_name: v.rust_name,
        name: v.name,
        aliases: v.aliases,
        description: v.description,
        style: v.style,
        content,
        other: v.other,
        untagged: v.untagged,
    }
}

/// The tagging a tag attribute gives.
pub fn tagging(tag: TagType) -> (r: Tagging)
    ensures
        r == tagging_of(tag),
{
    match tag {
        TagType::External => Tagging::External,
        TagType::Internal { tag } => Tagging::Internal { tag },
        TagType::Adjacent { tag, content } => Tagging::Adjacent { tag, content },
        TagType::Untagged => Tagging::Untagged,
    }
}

/// The tagging of a deserialized enum.
pub fn deserialize_tagging(identifier: Identifier, tag: TagType) -> (r: Tagging)
    ensures
        r == deserialize_tagging_of(identifier, tag),
{
    match identifier {
        Identifier::No => tagging(tag),
        Identifier::Field => Tagging::FieldIdentifier,
        Identifier::Variant => Tagging::VariantIdentifier,
    }
}

/// The serialized container attributes.
pub fn serialize_container_attributes(c: &SerializeContainerAttrs) -> (r: SerializeContainerAttributes)
    ensures
        r.non_exhaustive == c.non_exhaustive,
{
    SerializeContainerAttributes { non_exhaustive: c.non_exhaustive }
}

/// The deserialized container attributes.
pub fn deserialize_container_attributes(c: &DeserializeContainerAttrs) -> (r: DeserializeContainerAttributes)
    ensures
        r.deny_unknown_fields == c.deny_unknown_fields,
        r.default == c.default,
        r.expecting == c.expecting,
        r.non_exhaustive == c.non_exhaustive,
        r.transparent == c.transparent,
{
    DeserializeContainerAttributes {
        deny_unknown_fields: c.deny_unknown_fields,
        default: c.default,
        expecting: c.expecting,
        non_exhaustive: c.non_exhaustive,
        transparent: c.transparent,
    }
}

/// Where a serialized container's shape comes from, given whether it has a hook and an `into`
/// type.
pub fn serialize_body_source(shape_hook: bool, type_into: bool) -> (r: BodySource)
    ensures
        r == body_source_of(shape_hook, type_into),
{
    if shape_hook {
        BodySource::Hook
    } else if type_into {
        BodySource::Conversion
    } else {
        BodySource::Definition
    }
}

/// Where a deserialized container's shape comes from, given whether it has a hook and a `from`
/// or `try_from` type.
pub fn deserialize_body_source(shape_hook: bool, type_from: bool, type_try_from: bool) -> (r: BodySource)
    ensures
        r == body_source_of(shape_hook, type_from || type_try_from),
{
    if shape_hook {
        BodySource::Hook
    } else if type_from || type_try_from {
        BodySource::Conversion
    } else {
        BodySource::Definition
    }
}

/// The serialized body of a container's definition: a struct of `fields` in the struct's style,
/// or an enum of `variants` tagged as the tag attribute says.
pub fn serialize_definition_kind(
    c: &SerializeContainerAttrs,
    data: ContainerData,
    fields: Vec<SerializeFieldShape>,
    variants: Vec<SerializeVariantShape>,
) -> (r: SerializeDefinitionKind)
    ensures
        match data {
            ContainerData::Struct(style) => r matches SerializeDefinitionKind::Struct(body)
                && body.style == style && body.fields == fields
                && body.attributes.non_exhaustive == c.non_exhaustive,
            ContainerData::Enum => r matches SerializeDefinitionKind::Enum(body)
                && body.repr == tagging_of(c.tag) && body.variants == variants
                && body.attributes.non_exhaustive == c.non_exhaustive,
        },
{
    let attributes = serialize_container_attributes(c);
    match data {
        ContainerData::Struct(style) => SerializeDefinitionKind::Struct(
            SerializeStructShape { style, fields, attributes },
        ),
        ContainerData::Enum => SerializeDefinitionKind::Enum(
            SerializeEnumShape { repr: tagging(c.tag), variants, attributes },
        ),
    }
}

/// The deserialized body of a container's definition: a struct of `fields` in the struct's
/// style, or an enum of `variants` tagged as the identifier and tag attributes say.
pub fn deserialize_definition_kind(
    c: &DeserializeContainerAttrs,
    data: ContainerData,
    fields: Vec<DeserializeFieldShape>,
    variants: Vec<DeserializeVariantShape>,
) -> (r: DeserializeDefinitionKind)
    ensures
        match data {
            ContainerData::Struct(style) => r matches DeserializeDefinitionKind::Struct(body)
                && body.style == style && body.fields == fields
                && body.attributes.deny_unknown_fields == c.deny_unknown_fields
                && body.attributes.default == c.default
                && body.attributes.expecting == c.expecting
                && body.attributes.non_exhaustive == c.non_exhaustive
                && body.attributes.transparent == c.transparent,
            ContainerData::Enum => r matches DeserializeDefinitionKind::Enum(body)
                && body.repr == deserialize_tagging_of(c.identifier, c.tag)
                && body.variants == variants
                && body.attributes.deny_unknown_fields == c.deny_unknown_fields
                && body.attributes.default == c.default
                && body.attributes.expecting == c.expecting
                && body.attributes.non_exhaustive == c.non_exhaustive
                && body.attributes.transparent == c.transparent,
        },
{
    let attributes = deserialize_container_attributes(c);
    match data {
        ContainerData::Struct(style) => DeserializeDefinitionKind::Struct(
            DeserializeStructShape { style, fields, attributes },
        ),
        ContainerData::Enum => DeserializeDefinitionKind::Enum(
            DeserializeEnumShape {
                repr: deserialize_tagging(c.identifier, c.tag),
                variants,
                attributes,
            },
        ),
    }
}

// ---------------------------------------------------------------------------------------------
// Laws of field and variant planning

/// The value shape that a wire shape carries, if any.
pub open spec fn carried_shape(w: FieldWireShape) -> Option<ShapeRef> {
    match w {
        FieldWireShape::Omitted => None,
        FieldWireShape::Value(s) => Some(s),
        FieldWireShape::Flatten(s) => Some(s),
        FieldWireShape::Inline(s) => Some(s),
    }
}

/// Whether a wire shape sits where a field's placement attributes put it: inline for a
/// transparent field, flattened for a flattened one, and a regular value otherwise.
pub open spec fn placed_as(w: FieldWireShape, transparent: bool, flatten: bool) -> bool {
    if transparent {
        w is Inline
    } else if flatten {
        w is Flatten
    } else {
        w is Value
    }
}

/// What a deserialized field carries, for every set of attributes: a skipped field carries
/// nothing; otherwise a `serde_shape` hook decides the value, whatever Serde custom
/// deserializer the field also names; then a borrowed `Cow<'a, str>` or `Cow<'a, [u8]>` is a
/// string or bytes; then a Serde custom deserializer is an opaque boundary naming it; and
/// otherwise the field's type decides. A field that carries a value sits where its placement
/// attributes put it.
pub proof fn law_deserialized_field_follows_its_attributes(f: DeserializeFieldAttrs, value: ShapeRef)
    ensures
        ({
            let w = wire_shape_of(deserialize_value_source_of(f), f.transparent, f.flatten, value);
            let borrows = f.borrowed && !f.explicit_deserializer;
            &&& f.skip ==> w == FieldWireShape::Omitted
            &&& !f.skip ==> placed_as(w, f.transparent, f.flatten)
            &&& !f.skip && f.shape_hook ==> carried_shape(w) == Some(value)
            &&& !f.skip && !f.shape_hook && borrows && f.cow_element == CowElement::Str
                ==> carried_shape(w) == Some(ShapeRef::String)
            &&& !f.skip && !f.shape_hook && borrows && f.cow_element == CowElement::Bytes
                ==> carried_shape(w) == Some(ShapeRef::Bytes)
            &&& !f.skip && !f.shape_hook && !(borrows && (f.cow_element == CowElement::Str
                || f.cow_element == CowElement::Bytes)) && f.custom_deserializer is Some
                ==> carried_shape(w) == Some(
                ShapeRef::Opaque(
                    OpaqueShape {
                        type_label: f.type_label,
                        reason: OpaqueReason::CustomDeserializer,
                        detail: f.custom_deserializer,
                    },
                ),
            )
            &&& !f.skip && !f.shape_hook && !(borrows && (f.cow_element == CowElement::Str
                || f.cow_element == CowElement::Bytes)) && f.custom_deserializer is None
                ==> carried_shape(w) == Some(value)
        }),
{
}

/// What a serialized field carries, for every set of attributes: a skipped field carries
/// nothing; otherwise a `serde_shape` hook decides the value, whatever Serde custom serializer
/// the field also names; then a Serde custom serializer is an opaque boundary naming it; and
/// otherwise the field's type decides. A field that carries a value sits where its placement
/// attributes put it.
pub proof fn law_serialized_field_follows_its_attributes(f: SerializeFieldAttrs, value: ShapeRef)
    ensures
        ({
            let w = wire_shape_of(serialize_value_source_of(f), f.transparent, f.flatten, value);
            &&& f.skip ==> w == FieldWireShape::Omitted
            &&& !f.skip ==> placed_as(w, f.transparent, f.flatten)
            &&& !f.skip && f.shape_hook ==> carried_shape(w) == Some(value)
            &&& !f.skip && !f.shape_hook && f.custom_serializer is Some ==> carried_shape(w) == Some(
                ShapeRef::Opaque(
                    OpaqueShape {
                        type_label: f.type_label,
                        reason: OpaqueReason::CustomSerializer,
                        detail: f.custom_serializer,
                    },
                ),
            )
            &&& !f.skip && !f.shape_hook && f.custom_serializer is None ==> carried_shape(w) == Some(
                value,
            )
        }),
{
}

/// Where a variant's content comes from, in both directions: a skipped variant has none; a
/// `serde_shape` hook decides it, whatever Serde custom function the variant also names; then
/// a custom function is an opaque boundary naming it; and otherwise the variant's fields do.
pub proof fn law_variant_content_follows_its_attributes(
    s: SerializeVariantAttrs,
    d: DeserializeVariantAttrs,
)
    ensures
        s.skip ==> serialize_variant_source_of(s) is Omitted,
        !s.skip && s.shape_hook ==> serialize_variant_source_of(s) is Hook,
        !s.skip && !s.shape_hook && s.custom_serializer is Some ==> serialize_variant_source_of(s)
            == ValueSource::Custom(
            OpaqueShape {
                type_label: s.type_label,
                reason: OpaqueReason::CustomSerializer,
                detail: s.custom_serializer,
            },
        ),
        !s.skip && !s.shape_hook && s.custom_serializer is None ==> serialize_variant_source_of(s)
            is Derived,
        d.skip ==> deserialize_variant_source_of(d) is Omitted,
        !d.skip && d.shape_hook ==> deserialize_variant_source_of(d) is Hook,
        !d.skip && !d.shape_hook && d.custom_deserializer is Some ==> deserialize_variant_source_of(
            d,
        ) == ValueSource::Custom(
            OpaqueShape {
                type_label: d.type_label,
                reason: OpaqueReason::CustomDeserializer,
                detail: d.custom_deserializer,
            },
        ),
        !d.skip && !d.shape_hook && d.custom_deserializer is None ==> deserialize_variant_source_of(
            d,
        ) is Derived,
{
}

/// The tagging of an enum keeps the names its tag attribute gives, each in its own role, and a
/// deserialized enum's identifier attribute overrides its tag attribute.
pub proof fn law_tagging_keeps_the_attribute(tag: TagType)
    ensures
        (tag is External ==> tagging_of(tag) == Tagging::External),
        (tag matches TagType::Internal { tag: name } ==> tagging_of(tag) == (Tagging::Internal {
            tag: name,
        })),
        (tag matches TagType::Adjacent { tag: name, content } ==> tagging_of(tag)
            == (Tagging::Adjacent { tag: name, content })),
        (tag is Untagged ==> tagging_of(tag) == Tagging::Untagged),
        deserialize_tagging_of(Identifier::No, tag) == tagging_of(tag),
        deserialize_tagging_of(Identifier::Field, tag) == Tagging::FieldIdentifier,
        deserialize_tagging_of(Identifier::Variant, tag) == Tagging::VariantIdentifier,
{
}

/// A container's shape comes from its hook whenever it has one, from its conversion type when it
/// has that and no hook, and from a definition of its own only when it has neither.
pub proof fn law_container_shape_source(conversion: bool)
    ensures
        body_source_of(true, conversion) == BodySource::Hook,
        body_source_of(false, true) == BodySource::Conversion,
        body_source_of(false, false) == BodySource::Definition,
{
}

/// Serde borrows a `Cow` field exactly when the field borrows, names no deserializer of its own,
/// and its element is `str` or `[u8]`, and then as that element.
pub proof fn law_borrowed_cow_fields(f: DeserializeFieldAttrs)
    ensures
        borrowed_cow_of(f) is Some <==> (f.borrowed && !f.explicit_deserializer && (f.cow_element
            == CowElement::Str || f.cow_element == CowElement::Bytes)),
        (borrowed_cow_of(f) matches Some(element) ==> element == f.cow_element),
{
}

} // verus!
