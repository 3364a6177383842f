//! Named definitions: the struct and enum bodies that shape graphs store and reference by id.
use vstd::prelude::*;

use crate::shape::{OpaqueShape, ShapeId, ShapeRef};

verus! {

/// Names associated with a Rust type and one direction of its Serde representation.
#[derive(Clone, Copy, Debug, Eq, PartialEq)]
pub struct TypeName {
    /// The Rust type name, the graph-local part of a definition's identity.
    pub rust_name: &'static str,
    /// The direction-specific Serde name after container rename rules are applied.
    pub name: &'static str,
}

impl TypeName {
    /// Build names for `T` and one direction-specific Serde container name.
    ///
    /// The Serde name also serves as the Rust name: the definition identity that
    /// [`crate::SerializeShapeContext::define_named_type`] uses already tells builders of
    /// different types apart.
    pub fn of<T: ?Sized>(name: &'static str) -> (r: Self)
        ensures
            r.name == name,
            r.rust_name == name,
    {
        TypeName { rust_name: name, name }
    }
}

/// A named type definition in a serialization shape graph.
#[derive(Clone, Debug, Eq, PartialEq)]
pub struct SerializeDefinitionShape {
    /// The stable id of this definition inside its graph.
    pub id: ShapeId,
    /// The Rust and Serde names for this definition.
    pub type_names: TypeName,
    /// User-facing documentation for this definition, if available.
    pub description: Option<&'static str>,
    /// The definition body.
    pub kind: SerializeDefinitionKind,
}

/// A named type definition in a deserialization shape graph.
#[derive(Clone, Debug, Eq, PartialEq)]
pub struct DeserializeDefinitionShape {
    /// The stable id of this definition inside its graph.
    pub id: ShapeId,
    /// The Rust and Serde names for this definition.
    pub type_names: TypeName,
    /// User-facing documentation for this definition, if available.
    pub description: Option<&'static str>,
    /// The definition body.
    pub kind: DeserializeDefinitionKind,
}

/// The body of a named serialization definition.
#[derive(Clone, Debug, Eq, PartialEq)]
pub enum SerializeDefinitionKind {
    /// Struct-like Serde output.
    Struct(SerializeStructShape),
    /// Enum-like Serde output.
    Enum(SerializeEnumShape),
    /// Output shape that cannot be inferred faithfully.
    Opaque(OpaqueShape),
}

/// The body of a named deserialization definition.
#[derive(Clone, Debug, Eq, PartialEq)]
pub enum DeserializeDefinitionKind {
    /// Struct-like Serde input.
    Struct(DeserializeStructShape),
    /// Enum-like Serde input.
    Enum(DeserializeEnumShape),
    /// Input shape that cannot be inferred faithfully.
    Opaque(OpaqueShape),
}

/// Serde attributes that apply to a whole serialized container.
///
/// [`Default`] represents a container with every optional behavior disabled. Enum tagging is
/// recorded once in [`SerializeEnumShape::repr`], and flattened fields are identified by
/// [`FieldWireShape::Flatten`].
#[derive(Clone, Copy, Debug, Eq, PartialEq)]
pub struct SerializeContainerAttributes {
    /// Whether the Rust item is marked `#[non_exhaustive]`.
    pub non_exhaustive: bool,
}

impl Default for SerializeContainerAttributes {
    fn default() -> (r: Self)
        ensures
            !r.non_exhaustive,
    {
        SerializeContainerAttributes { non_exhaustive: false }
    }
}

/// Serde attributes that apply to a whole deserialized container.
///
/// [`Default`] represents a container with no default, expectation, or optional behavior
/// configured. Enum tagging is recorded once in [`DeserializeEnumShape::repr`], and flattened
/// fields are identified by [`FieldWireShape::Flatten`].
#[derive(Clone, Copy, Debug, Eq, PartialEq)]
pub struct DeserializeContainerAttributes {
    /// Whether unknown fields are rejected.
    pub deny_unknown_fields: bool,
    /// The default used for missing fields.
    pub default: DefaultShape,
    /// Custom Serde expectation text, if present.
    pub expecting: Option<&'static str>,
    /// Whether the Rust item is marked `#[non_exhaustive]`.
    pub non_exhaustive: bool,
    /// Whether the container is `#[serde(transparent)]`.
    pub transparent: bool,
}

impl Default for DeserializeContainerAttributes {
    fn default() -> (r: Self)
        ensures
            !r.deny_unknown_fields,
            r.default is Unset,
            r.expecting is None,
            !r.non_exhaustive,
            !r.transparent,
    {
        DeserializeContainerAttributes {
            deny_unknown_fields: false,
            default: DefaultShape::Unset,
            expecting: None,
            non_exhaustive: false,
            transparent: false,
        }
    }
}

/// Serde container or enum tagging representation.
///
/// [`Default`] is [`Tagging::External`].
#[derive(Clone, Copy, Debug, Eq, PartialEq)]
pub enum Tagging {
    /// The default externally tagged representation.
    External,
    /// `#[serde(tag = "...")]`.
    Internal {
        /// The tag field name.
        tag: &'static str,
    },
    /// `#[serde(tag = "...", content = "...")]`.
    Adjacent {
        /// The tag field name.
        tag: &'static str,
        /// The content field name.
        content: &'static str,
    },
    /// `#[serde(untagged)]`.
    Untagged,
    /// `#[serde(field_identifier)]`, accepted only during deserialization.
    FieldIdentifier,
    /// `#[serde(variant_identifier)]`, accepted only during deserialization.
    VariantIdentifier,
}

impl Default for Tagging {
    fn default() -> (r: Self)
        ensures
            r is External,
    {
        Tagging::External
    }
}

/// Struct-like serialization metadata.
#[derive(Clone, Debug, Eq, PartialEq)]
pub struct SerializeStructShape {
    /// The struct field style.
    pub style: FieldsStyle,
    /// The serialized fields.
    pub fields: Vec<SerializeFieldShape>,
    /// Container-level Serde serialization attributes.
    pub attributes: SerializeContainerAttributes,
}

/// Struct-like deserialization metadata.
#[derive(Clone, Debug, Eq, PartialEq)]
pub struct DeserializeStructShape {
    /// The struct field style.
    pub style: FieldsStyle,
    /// The accepted deserialization fields.
    pub fields: Vec<DeserializeFieldShape>,
    /// Container-level Serde deserialization attributes.
    pub attributes: DeserializeContainerAttributes,
}

/// Enum-like serialization metadata.
#[derive(Clone, Debug, Eq, PartialEq)]
pub struct SerializeEnumShape {
    /// The enum representation.
    pub repr: Tagging,
    /// The serialized variants.
    pub variants: Vec<SerializeVariantShape>,
    /// Container-level Serde serialization attributes.
    pub attributes: SerializeContainerAttributes,
}

/// Enum-like deserialization metadata.
#[derive(Clone, Debug, Eq, PartialEq)]
pub struct DeserializeEnumShape {
    /// The enum representation.
    pub repr: Tagging,
    /// The accepted deserialization variants.
    pub variants: Vec<DeserializeVariantShape>,
    /// Container-level Serde deserialization attributes.
    pub attributes: DeserializeContainerAttributes,
}

/// The style of a struct, variant, or tuple field list.
#[derive(Clone, Copy, Debug, Eq, PartialEq)]
pub enum FieldsStyle {
    /// Named fields.
    Struct,
    /// Multiple unnamed fields.
    Tuple,
    /// One unnamed field.
    Newtype,
    /// No fields.
    Unit,
}

/// Field-level serialization metadata.
#[derive(Clone, Debug, Eq, PartialEq)]
pub struct SerializeFieldShape {
    /// The Rust field member the field comes from.
    pub member: FieldMember,
    /// The primary Serde serialize name.
    pub name: &'static str,
    /// User-facing documentation for this field, if available.
    pub description: Option<&'static str>,
    /// How this field contributes to the serialized wire shape.
    pub wire_shape: FieldWireShape,
    /// The predicate used to skip this field during serialization, rendered as a parseable Rust
    /// path token stream. Whitespace is not normalized.
    pub skip_if: Option<&'static str>,
}

/// Field-level deserialization metadata.
#[derive(Clone, Debug, Eq, PartialEq)]
pub struct DeserializeFieldShape {
    /// The Rust field member the field comes from.
    pub member: FieldMember,
    /// The primary Serde deserialize name.
    pub name: &'static str,
    /// All accepted Serde deserialize names, including the primary name.
    pub aliases: Vec<&'static str>,
    /// User-facing documentation for this field, if available.
    pub description: Option<&'static str>,
    /// How this field contributes to the deserialized wire shape.
    pub wire_shape: FieldWireShape,
    /// The default used if this field is missing.
    pub default: DefaultShape,
}

/// The Rust member represented by a field.
#[derive(Clone, Copy, Debug, Eq, PartialEq)]
pub enum FieldMember {
    /// A named Rust field.
    Named(&'static str),
    /// An unnamed tuple field index.
    Unnamed(usize),
}

/// How a field contributes to the wire representation in one Serde direction.
#[derive(Clone, Debug, Eq, PartialEq)]
#[non_exhaustive]
pub enum FieldWireShape {
    /// The field emits or accepts no value in this direction.
    Omitted,
    /// The field appears as a regular value at its Serde position.
    Value(ShapeRef),
    /// The field is flattened into the containing map.
    Flatten(ShapeRef),
    /// The field is serialized or deserialized directly at the containing type's position.
    Inline(ShapeRef),
}

impl FieldWireShape {
    /// Return the contributed value shape, or `None` when the field is omitted.
    ///
    /// This intentionally ignores whether the value is regular, flattened, or inline. Match on
    /// the enum directly when the field's wire position matters.
    pub fn shape(&self) -> (r: Option<&ShapeRef>)
        ensures
            match *self {
                FieldWireShape::Omitted => r is None,
                FieldWireShape::Value(s) => r == Some(&s),
                FieldWireShape::Flatten(s) => r == Some(&s),
                FieldWireShape::Inline(s) => r == Some(&s),
            },
    {
        match self {
            FieldWireShape::Value(shape) => Some(shape),
            FieldWireShape::Flatten(shape) => Some(shape),
            FieldWireShape::Inline(shape) => Some(shape),
            FieldWireShape::Omitted => None,
        }
    }
}

/// Variant-level serialization metadata.
#[derive(Clone, Debug, Eq, PartialEq)]
pub struct SerializeVariantShape {
    /// The Rust name of the variant.
    pub rust_name: &'static str,
    /// The primary Serde serialize name.
    pub name: &'static str,
    /// User-facing documentation for this variant, if available.
    pub description: Option<&'static str>,
    /// The variant field style.
    pub style: FieldsStyle,
    /// How the variant contributes its serialized content.
    pub content: SerializeVariantContent,
    /// Whether this variant is individually marked untagged.
    pub untagged: bool,
}

/// The serialized content controlled by an enum variant.
#[derive(Clone, Debug, Eq, PartialEq)]
#[non_exhaustive]
pub enum SerializeVariantContent {
    /// The variant is omitted during serialization.
    Omitted,
    /// Serde derives the variant content from these fields.
    Fields(Vec<SerializeFieldShape>),
    /// A `serde_shape` hook supplies the content shape inside the enum's tagging representation.
    Shape(ShapeRef),
    /// A custom serializer controls the variant content.
    Custom(OpaqueShape),
}

/// Variant-level deserialization metadata.
#[derive(Clone, Debug, Eq, PartialEq)]
pub struct DeserializeVariantShape {
    /// The Rust name of the variant.
    pub rust_name: &'static str,
    /// The primary Serde deserialize name.
    pub name: &'static str,
    /// All accepted Serde deserialize names, including the primary name.
    pub aliases: Vec<&'static str>,
    /// User-facing documentation for this variant, if available.
    pub description: Option<&'static str>,
    /// The variant field style.
    pub style: FieldsStyle,
    /// How the variant contributes its deserialized content.
    pub content: DeserializeVariantContent,
    /// Whether this is a Serde `other` catch-all variant.
    pub other: bool,
    /// Whether this variant is individually marked untagged.
    pub untagged: bool,
}

/// The deserialized content controlled by an enum variant.
#[derive(Clone, Debug, Eq, PartialEq)]
#[non_exhaustive]
pub enum DeserializeVariantContent {
    /// The variant is omitted during deserialization.
    Omitted,
    /// Serde derives the variant content from these fields.
    Fields(Vec<DeserializeFieldShape>),
    /// A `serde_shape` hook supplies the content shape inside the enum's tagging representation.
    Shape(ShapeRef),
    /// A custom deserializer controls the variant content.
    Custom(OpaqueShape),
}

/// A Serde default marker.
///
/// [`Default`] is [`DefaultShape::Unset`].
#[derive(Clone, Copy, Debug, Eq, PartialEq)]
pub enum DefaultShape {
    /// No default is configured.
    Unset,
    /// `Default::default()` is used.
    Default,
    /// A custom default function path is used. The value is a parseable Rust path token stream;
    /// whitespace is not normalized.
    Path(&'static str),
}

impl Default for DefaultShape {
    fn default() -> (r: Self)
        ensures
            r is Unset,
    {
        DefaultShape::Unset
    }
}

impl DefaultShape {
    /// Return whether this value represents no default.
    pub fn is_none(&self) -> (r: bool)
        ensures
            r == (*self is Unset),
    {
        match self {
            DefaultShape::Unset => true,
            _ => false,
        }
    }
}

} // verus!
