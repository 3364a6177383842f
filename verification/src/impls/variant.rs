//! Enum variants, fields and struct bodies shared by the standard-library shapes.
use vstd::prelude::*;

use crate::definition::{
    DefaultShape, DeserializeContainerAttributes, DeserializeDefinitionKind,
    DeserializeFieldShape, DeserializeStructShape, DeserializeVariantContent,
    DeserializeVariantShape, FieldMember, FieldWireShape, FieldsStyle,
    SerializeContainerAttributes, SerializeDefinitionKind, SerializeFieldShape,
    SerializeStructShape, SerializeVariantContent, SerializeVariantShape,
};
use crate::model::Shape;
use crate::shape::ShapeRef;

verus! {

/// A serialized field that carries the single unnamed value of a newtype variant.
pub open spec fn is_newtype_field_out(f: SerializeFieldShape, shape: ShapeRef) -> bool {
    &&& f.member == FieldMember::Unnamed(0)
    &&& f.name == "0"
    &&& f.description is None
    &&& f.wire_shape == FieldWireShape::Value(shape)
    &&& f.skip_if is None
}

/// A deserialized field that carries the single unnamed value of a newtype variant.
pub open spec fn is_newtype_field_in(f: DeserializeFieldShape, shape: ShapeRef) -> bool {
    &&& f.member == FieldMember::Unnamed(0)
    &&& f.name == "0"
    &&& f.aliases@ == seq!["0"]
    &&& f.description is None
    &&& f.wire_shape == FieldWireShape::Value(shape)
    &&& f.default == DefaultShape::Unset
}

/// A plain serialized newtype variant named `name` whose value has `shape`.
pub open spec fn is_newtype_variant_out(v: SerializeVariantShape, name: &'static str, shape: ShapeRef) -> bool {
    &&& v.rust_name == name
    &&& v.name == name
    &&& v.description is None
    &&& v.style == FieldsStyle::Newtype
    &&& v.content matches SerializeVariantContent::Fields(fields)
    &&& fields@.len() == 1
    &&& is_newtype_field_out(fields@[0], shape)
    &&& !v.untagged
}

/// A plain deserialized newtype variant named `name`, accepted under that name alone, whose
/// value has `shape`.
pub open spec fn is_newtype_variant_in(v: DeserializeVariantShape, name: &'static str, shape: ShapeRef) -> bool {
    &&& v.rust_name == name
    &&& v.name == name
    &&& v.aliases@ == seq![name]
    &&& v.description is None
    &&& v.style == FieldsStyle::Newtype
    &&& v.content matches DeserializeVariantContent::Fields(fields)
    &&& fields@.len() == 1
    &&& is_newtype_field_in(fields@[0], shape)
    &&& !v.other
    &&& !v.untagged
}

/// The serialized newtype variant `name` carrying a value of `shape`.
pub fn serialize_newtype_variant(name: &'static str, shape: ShapeRef) -> (r: SerializeVariantShape)
    ensures
        is_newtype_variant_out(r, name, shape),
{
    let field = SerializeFieldShape {
        member: FieldMember::Unnamed(0),
        name: "0",
        description: None,
        wire_shape: FieldWireShape::Value(shape),
        skip_if: None,
    };
    SerializeVariantShape {
        rust_name: name,
        name,
        description: None,
        style: FieldsStyle::Newtype,
        content: SerializeVariantContent::Fields(vec![field]),
        untagged: false,
    }
}

/// The deserialized newtype variant `name` carrying a value of `shape`.
pub fn deserialize_newtype_variant(name: &'static str, shape: ShapeRef) -> (r: DeserializeVariantShape)
    ensures
        is_newtype_variant_in(r, name, shape),
{
    let field_aliases = vec!["0"];
    assert(field_aliases@ =~= seq!["0"]);
    let variant_aliases = vec![name];
    assert(variant_aliases@ =~= seq![name]);
    let field = DeserializeFieldShape {
        member: FieldMember::Unnamed(0),
        name: "0",
        aliases: field_aliases,
        description: None,
        wire_shape: FieldWireShape::Value(shape),
        default: DefaultShape::Unset,
    };
    DeserializeVariantShape {
        rust_name: name,
        name,
        aliases: variant_aliases,
        description: None,
        style: FieldsStyle::Newtype,
        content: DeserializeVariantContent::Fields(vec![field]),
        other: false,
        untagged: false,
    }
}

/// A plain serialized newtype variant named `name` whose value's shape has the model `m`.
pub open spec fn is_newtype_variant_of_out(v: SerializeVariantShape, name: &'static str, m: Shape) -> bool {
    exists|shape: ShapeRef| shape@ == m && #[trigger] is_newtype_variant_out(v, name, shape)
}

/// A plain deserialized newtype variant named `name` whose value's shape has the model `m`.
pub open spec fn is_newtype_variant_of_in(v: DeserializeVariantShape, name: &'static str, m: Shape) -> bool {
    exists|shape: ShapeRef| shape@ == m && #[trigger] is_newtype_variant_in(v, name, shape)
}

/// A plain serialized unit variant named `name`.
pub open spec fn is_unit_variant_out(v: SerializeVariantShape, name: &'static str) -> bool {
    &&& v.rust_name == name
    &&& v.name == name
    &&& v.description is None
    &&& v.style == FieldsStyle::Unit
    &&& v.content matches SerializeVariantContent::Fields(fields)
    &&& fields@.len() == 0
    &&& !v.untagged
}

/// A plain deserialized unit variant named `name`, accepted under that name alone.
pub open spec fn is_unit_variant_in(v: DeserializeVariantShape, name: &'static str) -> bool {
    &&& v.rust_name == name
    &&& v.name == name
    &&& v.aliases@ == seq![name]
    &&& v.description is None
    &&& v.style == FieldsStyle::Unit
    &&& v.content matches DeserializeVariantContent::Fields(fields)
    &&& fields@.len() == 0
    &&& !v.other
    &&& !v.untagged
}

/// The serialized unit variant `name`.
pub fn serialize_unit_variant(name: &'static str) -> (r: SerializeVariantShape)
    ensures
        is_unit_variant_out(r, name),
{
    let fields: Vec<SerializeFieldShape> = Vec::new();
    SerializeVariantShape {
        rust_name: name,
        name,
        description: None,
        style: FieldsStyle::Unit,
        content: SerializeVariantContent::Fields(fields),
        untagged: false,
    }
}

/// The deserialized unit variant `name`.
pub fn deserialize_unit_variant(name: &'static str) -> (r: DeserializeVariantShape)
    ensures
        is_unit_variant_in(r, name),
{
    let fields: Vec<DeserializeFieldShape> = Vec::new();
    let aliases = vec![name];
    assert(aliases@ =~= seq![name]);
    DeserializeVariantShape {
        rust_name: name,
        name,
        aliases,
        description: None,
        style: FieldsStyle::Unit,
        content: DeserializeVariantContent::Fields(fields),
        other: false,
        untagged: false,
    }
}

/// A plain serialized field named `name` whose value has `shape`.
pub open spec fn is_named_field_out(f: SerializeFieldShape, name: &'static str, shape: ShapeRef) -> bool {
    &&& f.member == FieldMember::Named(name)
    &&& f.name == name
    &&& f.description is None
    &&& f.wire_shape == FieldWireShape::Value(shape)
    &&& f.skip_if is None
}

/// A plain deserialized field named `name`, accepted under that name alone, whose value has
/// `shape`.
pub open spec fn is_named_field_in(f: DeserializeFieldShape, name: &'static str, shape: ShapeRef) -> bool {
    &&& f.member == FieldMember::Named(name)
    &&& f.name == name
    &&& f.aliases@ == seq![name]
    &&& f.description is None
    &&& f.wire_shape == FieldWireShape::Value(shape)
    &&& f.default == DefaultShape::Unset
}

/// A serialized struct body with plain named fields `names`, whose values have `shapes`, in
/// that order.
pub open spec fn is_struct_body_out(
    k: SerializeDefinitionKind,
    names: Seq<&'static str>,
    shapes: Seq<ShapeRef>,
) -> bool {
    &&& k matches SerializeDefinitionKind::Struct(body)
    &&& body.style == FieldsStyle::Struct
    &&& body.fields@.len() == names.len()
    &&& shapes.len() == names.len()
    &&& forall|i: int|
        0 <= i < names.len() ==> is_named_field_out(#[trigger] body.fields@[i], names[i], shapes[i])
    &&& !body.attributes.non_exhaustive
}

/// A deserialized struct body that rejects unknown fields, with plain named fields `names`,
/// whose values have `shapes`, in that order.
pub open spec fn is_struct_body_in(
    k: DeserializeDefinitionKind,
    names: Seq<&'static str>,
    shapes: Seq<ShapeRef>,
) -> bool {
    &&& k matches DeserializeDefinitionKind::Struct(body)
    &&& body.style == FieldsStyle::Struct
    &&& body.fields@.len() == names.len()
    &&& shapes.len() == names.len()
    &&& forall|i: int|
        0 <= i < names.len() ==> is_named_field_in(#[trigger] body.fields@[i], names[i], shapes[i])
    &&& body.attributes.deny_unknown_fields
    &&& body.attributes.default is Unset
    &&& body.attributes.expecting is None
    &&& !body.attributes.transparent
    &&& !body.attributes.non_exhaustive
}

/// A serialized struct body with plain named fields `names`, whatever their value shapes.
pub open spec fn is_some_struct_body_out(k: SerializeDefinitionKind, names: Seq<&'static str>) -> bool {
    exists|shapes: Seq<ShapeRef>| is_struct_body_out(k, names, shapes)
}

/// A deserialized struct body that rejects unknown fields, with plain named fields `names`,
/// whatever their value shapes.
pub open spec fn is_some_struct_body_in(k: DeserializeDefinitionKind, names: Seq<&'static str>) -> bool {
    exists|shapes: Seq<ShapeRef>| is_struct_body_in(k, names, shapes)
}

/// The serialized struct body of plain named fields, one for each name and shape in order.
pub fn serialize_fields_kind(fields: Vec<(&'static str, ShapeRef)>) -> (r: SerializeDefinitionKind)
    ensures
        is_struct_body_out(r, fields@.map_values(|f: (&'static str, ShapeRef)| f.0), fields@.map_values(|f: (&'static str, ShapeRef)| f.1)),
{
    let ghost all = fields@;
    let mut rest = fields;
    let mut out: Vec<SerializeFieldShape> = Vec::new();
    while rest.len() > 0
        invariant
            out@.len() + rest@.len() == all.len(),
            rest@ == all.subrange(out@.len() as int, all.len() as int),
            forall|j: int| 0 <= j < out@.len() ==> is_named_field_out(#[trigger] out@[j], all[j].0, all[j].1),
        decreases rest@.len(),
    {
        let (name, shape) = rest.remove(0);
        out.push(serialize_named_field(name, shape));
    }
    serialize_struct_kind(out)
}

/// The deserialized struct body, rejecting unknown fields, of plain named fields, one for each
/// name and shape in order.
pub fn deserialize_fields_kind(fields: Vec<(&'static str, ShapeRef)>) -> (r: DeserializeDefinitionKind)
    ensures
        is_struct_body_in(r, fields@.map_values(|f: (&'static str, ShapeRef)| f.0), fields@.map_values(|f: (&'static str, ShapeRef)| f.1)),
{
    let ghost all = fields@;
    let mut rest = fields;
    let mut out: Vec<DeserializeFieldShape> = Vec::new();
    while rest.len() > 0
        invariant
            out@.len() + rest@.len() == all.len(),
            rest@ == all.subrange(out@.len() as int, all.len() as int),
            forall|j: int| 0 <= j < out@.len() ==> is_named_field_in(#[trigger] out@[j], all[j].0, all[j].1),
        decreases rest@.len(),
    {
        let (name, shape) = rest.remove(0);
        out.push(deserialize_named_field(name, shape));
    }
    deserialize_struct_kind(out)
}

/// The serialized plain field `name` carrying a value of `shape`.
pub fn serialize_named_field(name: &'static str, shape: ShapeRef) -> (r: SerializeFieldShape)
    ensures
        is_named_field_out(r, name, shape),
{
    SerializeFieldShape {
        member: FieldMember::Named(name),
        name,
        description: None,
        wire_shape: FieldWireShape::Value(shape),
        skip_if: None,
    }
}

/// The deserialized plain field `name` accepting a value of `shape`.
pub fn deserialize_named_field(name: &'static str, shape: ShapeRef) -> (r: DeserializeFieldShape)
    ensures
        is_named_field_in(r, name, shape),
{
    let aliases = vec![name];
    assert(aliases@ =~= seq![name]);
    DeserializeFieldShape {
        member: FieldMember::Named(name),
        name,
        aliases,
        description: None,
        wire_shape: FieldWireShape::Value(shape),
        default: DefaultShape::Unset,
    }
}

/// The serialized struct body with these fields and default container attributes.
pub fn serialize_struct_kind(fields: Vec<SerializeFieldShape>) -> (r: SerializeDefinitionKind)
    ensures
        r matches SerializeDefinitionKind::Struct(body),
        r matches SerializeDefinitionKind::Struct(body) ==> {
            &&& body.style == FieldsStyle::Struct
            &&& body.fields@ == fields@
            &&& !body.attributes.non_exhaustive
        },
{
    SerializeDefinitionKind::Struct(
        SerializeStructShape {
            style: FieldsStyle::Struct,
            fields,
            attributes: SerializeContainerAttributes::default(),
        },
    )
}

/// The deserialized struct body with these fields that rejects unknown fields.
pub fn deserialize_struct_kind(fields: Vec<DeserializeFieldShape>) -> (r: DeserializeDefinitionKind)
    ensures
        r matches DeserializeDefinitionKind::Struct(body),
        r matches DeserializeDefinitionKind::Struct(body) ==> {
            &&& body.style == FieldsStyle::Struct
            &&& body.fields@ == fields@
            &&& body.attributes.deny_unknown_fields
            &&& body.attributes.default is Unset
            &&& body.attributes.expecting is None
            &&& !body.attributes.transparent
            &&& !body.attributes.non_exhaustive
        },
{
    let defaults = DeserializeContainerAttributes::default();
    DeserializeDefinitionKind::Struct(
        DeserializeStructShape {
            style: FieldsStyle::Struct,
            fields,
            attributes: DeserializeContainerAttributes { deny_unknown_fields: true, ..defaults },
        },
    )
}

} // verus!
