//! Network addresses: a human-readable string or a compact binary form, as Serde picks by the
//! format. The binary forms of `IpAddr` and `SocketAddr` are externally tagged enums.
use vstd::prelude::*;

use super::variant::{
    deserialize_newtype_variant, is_newtype_variant_in, is_newtype_variant_of_in,
    is_newtype_variant_of_out, is_newtype_variant_out, serialize_newtype_variant,
};
use crate::definition::{
    DeserializeContainerAttributes, DeserializeDefinitionKind, DeserializeEnumShape,
    SerializeContainerAttributes, SerializeDefinitionKind, SerializeEnumShape, Tagging, TypeName,
};
use crate::graph::{DeserializeShape, DeserializeShapeContext, SerializeShape, SerializeShapeContext};
use crate::model::Shape;
use crate::shape::{ShapeRef, is_normalized_union_of, lemma_shapes_view, shapes_view};

verus! {

/// The binary form of an IPv4 address: four bytes.
pub open spec fn ipv4_binary_model() -> Shape {
    Shape::Array { item: Box::new(Shape::U8), len: 4 }
}

/// The binary form of an IPv6 address: sixteen bytes.
pub open spec fn ipv6_binary_model() -> Shape {
    Shape::Array { item: Box::new(Shape::U8), len: 16 }
}

/// The binary form of an IPv4 socket address: the address, then the port.
pub open spec fn socket_v4_binary_model() -> Shape {
    Shape::Tuple(seq![ipv4_binary_model(), Shape::U16])
}

/// The binary form of an IPv6 socket address: the address, then the port.
pub open spec fn socket_v6_binary_model() -> Shape {
    Shape::Tuple(seq![ipv6_binary_model(), Shape::U16])
}

/// `r` is the normalized union of a string and `binary`.
pub open spec fn is_readable_or_binary(binary: Shape, r: Shape) -> bool {
    is_normalized_union_of(seq![Shape::String, binary], Some(r))
}

/// The serialized binary body of an address enum: an externally tagged enum of `V4` then `V6`
/// carrying values of the models `v4` and `v6`.
pub open spec fn is_address_body_out(k: SerializeDefinitionKind, v4: Shape, v6: Shape) -> bool {
    &&& k matches SerializeDefinitionKind::Enum(e)
    &&& e.repr == Tagging::External
    &&& e.variants@.len() == 2
    &&& is_newtype_variant_of_out(e.variants@[0], "V4", v4)
    &&& is_newtype_variant_of_out(e.variants@[1], "V6", v6)
    &&& !e.attributes.non_exhaustive
}

/// The deserialized binary body of an address enum: an externally tagged enum of `V4` then
/// `V6` accepting values of the models `v4` and `v6`.
pub open spec fn is_address_body_in(k: DeserializeDefinitionKind, v4: Shape, v6: Shape) -> bool {
    &&& k matches DeserializeDefinitionKind::Enum(e)
    &&& e.repr == Tagging::External
    &&& e.variants@.len() == 2
    &&& is_newtype_variant_of_in(e.variants@[0], "V4", v4)
    &&& is_newtype_variant_of_in(e.variants@[1], "V6", v6)
    &&& !e.attributes.deny_unknown_fields
    &&& e.attributes.default is Unset
    &&& e.attributes.expecting is None
    &&& !e.attributes.transparent
    &&& !e.attributes.non_exhaustive
}

/// The binary form of an IPv4 address.
fn ipv4_binary_shape() -> (r: ShapeRef)
    ensures
        r@ == ipv4_binary_model(),
{
    let byte = ShapeRef::U8;
    assert(byte@ == Shape::U8);
    ShapeRef::Array { item: Box::new(byte), len: 4 }
}

/// The binary form of an IPv6 address.
fn ipv6_binary_shape() -> (r: ShapeRef)
    ensures
        r@ == ipv6_binary_model(),
{
    let byte = ShapeRef::U8;
    assert(byte@ == Shape::U8);
    ShapeRef::Array { item: Box::new(byte), len: 16 }
}

/// The binary form of an IPv4 socket address.
fn socket_v4_binary_shape() -> (r: ShapeRef)
    ensures
        r@ == socket_v4_binary_model(),
{
    let items = vec![ipv4_binary_shape(), ShapeRef::U16];
    proof {
        lemma_shapes_view(items@);
        assert(shapes_view(items@) =~= seq![ipv4_binary_model(), Shape::U16]);
    }
    ShapeRef::Tuple(items)
}

/// The binary form of an IPv6 socket address.
fn socket_v6_binary_shape() -> (r: ShapeRef)
    ensures
        r@ == socket_v6_binary_model(),
{
    let items = vec![ipv6_binary_shape(), ShapeRef::U16];
    proof {
        lemma_shapes_view(items@);
        assert(shapes_view(items@) =~= seq![ipv6_binary_model(), Shape::U16]);
    }
    ShapeRef::Tuple(items)
}

/// The normalized union of a string and `binary`.
fn readable_or_binary(binary: ShapeRef) -> (r: ShapeRef)
    ensures
        is_readable_or_binary(binary@, r@),
{
    let items = vec![ShapeRef::String, binary];
    proof {
        lemma_shapes_view(items@);
        assert(shapes_view(items@) =~= seq![Shape::String, items@[1]@]);
    }
    ShapeRef::union(items)
}

/// The container attributes of the serialized address enums: the defaults.
fn serialize_enum_attributes() -> (r: SerializeContainerAttributes)
    ensures
        !r.non_exhaustive,
{
    SerializeContainerAttributes::default()
}

/// The container attributes of the deserialized address enums: the defaults.
fn deserialize_enum_attributes() -> (r: DeserializeContainerAttributes)
    ensures
        !r.deny_unknown_fields,
        r.default is Unset,
        r.expecting is None,
        !r.transparent,
        !r.non_exhaustive,
{
    DeserializeContainerAttributes::default()
}

/// The serialized binary body of an address enum with variants `V4` and `V6`.
fn serialize_address_kind(v4: ShapeRef, v6: ShapeRef) -> (r: SerializeDefinitionKind)
    ensures
        is_address_body_out(r, v4@, v6@),
{
    let ghost g4 = v4;
    let ghost g6 = v6;
    let variants = vec![serialize_newtype_variant("V4", v4), serialize_newtype_variant("V6", v6)];
    proof {
        assert(is_newtype_variant_out(variants@[0], "V4", g4));
        assert(is_newtype_variant_out(variants@[1], "V6", g6));
    }
    SerializeDefinitionKind::Enum(
        SerializeEnumShape { repr: Tagging::External, variants, attributes: serialize_enum_attributes() },
    )
}

/// The deserialized binary body of an address enum with variants `V4` and `V6`.
fn deserialize_address_kind(v4: ShapeRef, v6: ShapeRef) -> (r: DeserializeDefinitionKind)
    ensures
        is_address_body_in(r, v4@, v6@),
{
    let ghost g4 = v4;
    let ghost g6 = v6;
    let variants = vec![deserialize_newtype_variant("V4", v4), deserialize_newtype_variant("V6", v6)];
    proof {
        assert(is_newtype_variant_in(variants@[0], "V4", g4));
        assert(is_newtype_variant_in(variants@[1], "V6", g6));
    }
    DeserializeDefinitionKind::Enum(
        DeserializeEnumShape {
            repr: Tagging::External,
            variants,
            attributes: deserialize_enum_attributes(),
        },
    )
}

impl SerializeShape for core::net::Ipv4Addr {
    open spec fn emits(before: SerializeShapeContext, after: SerializeShapeContext, r: ShapeRef) -> bool {
        &&& is_readable_or_binary(ipv4_binary_model(), r@)
        &&& after == before
    }

    fn serialize_shape_in(_context: &mut SerializeShapeContext) -> (r: ShapeRef) {
        readable_or_binary(ipv4_binary_shape())
    }
}

impl DeserializeShape for core::net::Ipv4Addr {
    open spec fn accepts(before: DeserializeShapeContext, after: DeserializeShapeContext, r: ShapeRef) -> bool {
        &&& is_readable_or_binary(ipv4_binary_model(), r@)
        &&& after == before
    }

    fn deserialize_shape_in(_context: &mut DeserializeShapeContext) -> (r: ShapeRef) {
        readable_or_binary(ipv4_binary_shape())
    }
}

impl SerializeShape for core::net::Ipv6Addr {
    open spec fn emits(before: SerializeShapeContext, after: SerializeShapeContext, r: ShapeRef) -> bool {
        &&& is_readable_or_binary(ipv6_binary_model(), r@)
        &&& after == before
    }

    fn serialize_shape_in(_context: &mut SerializeShapeContext) -> (r: ShapeRef) {
        readable_or_binary(ipv6_binary_shape())
    }
}

impl DeserializeShape for core::net::Ipv6Addr {
    open spec fn accepts(before: DeserializeShapeContext, after: DeserializeShapeContext, r: ShapeRef) -> bool {
        &&& is_readable_or_binary(ipv6_binary_model(), r@)
        &&& after == before
    }

    fn deserialize_shape_in(_context: &mut DeserializeShapeContext) -> (r: ShapeRef) {
        readable_or_binary(ipv6_binary_shape())
    }
}

impl SerializeShape for core::net::SocketAddrV4 {
    open spec fn emits(before: SerializeShapeContext, after: SerializeShapeContext, r: ShapeRef) -> bool {
        &&& is_readable_or_binary(socket_v4_binary_model(), r@)
        &&& after == before
    }

    fn serialize_shape_in(_context: &mut SerializeShapeContext) -> (r: ShapeRef) {
        readable_or_binary(socket_v4_binary_shape())
    }
}

impl DeserializeShape for core::net::SocketAddrV4 {
    open spec fn accepts(before: DeserializeShapeContext, after: DeserializeShapeContext, r: ShapeRef) -> bool {
        &&& is_readable_or_binary(socket_v4_binary_model(), r@)
        &&& after == before
    }

    fn deserialize_shape_in(_context: &mut DeserializeShapeContext) -> (r: ShapeRef) {
        readable_or_binary(socket_v4_binary_shape())
    }
}

impl SerializeShape for core::net::SocketAddrV6 {
    open spec fn emits(before: SerializeShapeContext, after: SerializeShapeContext, r: ShapeRef) -> bool {
        &&& is_readable_or_binary(socket_v6_binary_model(), r@)
        &&& after == before
    }

    fn serialize_shape_in(_context: &mut SerializeShapeContext) -> (r: ShapeRef) {
        readable_or_binary(socket_v6_binary_shape())
    }
}

impl DeserializeShape for core::net::SocketAddrV6 {
    open spec fn accepts(before: DeserializeShapeContext, after: DeserializeShapeContext, r: ShapeRef) -> bool {
        &&& is_readable_or_binary(socket_v6_binary_model(), r@)
        &&& after == before
    }

    fn deserialize_shape_in(_context: &mut DeserializeShapeContext) -> (r: ShapeRef) {
        readable_or_binary(socket_v6_binary_shape())
    }
}

/// A run of an address enum's builder: it leaves the context as it is and returns the enum of
/// `V4` and `V6` carrying values of the models `v4` and `v6`.
pub open spec fn address_run_out(v4: Shape, v6: Shape) -> spec_fn(SerializeShapeContext, SerializeShapeContext, SerializeDefinitionKind) -> bool {
    |during: SerializeShapeContext, built: SerializeShapeContext, kind: SerializeDefinitionKind| built == during && is_address_body_out(kind, v4, v6)
}

/// A run of an address enum's builder: it leaves the context as it is and returns the enum of
/// `V4` and `V6` carrying values of the models `v4` and `v6`.
pub open spec fn address_run_in(v4: Shape, v6: Shape) -> spec_fn(DeserializeShapeContext, DeserializeShapeContext, DeserializeDefinitionKind) -> bool {
    |during: DeserializeShapeContext, built: DeserializeShapeContext, kind: DeserializeDefinitionKind| built == during && is_address_body_in(kind, v4, v6)
}

impl SerializeShape for core::net::IpAddr {
    open spec fn emits(before: SerializeShapeContext, after: SerializeShapeContext, r: ShapeRef) -> bool {
        exists|identity: core::any::TypeId, binary: ShapeRef|
            #[trigger] SerializeShapeContext::defines_with(
                before,
                after,
                identity,
                TypeName { rust_name: "IpAddr", name: "IpAddr" },
                None,
                address_run_out(ipv4_binary_model(), ipv6_binary_model()),
                binary,
            ) && is_readable_or_binary(binary@, r@)
    }

    fn serialize_shape_in(context: &mut SerializeShapeContext) -> (r: ShapeRef) {
        let ghost before = *context;
        let build = |_context: &mut SerializeShapeContext| -> (kind: SerializeDefinitionKind)
            ensures
                SerializeShapeContext::extends(*old(_context), *final(_context)),
                address_run_out(ipv4_binary_model(), ipv6_binary_model())(*old(_context), *final(_context), kind)
            {
                serialize_address_kind(ipv4_binary_shape(), ipv6_binary_shape())
            };
        let type_names = TypeName::of::<Self>("IpAddr");
        let binary = context.define_named_type(type_names, build);
        proof {
            SerializeShapeContext::lemma_define_named_type(before, *context, type_names, None, build, address_run_out(ipv4_binary_model(), ipv6_binary_model()), binary);
        }
        let ghost reference = binary;
        let r = readable_or_binary(binary);
        proof {
            let identity = choose|identity: core::any::TypeId|
                SerializeShapeContext::defines_with(before, *context, identity, type_names, None, address_run_out(ipv4_binary_model(), ipv6_binary_model()), reference);
            assert(SerializeShapeContext::defines_with(before, *context, identity, type_names, None, address_run_out(ipv4_binary_model(), ipv6_binary_model()), reference)
                && is_readable_or_binary(reference@, r@));
        }
        r
    }
}

impl DeserializeShape for core::net::IpAddr {
    open spec fn accepts(before: DeserializeShapeContext, after: DeserializeShapeContext, r: ShapeRef) -> bool {
        exists|identity: core::any::TypeId, binary: ShapeRef|
            #[trigger] DeserializeShapeContext::defines_with(
                before,
                after,
                identity,
                TypeName { rust_name: "IpAddr", name: "IpAddr" },
                None,
                address_run_in(ipv4_binary_model(), ipv6_binary_model()),
                binary,
            ) && is_readable_or_binary(binary@, r@)
    }

    fn deserialize_shape_in(context: &mut DeserializeShapeContext) -> (r: ShapeRef) {
        let ghost before = *context;
        let build = |_context: &mut DeserializeShapeContext| -> (kind: DeserializeDefinitionKind)
            ensures
                DeserializeShapeContext::extends(*old(_context), *final(_context)),
                address_run_in(ipv4_binary_model(), ipv6_binary_model())(*old(_context), *final(_context), kind)
            {
                deserialize_address_kind(ipv4_binary_shape(), ipv6_binary_shape())
            };
        let type_names = TypeName::of::<Self>("IpAddr");
        let binary = context.define_named_type(type_names, build);
        proof {
            DeserializeShapeContext::lemma_define_named_type(before, *context, type_names, None, build, address_run_in(ipv4_binary_model(), ipv6_binary_model()), binary);
        }
        let ghost reference = binary;
        let r = readable_or_binary(binary);
        proof {
            let identity = choose|identity: core::any::TypeId|
                DeserializeShapeContext::defines_with(before, *context, identity, type_names, None, address_run_in(ipv4_binary_model(), ipv6_binary_model()), reference);
            assert(DeserializeShapeContext::defines_with(before, *context, identity, type_names, None, address_run_in(ipv4_binary_model(), ipv6_binary_model()), reference)
                && is_readable_or_binary(reference@, r@));
        }
        r
    }
}

impl SerializeShape for core::net::SocketAddr {
    open spec fn emits(before: SerializeShapeContext, after: SerializeShapeContext, r: ShapeRef) -> bool {
        exists|identity: core::any::TypeId, binary: ShapeRef|
            #[trigger] SerializeShapeContext::defines_with(
                before,
                after,
                identity,
                TypeName { rust_name: "SocketAddr", name: "SocketAddr" },
                None,
                address_run_out(socket_v4_binary_model(), socket_v6_binary_model()),
                binary,
            ) && is_readable_or_binary(binary@, r@)
    }

    fn serialize_shape_in(context: &mut SerializeShapeContext) -> (r: ShapeRef) {
        let ghost before = *context;
        let build = |_context: &mut SerializeShapeContext| -> (kind: SerializeDefinitionKind)
            ensures
                SerializeShapeContext::extends(*old(_context), *final(_context)),
                address_run_out(socket_v4_binary_model(), socket_v6_binary_model())(*old(_context), *final(_context), kind)
            {
                serialize_address_kind(socket_v4_binary_shape(), socket_v6_binary_shape())
            };
        let type_names = TypeName::of::<Self>("SocketAddr");
        let binary = context.define_named_type(type_names, build);
        proof {
            SerializeShapeContext::lemma_define_named_type(before, *context, type_names, None, build, address_run_out(socket_v4_binary_model(), socket_v6_binary_model()), binary);
        }
        let ghost reference = binary;
        let r = readable_or_binary(binary);
        proof {
            let identity = choose|identity: core::any::TypeId|
                SerializeShapeContext::defines_with(before, *context, identity, type_names, None, address_run_out(socket_v4_binary_model(), socket_v6_binary_model()), reference);
            assert(SerializeShapeContext::defines_with(before, *context, identity, type_names, None, address_run_out(socket_v4_binary_model(), socket_v6_binary_model()), reference)
                && is_readable_or_binary(reference@, r@));
        }
        r
    }
}

impl DeserializeShape for core::net::SocketAddr {
    open spec fn accepts(before: DeserializeShapeContext, after: DeserializeShapeContext, r: ShapeRef) -> bool {
        exists|identity: core::any::TypeId, binary: ShapeRef|
            #[trigger] DeserializeShapeContext::defines_with(
                before,
                after,
                identity,
                TypeName { rust_name: "SocketAddr", name: "SocketAddr" },
                None,
                address_run_in(socket_v4_binary_model(), socket_v6_binary_model()),
                binary,
            ) && is_readable_or_binary(binary@, r@)
    }

    fn deserialize_shape_in(context: &mut DeserializeShapeContext) -> (r: ShapeRef) {
        let ghost before = *context;
        let build = |_context: &mut DeserializeShapeContext| -> (kind: DeserializeDefinitionKind)
            ensures
                DeserializeShapeContext::extends(*old(_context), *final(_context)),
                address_run_in(socket_v4_binary_model(), socket_v6_binary_model())(*old(_context), *final(_context), kind)
            {
                deserialize_address_kind(socket_v4_binary_shape(), socket_v6_binary_shape())
            };
        let type_names = TypeName::of::<Self>("SocketAddr");
        let binary = context.define_named_type(type_names, build);
        proof {
            DeserializeShapeContext::lemma_define_named_type(before, *context, type_names, None, build, address_run_in(socket_v4_binary_model(), socket_v6_binary_model()), binary);
        }
        let ghost reference = binary;
        let r = readable_or_binary(binary);
        proof {
            let identity = choose|identity: core::any::TypeId|
                DeserializeShapeContext::defines_with(before, *context, identity, type_names, None, address_run_in(socket_v4_binary_model(), socket_v6_binary_model()), reference);
            assert(DeserializeShapeContext::defines_with(before, *context, identity, type_names, None, address_run_in(socket_v4_binary_model(), socket_v6_binary_model()), reference)
                && is_readable_or_binary(reference@, r@));
        }
        r
    }
}

} // verus!
