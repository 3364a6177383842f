use std::borrow::{Borrow, Cow, ToOwned};
use std::cell::{Cell, RefCell};
use std::cmp::Reverse;
use std::collections::{BTreeMap, BTreeSet, HashMap, HashSet, VecDeque};
use std::marker::PhantomData;
use std::num::{Saturating, Wrapping};
use std::ops::{Bound, Range, RangeFrom, RangeInclusive, RangeTo};
use std::rc::Rc;
use std::sync::Arc;

use serde_shape::{
    DeserializeDefinitionKind, DeserializeShape, DeserializeShapeContext, DeserializeShapeGraph,
    DeserializeVariantContent, FieldWireShape, FieldsStyle, OpaqueReason, OpaqueShape,
    SerializeDefinitionKind, SerializeShape, SerializeShapeContext, SerializeShapeGraph,
    SerializeVariantContent, ShapeRef, Tagging,
};

struct BorrowedShape;

struct OwnedShape(BorrowedShape);

impl ToOwned for BorrowedShape {
    type Owned = OwnedShape;

    fn to_owned(&self) -> Self::Owned {
        OwnedShape(BorrowedShape)
    }
}

impl Borrow<BorrowedShape> for OwnedShape {
    fn borrow(&self) -> &BorrowedShape {
        &self.0
    }
}

impl SerializeShape for BorrowedShape {
    fn serialize_shape_in(_context: &mut SerializeShapeContext) -> ShapeRef {
        ShapeRef::U8
    }
}

impl DeserializeShape for OwnedShape {
    fn deserialize_shape_in(_context: &mut DeserializeShapeContext) -> ShapeRef {
        ShapeRef::String
    }
}

fn sequence_of(item: ShapeRef) -> ShapeRef {
    ShapeRef::Sequence(Box::new(item))
}

#[test]
fn maps_atomic_shapes() {
    assert_eq!(
        SerializeShapeGraph::for_type::<core::sync::atomic::AtomicUsize>().root(),
        &ShapeRef::Usize
    );
    assert_eq!(
        DeserializeShapeGraph::for_type::<core::sync::atomic::AtomicUsize>().root(),
        &ShapeRef::Usize
    );
}

#[test]
fn builds_map_shape() {
    let serialize_shape = SerializeShapeGraph::for_type::<BTreeMap<String, Option<u16>>>();
    let deserialize_shape = DeserializeShapeGraph::for_type::<BTreeMap<String, Option<u16>>>();
    let expected = ShapeRef::Mapping {
        key: Box::new(ShapeRef::String),
        value: Box::new(ShapeRef::Option(Box::new(ShapeRef::U16))),
    };

    assert_eq!(serialize_shape.root(), &expected);
    assert!(serialize_shape.root_definition().is_none());
    assert!(serialize_shape.definitions().is_empty());
    assert_eq!(deserialize_shape.root(), &expected);
    assert!(deserialize_shape.root_definition().is_none());
    assert!(deserialize_shape.definitions().is_empty());
}

#[test]
fn distinguishes_byte_sequences_from_borrowed_byte_input() {
    assert_eq!(
        <[u8] as SerializeShape>::serialize_shape().root(),
        &sequence_of(ShapeRef::U8)
    );
    assert_eq!(
        SerializeShapeGraph::for_type::<Vec<u8>>().root(),
        &sequence_of(ShapeRef::U8)
    );
    assert_eq!(
        <&[u8] as DeserializeShape>::deserialize_shape().root(),
        &ShapeRef::Bytes
    );
    assert_eq!(
        <&str as DeserializeShape>::deserialize_shape().root(),
        &ShapeRef::String
    );
    assert_eq!(
        <Box<[u8]> as DeserializeShape>::deserialize_shape().root(),
        &sequence_of(ShapeRef::U8)
    );
}

#[test]
fn maps_result_as_an_externally_tagged_enum() {
    let serialize = SerializeShapeGraph::for_type::<Result<u8, String>>();
    let ShapeRef::Definition(id) = serialize.root() else {
        panic!("result should produce a named definition");
    };
    let SerializeDefinitionKind::Enum(shape) = &serialize.definition(*id).unwrap().kind else {
        panic!("result definition should be an enum");
    };

    assert_eq!(shape.repr, Tagging::External);
    assert_eq!(shape.variants.len(), 2);
    assert_eq!(shape.variants[0].name, "Ok");
    assert_eq!(shape.variants[0].style, FieldsStyle::Newtype);
    let SerializeVariantContent::Fields(fields) = &shape.variants[0].content else {
        panic!("Ok should contain one reflected field");
    };
    assert_eq!(fields[0].wire_shape, FieldWireShape::Value(ShapeRef::U8));

    let deserialize = DeserializeShapeGraph::for_type::<Result<u8, String>>();
    let ShapeRef::Definition(id) = deserialize.root() else {
        panic!("result should produce a named definition");
    };
    let DeserializeDefinitionKind::Enum(shape) = &deserialize.definition(*id).unwrap().kind else {
        panic!("result definition should be an enum");
    };
    assert_eq!(shape.variants[1].name, "Err");
    let DeserializeVariantContent::Fields(fields) = &shape.variants[1].content else {
        panic!("Err should contain one reflected field");
    };
    assert_eq!(
        fields[0].wire_shape,
        FieldWireShape::Value(ShapeRef::String)
    );
}

#[test]
fn result_variants_accept_their_own_names_alone() {
    let deserialize = DeserializeShapeGraph::for_type::<Result<(), bool>>();
    let DeserializeDefinitionKind::Enum(shape) = &deserialize.root_definition().unwrap().kind else {
        panic!("result definition should be an enum");
    };
    assert_eq!(shape.variants[0].aliases, vec!["Ok"]);
    assert_eq!(shape.variants[1].aliases, vec!["Err"]);
    assert!(!shape.variants[0].other);
    assert!(!shape.attributes.deny_unknown_fields);
    let DeserializeVariantContent::Fields(fields) = &shape.variants[0].content else {
        panic!("Ok should contain one reflected field");
    };
    assert_eq!(fields.len(), 1);
    assert_eq!(fields[0].name, "0");
    assert_eq!(fields[0].aliases, vec!["0"]);
    assert_eq!(fields[0].wire_shape, FieldWireShape::Value(ShapeRef::Unit));
}

#[test]
fn maps_duration_as_serde_struct_fields() {
    let deserialize = DeserializeShapeGraph::for_type::<core::time::Duration>();
    let ShapeRef::Definition(id) = deserialize.root() else {
        panic!("duration should produce a named definition");
    };
    let DeserializeDefinitionKind::Struct(shape) = &deserialize.definition(*id).unwrap().kind
    else {
        panic!("duration definition should be a struct");
    };

    assert!(shape.attributes.deny_unknown_fields);
    assert_eq!(shape.fields[0].name, "secs");
    assert_eq!(
        shape.fields[0].wire_shape,
        FieldWireShape::Value(ShapeRef::U64)
    );
    assert_eq!(shape.fields[1].name, "nanos");
    assert_eq!(
        shape.fields[1].wire_shape,
        FieldWireShape::Value(ShapeRef::U32)
    );
}

#[test]
fn serializes_system_time_as_seconds_and_nanoseconds() {
    let serialize = SerializeShapeGraph::for_type::<std::time::SystemTime>();
    let definition = serialize.root_definition().unwrap();
    assert_eq!(definition.type_names.name, "SystemTime");
    let SerializeDefinitionKind::Struct(shape) = &definition.kind else {
        panic!("system time shape should be a struct");
    };
    assert_eq!(shape.style, FieldsStyle::Struct);
    assert_eq!(shape.fields.len(), 2);
    assert_eq!(shape.fields[0].name, "secs_since_epoch");
    assert_eq!(shape.fields[1].name, "nanos_since_epoch");
    assert_eq!(shape.fields[1].skip_if, None);
    assert_eq!(
        shape.fields[1].wire_shape,
        FieldWireShape::Value(ShapeRef::U32)
    );
}

#[test]
fn maps_range_struct_shapes() {
    assert_range_shapes::<Range<u8>>("Range", &["start", "end"]);
    assert_range_shapes::<RangeFrom<u8>>("RangeFrom", &["start"]);
    assert_range_shapes::<RangeInclusive<u8>>("RangeInclusive", &["start", "end"]);
    assert_range_shapes::<RangeTo<u8>>("RangeTo", &["end"]);
}

#[test]
fn maps_bound_as_an_externally_tagged_enum() {
    let serialize = SerializeShapeGraph::for_type::<Bound<u8>>();
    let SerializeDefinitionKind::Enum(shape) = &serialize.root_definition().unwrap().kind else {
        panic!("bound serialization shape should be an enum");
    };
    assert_eq!(shape.repr, Tagging::External);
    assert_eq!(shape.variants[0].name, "Unbounded");
    assert_eq!(shape.variants[0].style, FieldsStyle::Unit);
    assert_eq!(shape.variants[1].name, "Included");
    assert_eq!(shape.variants[1].style, FieldsStyle::Newtype);

    let deserialize = DeserializeShapeGraph::for_type::<Bound<u8>>();
    let DeserializeDefinitionKind::Enum(shape) = &deserialize.root_definition().unwrap().kind
    else {
        panic!("bound deserialization shape should be an enum");
    };
    assert_eq!(shape.variants[2].name, "Excluded");
    let DeserializeVariantContent::Fields(fields) = &shape.variants[2].content else {
        panic!("Excluded should contain one reflected field");
    };
    assert_eq!(fields[0].wire_shape, FieldWireShape::Value(ShapeRef::U8));
}

#[test]
fn unbounded_variant_has_no_fields() {
    let deserialize = DeserializeShapeGraph::for_type::<Bound<i32>>();
    let DeserializeDefinitionKind::Enum(shape) = &deserialize.root_definition().unwrap().kind
    else {
        panic!("bound deserialization shape should be an enum");
    };
    assert_eq!(shape.variants.len(), 3);
    assert_eq!(shape.variants[0].style, FieldsStyle::Unit);
    let DeserializeVariantContent::Fields(fields) = &shape.variants[0].content else {
        panic!("Unbounded should contain a field list");
    };
    assert!(fields.is_empty());
    assert_eq!(shape.variants[0].aliases, vec!["Unbounded"]);
}

fn assert_range_shapes<T>(expected_name: &str, field_names: &[&str])
where
    T: SerializeShape + DeserializeShape,
{
    let serialize = T::serialize_shape();
    let serialize_definition = serialize.root_definition().unwrap();
    assert_eq!(serialize_definition.type_names.name, expected_name);
    let SerializeDefinitionKind::Struct(shape) = &serialize_definition.kind else {
        panic!("range serialization shape should be a struct");
    };
    assert_eq!(
        shape
            .fields
            .iter()
            .map(|field| field.name)
            .collect::<Vec<_>>(),
        field_names
    );

    let deserialize = T::deserialize_shape();
    let deserialize_definition = deserialize.root_definition().unwrap();
    assert_eq!(deserialize_definition.type_names.name, expected_name);
    let DeserializeDefinitionKind::Struct(shape) = &deserialize_definition.kind else {
        panic!("range deserialization shape should be a struct");
    };
    assert!(shape.attributes.deny_unknown_fields);
    assert_eq!(
        shape
            .fields
            .iter()
            .map(|field| field.name)
            .collect::<Vec<_>>(),
        field_names
    );
}

#[test]
fn supports_serde_tuple_arity() {
    type Tuple16 = (
        u8,
        u8,
        u8,
        u8,
        u8,
        u8,
        u8,
        u8,
        u8,
        u8,
        u8,
        u8,
        u8,
        u8,
        u8,
        u8,
    );

    let graph = SerializeShapeGraph::for_type::<Tuple16>();
    let ShapeRef::Tuple(items) = graph.root() else {
        panic!("16-element tuple should produce a tuple shape");
    };
    assert_eq!(items, &vec![ShapeRef::U8; 16]);
}

#[test]
fn keeps_tuple_elements_in_order() {
    let graph = DeserializeShapeGraph::for_type::<(bool, String, char)>();
    assert_eq!(
        graph.root(),
        &ShapeRef::Tuple(vec![ShapeRef::Bool, ShapeRef::String, ShapeRef::Char])
    );
}

#[test]
fn maps_arrays_with_their_length() {
    assert_eq!(
        SerializeShapeGraph::for_type::<[u16; 32]>().root(),
        &ShapeRef::Array {
            item: Box::new(ShapeRef::U16),
            len: 32,
        }
    );
    let empty = ShapeRef::Array {
        item: Box::new(ShapeRef::Opaque(OpaqueShape {
            type_label: "zero-length array item",
            reason: OpaqueReason::Unobserved,
            detail: Some("zero-length array has no elements"),
        })),
        len: 0,
    };
    assert_eq!(DeserializeShapeGraph::for_type::<[u16; 0]>().root(), &empty);
}

#[test]
fn maps_common_core_and_alloc_shapes() {
    assert_eq!(
        DeserializeShapeGraph::for_type::<Cow<'static, str>>().root(),
        &ShapeRef::String
    );
    assert_eq!(
        SerializeShapeGraph::for_type::<Cell<u8>>().root(),
        &ShapeRef::U8
    );
    assert_eq!(
        DeserializeShapeGraph::for_type::<Wrapping<i16>>().root(),
        &ShapeRef::I16
    );
    assert_eq!(
        SerializeShapeGraph::for_type::<Saturating<String>>().root(),
        &ShapeRef::String
    );
    assert_eq!(
        DeserializeShapeGraph::for_type::<Saturating<u16>>().root(),
        &ShapeRef::U16
    );
    assert_eq!(
        SerializeShapeGraph::for_type::<Reverse<u32>>().root(),
        &ShapeRef::U32
    );
    assert_eq!(
        DeserializeShapeGraph::for_type::<VecDeque<u8>>().root(),
        &sequence_of(ShapeRef::U8)
    );
}

#[test]
fn maps_sets_maps_and_options() {
    assert_eq!(
        SerializeShapeGraph::for_type::<BTreeSet<char>>().root(),
        &sequence_of(ShapeRef::Char)
    );
    assert_eq!(
        DeserializeShapeGraph::for_type::<HashSet<i64>>().root(),
        &sequence_of(ShapeRef::I64)
    );
    assert_eq!(
        SerializeShapeGraph::for_type::<HashMap<u8, bool>>().root(),
        &ShapeRef::Mapping {
            key: Box::new(ShapeRef::U8),
            value: Box::new(ShapeRef::Bool),
        }
    );
    assert_eq!(
        DeserializeShapeGraph::for_type::<Option<Option<()>>>().root(),
        &ShapeRef::Option(Box::new(ShapeRef::Option(Box::new(ShapeRef::Unit))))
    );
    assert_eq!(
        SerializeShapeGraph::for_type::<PhantomData<String>>().root(),
        &ShapeRef::Unit
    );
    assert_eq!(
        SerializeShapeGraph::for_type::<&mut &u128>().root(),
        &ShapeRef::U128
    );
    assert_eq!(
        DeserializeShapeGraph::for_type::<Box<str>>().root(),
        &ShapeRef::String
    );
}

#[test]
fn follows_shared_pointer_serde_shapes() {
    assert_eq!(
        <Rc<str> as SerializeShape>::serialize_shape().root(),
        &ShapeRef::String
    );
    assert_eq!(
        <Rc<[u8]> as DeserializeShape>::deserialize_shape().root(),
        &sequence_of(ShapeRef::U8)
    );
    assert_eq!(
        <Arc<[u8]> as DeserializeShape>::deserialize_shape().root(),
        &sequence_of(ShapeRef::U8)
    );
}

#[test]
fn accepts_serde_serializable_collection_and_wrapper_bounds() {
    assert_eq!(
        SerializeShapeGraph::for_type::<Vec<BorrowedShape>>().root(),
        &sequence_of(ShapeRef::U8)
    );
    assert_eq!(
        <RefCell<str> as SerializeShape>::serialize_shape().root(),
        &ShapeRef::String
    );
}

#[test]
fn follows_cow_directional_serde_bounds() {
    assert_eq!(
        SerializeShapeGraph::for_type::<Cow<'static, BorrowedShape>>().root(),
        &ShapeRef::U8
    );
    assert_eq!(
        DeserializeShapeGraph::for_type::<Cow<'static, BorrowedShape>>().root(),
        &ShapeRef::String
    );
}

#[test]
fn tests_maps_common_std_shapes() {
    assert_eq!(
        SerializeShapeGraph::for_type::<std::path::Path>().root(),
        &ShapeRef::String
    );
    assert_eq!(
        SerializeShapeGraph::for_type::<std::path::PathBuf>().root(),
        &ShapeRef::String
    );
    assert_eq!(
        DeserializeShapeGraph::for_type::<std::path::PathBuf>().root(),
        &ShapeRef::String
    );
    assert_eq!(
        <Box<std::path::Path> as DeserializeShape>::deserialize_shape().root(),
        &ShapeRef::String
    );
    assert_eq!(
        <&std::path::Path as DeserializeShape>::deserialize_shape().root(),
        &ShapeRef::String
    );
    assert_eq!(
        <std::sync::Mutex<str> as SerializeShape>::serialize_shape().root(),
        &ShapeRef::String
    );
    assert_eq!(
        <std::sync::RwLock<str> as SerializeShape>::serialize_shape().root(),
        &ShapeRef::String
    );

    let system_time = DeserializeShapeGraph::for_type::<std::time::SystemTime>();
    let DeserializeDefinitionKind::Struct(shape) = &system_time.root_definition().unwrap().kind
    else {
        panic!("system time shape should be a struct");
    };
    assert_eq!(shape.fields[0].name, "secs_since_epoch");
    assert_eq!(shape.fields[1].name, "nanos_since_epoch");
    assert!(shape.attributes.deny_unknown_fields);
}

#[test]
fn maps_network_shapes_without_std() {
    let ipv4_binary = ShapeRef::Array {
        item: Box::new(ShapeRef::U8),
        len: 4,
    };
    assert_eq!(
        SerializeShapeGraph::for_type::<core::net::Ipv4Addr>().root(),
        &ShapeRef::union(vec![ShapeRef::String, ipv4_binary.clone()])
    );

    let socket = DeserializeShapeGraph::for_type::<core::net::SocketAddr>();
    let ShapeRef::Union(root) = socket.root() else {
        panic!("socket address should reflect human-readable and binary shapes");
    };
    assert!(root.alternatives().contains(&ShapeRef::String));
    let definition_id = root
        .alternatives()
        .iter()
        .find_map(|shape| match shape {
            ShapeRef::Definition(id) => Some(*id),
            _ => None,
        })
        .expect("binary socket shape should be a named enum");
    let DeserializeDefinitionKind::Enum(shape) = &socket.definition(definition_id).unwrap().kind
    else {
        panic!("binary socket shape should be an enum");
    };
    assert_eq!(shape.repr, Tagging::External);
    assert_eq!(shape.variants[0].name, "V4");
    let DeserializeVariantContent::Fields(fields) = &shape.variants[0].content else {
        panic!("V4 should contain its binary socket tuple");
    };
    assert_eq!(
        fields[0].wire_shape,
        FieldWireShape::Value(ShapeRef::Tuple(vec![ipv4_binary, ShapeRef::U16]))
    );
}

#[test]
fn maps_ip_address_binary_form_as_an_enum() {
    let graph = SerializeShapeGraph::for_type::<core::net::IpAddr>();
    let ShapeRef::Union(root) = graph.root() else {
        panic!("ip address should reflect human-readable and binary shapes");
    };
    assert_eq!(root.alternatives().len(), 2);
    assert_eq!(root.alternatives()[0], ShapeRef::String);
    let ShapeRef::Definition(id) = root.alternatives()[1] else {
        panic!("binary ip address shape should be a named enum");
    };
    let definition = graph.definition(id).unwrap();
    assert_eq!(definition.type_names.name, "IpAddr");
    let SerializeDefinitionKind::Enum(shape) = &definition.kind else {
        panic!("binary ip address shape should be an enum");
    };
    assert_eq!(shape.variants.len(), 2);
    assert_eq!(shape.variants[1].name, "V6");
    let SerializeVariantContent::Fields(fields) = &shape.variants[1].content else {
        panic!("V6 should contain its binary address");
    };
    assert_eq!(
        fields[0].wire_shape,
        FieldWireShape::Value(ShapeRef::Array {
            item: Box::new(ShapeRef::U8),
            len: 16,
        })
    );
    assert_eq!(
        DeserializeShapeGraph::for_type::<core::net::SocketAddrV6>().root(),
        &ShapeRef::union(vec![
            ShapeRef::String,
            ShapeRef::Tuple(vec![
                ShapeRef::Array {
                    item: Box::new(ShapeRef::U8),
                    len: 16,
                },
                ShapeRef::U16,
            ]),
        ])
    );
}

#[test]
fn maps_jiff_types_as_strings_in_both_directions() {
    fn assert_string<T: SerializeShape + DeserializeShape>() {
        assert_eq!(T::serialize_shape().root(), &ShapeRef::String);
        assert!(T::serialize_shape().definitions().is_empty());
        assert_eq!(T::deserialize_shape().root(), &ShapeRef::String);
    }
    assert_string::<jiff::civil::Date>();
    assert_string::<jiff::civil::DateTime>();
    assert_string::<jiff::civil::ISOWeekDate>();
    assert_string::<jiff::SignedDuration>();
    assert_string::<jiff::Span>();
    assert_string::<jiff::civil::Time>();
    assert_string::<jiff::Timestamp>();
    assert_string::<jiff::Zoned>();
}
