use core::marker::PhantomData;

use serde_shape::bounds::{
    add_shape_bounds, BoundContainer, BoundData, BoundField, BoundType, ShapeBounds, TypeExpr,
};
use serde_shape::plan::{
    deserialize_field_shape, serialize_field_shape, CowElement, DeserializeFieldAttrs,
    SerializeFieldAttrs,
};
use serde_shape::{
    DefaultShape, DeserializeContainerAttributes, DeserializeDefinitionKind, DeserializeFieldShape,
    DeserializeShape, DeserializeShapeContext, DeserializeStructShape, FieldMember,
    FieldWireShape, FieldsStyle, SerializeContainerAttributes, SerializeDefinitionKind,
    SerializeFieldShape, SerializeShape, SerializeShapeContext, SerializeStructShape, ShapeRef,
    TypeName,
};

struct NotShape;

fn deserialize_attrs(name: &'static str, type_label: &'static str) -> DeserializeFieldAttrs {
    DeserializeFieldAttrs {
        member: FieldMember::Named(name),
        name,
        aliases: vec![name],
        description: None,
        skip: false,
        default: DefaultShape::Unset,
        flatten: false,
        transparent: false,
        shape_hook: false,
        custom_deserializer: None,
        borrowed: false,
        explicit_deserializer: false,
        cow_element: CowElement::NotCow,
        type_label,
    }
}

fn deserialize_field(name: &'static str, value: ShapeRef) -> DeserializeFieldShape {
    deserialize_field_shape(deserialize_attrs(name, "T"), value)
}

fn skipped_deserialize_field(name: &'static str) -> DeserializeFieldShape {
    deserialize_field_shape(
        DeserializeFieldAttrs { skip: true, ..deserialize_attrs(name, "T") },
        ShapeRef::Unit,
    )
}

fn serialize_field(name: &'static str, value: ShapeRef) -> SerializeFieldShape {
    let attrs = SerializeFieldAttrs {
        member: FieldMember::Named(name),
        name,
        description: None,
        skip: false,
        skip_if: None,
        flatten: false,
        transparent: false,
        shape_hook: false,
        custom_serializer: None,
        type_label: "T",
    };
    serialize_field_shape(&attrs, value)
}

fn deserialize_struct(fields: Vec<DeserializeFieldShape>) -> DeserializeDefinitionKind {
    DeserializeDefinitionKind::Struct(DeserializeStructShape {
        style: FieldsStyle::Struct,
        fields,
        attributes: DeserializeContainerAttributes::default(),
    })
}

fn serialize_struct(fields: Vec<SerializeFieldShape>) -> SerializeDefinitionKind {
    SerializeDefinitionKind::Struct(SerializeStructShape {
        style: FieldsStyle::Struct,
        fields,
        attributes: SerializeContainerAttributes::default(),
    })
}

// `#[serde(from = "String")]`
struct FromString(String);

impl DeserializeShape for FromString {
    fn deserialize_shape_in(context: &mut DeserializeShapeContext) -> ShapeRef {
        String::deserialize_shape_in(context)
    }
}

// `#[serde(try_from = "u16")]`
struct TryFromU16(u16);

impl DeserializeShape for TryFromU16 {
    fn deserialize_shape_in(context: &mut DeserializeShapeContext) -> ShapeRef {
        u16::deserialize_shape_in(context)
    }
}

// `#[serde(into = "String")]`
struct IntoString(String);

impl SerializeShape for IntoString {
    fn serialize_shape_in(context: &mut SerializeShapeContext) -> ShapeRef {
        String::serialize_shape_in(context)
    }
}

// `#[serde(from = "T")]`
struct FromGeneric<T>(T);

impl<T: DeserializeShape> DeserializeShape for FromGeneric<T> {
    fn deserialize_shape_in(context: &mut DeserializeShapeContext) -> ShapeRef {
        T::deserialize_shape_in(context)
    }
}

// A struct whose only field is `#[serde(skip)]`.
struct SkipsGeneric<T> {
    value: T,
}

impl<T: 'static> DeserializeShape for SkipsGeneric<T> {
    fn deserialize_shape_in(context: &mut DeserializeShapeContext) -> ShapeRef {
        context.define_named_type(TypeName::of::<Self>("SkipsGeneric"), |_| {
            deserialize_struct(vec![skipped_deserialize_field("value")])
        })
    }
}

struct Marker<T> {
    marker: PhantomData<T>,
}

impl<T: 'static> DeserializeShape for Marker<T> {
    fn deserialize_shape_in(context: &mut DeserializeShapeContext) -> ShapeRef {
        context.define_named_type(TypeName::of::<Self>("Marker"), |context| {
            let marker = PhantomData::<T>::deserialize_shape_in(context);
            deserialize_struct(vec![deserialize_field("marker", marker)])
        })
    }
}

struct Recursive {
    child: Option<Box<Recursive>>,
}

impl DeserializeShape for Recursive {
    fn deserialize_shape_in(context: &mut DeserializeShapeContext) -> ShapeRef {
        context.define_named_type(TypeName::of::<Self>("Recursive"), |context| {
            let child = Option::<Box<Recursive>>::deserialize_shape_in(context);
            deserialize_struct(vec![deserialize_field("child", child)])
        })
    }
}

struct RecursiveGeneric<T> {
    value: T,
    child: Option<Box<RecursiveGeneric<T>>>,
}

impl<T: SerializeShape + 'static> SerializeShape for RecursiveGeneric<T> {
    fn serialize_shape_in(context: &mut SerializeShapeContext) -> ShapeRef {
        context.define_named_type(TypeName::of::<Self>("RecursiveGeneric"), |context| {
            let value = T::serialize_shape_in(context);
            let child = Option::<Box<RecursiveGeneric<T>>>::serialize_shape_in(context);
            serialize_struct(vec![
                serialize_field("value", value),
                serialize_field("child", child),
            ])
        })
    }
}

impl<T: DeserializeShape + 'static> DeserializeShape for RecursiveGeneric<T> {
    fn deserialize_shape_in(context: &mut DeserializeShapeContext) -> ShapeRef {
        context.define_named_type(TypeName::of::<Self>("RecursiveGeneric"), |context| {
            let value = T::deserialize_shape_in(context);
            let child = Option::<Box<RecursiveGeneric<T>>>::deserialize_shape_in(context);
            deserialize_struct(vec![
                deserialize_field("value", value),
                deserialize_field("child", child),
            ])
        })
    }
}

trait HasValue {
    type Value;
}

struct ValueProvider;

impl HasValue for ValueProvider {
    type Value = u16;
}

struct AssociatedValue<T: HasValue> {
    value: T::Value,
}

impl<T: HasValue + 'static> SerializeShape for AssociatedValue<T>
where
    T::Value: SerializeShape,
{
    fn serialize_shape_in(context: &mut SerializeShapeContext) -> ShapeRef {
        context.define_named_type(TypeName::of::<Self>("AssociatedValue"), |context| {
            let value = T::Value::serialize_shape_in(context);
            serialize_struct(vec![serialize_field("value", value)])
        })
    }
}

impl<T: HasValue + 'static> DeserializeShape for AssociatedValue<T>
where
    T::Value: DeserializeShape,
{
    fn deserialize_shape_in(context: &mut DeserializeShapeContext) -> ShapeRef {
        context.define_named_type(TypeName::of::<Self>("AssociatedValue"), |context| {
            let value = T::Value::deserialize_shape_in(context);
            deserialize_struct(vec![deserialize_field("value", value)])
        })
    }
}

fn path(name: &'static str, arguments: Vec<TypeExpr>) -> TypeExpr {
    TypeExpr::Path(vec![(name, arguments)])
}

fn struct_bounds(fields: Vec<BoundField>) -> ShapeBounds {
    add_shape_bounds(&BoundContainer {
        explicit: None,
        shape_hook: false,
        remote: false,
        conversion: None,
        data: BoundData::Struct(fields),
    })
}

fn bound_field(ty: TypeExpr) -> BoundField {
    BoundField { skip: false, custom: false, ty }
}

#[test]
fn follows_serde_conversion_shapes() {
    assert_eq!(FromString::deserialize_shape().root(), &ShapeRef::String);
    assert_eq!(TryFromU16::deserialize_shape().root(), &ShapeRef::U16);
    assert_eq!(IntoString::serialize_shape().root(), &ShapeRef::String);
    assert_eq!(FromGeneric::<u8>::deserialize_shape().root(), &ShapeRef::U8);
}

#[test]
fn omits_shape_bounds_for_skipped_and_marker_fields() {
    assert_eq!(
        SkipsGeneric::<NotShape>::deserialize_shape()
            .definitions()
            .len(),
        1
    );
    assert_eq!(
        Marker::<NotShape>::deserialize_shape().definitions().len(),
        1
    );

    let skipped = BoundField { skip: true, custom: false, ty: TypeExpr::Param(0) };
    assert!(matches!(struct_bounds(vec![skipped]), ShapeBounds::Types(types) if types.is_empty()));
    let marker = bound_field(path("PhantomData", vec![TypeExpr::Param(0)]));
    assert!(matches!(struct_bounds(vec![marker]), ShapeBounds::Types(types) if types.is_empty()));
}

#[test]
fn reuses_recursive_definition() {
    let graph = Recursive::deserialize_shape();
    let ShapeRef::Definition(id) = graph.root() else {
        panic!("recursive root should be a definition");
    };
    let id = *id;
    let DeserializeDefinitionKind::Struct(shape) = &graph.definition(id).unwrap().kind else {
        panic!("recursive definition should be a struct");
    };
    assert_eq!(graph.definitions().len(), 1);
    assert_eq!(
        shape.fields[0].wire_shape,
        FieldWireShape::Value(ShapeRef::Option(Box::new(ShapeRef::Definition(id))))
    );
}

#[test]
fn derives_recursive_generic_shapes_without_cyclic_bounds() {
    let serialize = RecursiveGeneric::<u8>::serialize_shape();
    let deserialize = RecursiveGeneric::<u8>::deserialize_shape();

    assert_eq!(serialize.definitions().len(), 1);
    assert_eq!(deserialize.definitions().len(), 1);

    let bounds = struct_bounds(vec![
        bound_field(TypeExpr::Param(0)),
        bound_field(path(
            "Option",
            vec![path("Box", vec![path("RecursiveGeneric", vec![TypeExpr::Param(0)])])],
        )),
    ]);
    assert!(matches!(bounds, ShapeBounds::Types(types) if types == vec![BoundType::Param(0)]));
}

#[test]
fn derives_shape_bounds_for_associated_values() {
    let serialize = AssociatedValue::<ValueProvider>::serialize_shape();
    let deserialize = AssociatedValue::<ValueProvider>::deserialize_shape();

    assert_eq!(serialize.definitions().len(), 1);
    assert_eq!(deserialize.definitions().len(), 1);

    let bounds = struct_bounds(vec![bound_field(TypeExpr::Assoc(0, "Value"))]);
    assert!(matches!(
        bounds,
        ShapeBounds::Types(types) if types == vec![BoundType::Assoc(0, "Value")]
    ));
}

#[test]
fn derive_skipped_generic_field_does_not_require_shape_bound() {
    let shape = SkipsGeneric::<NotShape>::deserialize_shape();
    let definition = shape.root_definition().unwrap();
    let DeserializeDefinitionKind::Struct(skips) = &definition.kind else {
        panic!("expected struct shape");
    };

    assert_eq!(skips.fields.len(), 1);
    assert_eq!(skips.fields[0].wire_shape, FieldWireShape::Omitted);
    assert_eq!(skips.fields[0].wire_shape.shape(), None);
}

#[test]
fn phantom_data_generic_field_does_not_require_shape_bound() {
    let shape = Marker::<NotShape>::deserialize_shape();
    let definition = shape.root_definition().unwrap();
    let DeserializeDefinitionKind::Struct(marker) = &definition.kind else {
        panic!("expected struct shape");
    };

    assert_eq!(marker.fields.len(), 1);
    assert_eq!(marker.fields[0].wire_shape.shape(), Some(&ShapeRef::Unit));
}

#[test]
fn recursive_type_reuses_the_same_definition() {
    let shape = Recursive::deserialize_shape();
    let recursive = shape.root_definition().unwrap();
    let DeserializeDefinitionKind::Struct(recursive) = &recursive.kind else {
        panic!("expected struct shape");
    };

    assert_eq!(shape.definitions().len(), 1);
    let child = &recursive.fields[0];
    let Some(ShapeRef::Option(child)) = child.wire_shape.shape() else {
        panic!("expected optional child shape");
    };
    let ShapeRef::Definition(id) = child.as_ref() else {
        panic!("expected recursive definition reference");
    };
    assert_eq!(id.index(), 0);
}
