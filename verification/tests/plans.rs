use serde_shape::bounds::{
    add_shape_bounds, collect_shape_bound_types, type_uses_params, BoundContainer, BoundData,
    BoundField, BoundType, BoundVariant, ShapeBounds, TypeExpr,
};
use serde_shape::plan::{
    deserialize_definition_kind, deserialize_field_shape, deserialize_tagging,
    deserialize_value_source, deserialize_variant_shape, serialize_body_source,
    serialize_definition_kind, serialize_field_shape, serialize_value_source,
    serialize_variant_shape, tagging, BodySource, ContainerData, CowElement,
    DeserializeContainerAttrs, DeserializeFieldAttrs, DeserializeVariantAttrs, Identifier,
    SerializeContainerAttrs, SerializeFieldAttrs, SerializeVariantAttrs, TagType, ValueSource,
};
use serde_shape::{
    DefaultShape, DeserializeDefinitionKind, DeserializeVariantContent, FieldMember,
    FieldWireShape, FieldsStyle, OpaqueReason, OpaqueShape, SerializeDefinitionKind,
    SerializeVariantContent, ShapeRef, Tagging,
};

fn field(name: &'static str) -> SerializeFieldAttrs {
    SerializeFieldAttrs {
        member: FieldMember::Named(name),
        name,
        description: None,
        skip: false,
        skip_if: None,
        flatten: false,
        transparent: false,
        shape_hook: false,
        custom_serializer: None,
        type_label: "u16",
    }
}

fn input_field(name: &'static str) -> DeserializeFieldAttrs {
    DeserializeFieldAttrs {
        member: FieldMember::Named(name),
        name,
        aliases: vec![name],
        description: None,
        skip: false,
        default: DefaultShape::Unset,
        flatten: false,
        transparent: false,
        shape_hook: false,
        custom_deserializer: None,
        borrowed: false,
        explicit_deserializer: false,
        cow_element: CowElement::NotCow,
        type_label: "Storage",
    }
}

#[test]
fn places_serialized_fields_by_their_attributes() {
    let plain = serialize_field_shape(&field("http-port"), ShapeRef::U16);
    assert_eq!(plain.name, "http-port");
    assert_eq!(plain.wire_shape, FieldWireShape::Value(ShapeRef::U16));

    let skipped = SerializeFieldAttrs { skip: true, ..field("skipped") };
    assert_eq!(serialize_value_source(&skipped), ValueSource::Omitted);
    assert_eq!(
        serialize_field_shape(&skipped, ShapeRef::U16).wire_shape,
        FieldWireShape::Omitted
    );

    let flattened = SerializeFieldAttrs { flatten: true, ..field("storage") };
    assert_eq!(
        serialize_field_shape(&flattened, ShapeRef::Unit).wire_shape,
        FieldWireShape::Flatten(ShapeRef::Unit)
    );

    let transparent = SerializeFieldAttrs { transparent: true, ..field("0") };
    assert_eq!(
        serialize_field_shape(&transparent, ShapeRef::U64).wire_shape,
        FieldWireShape::Inline(ShapeRef::U64)
    );

    let custom = SerializeFieldAttrs {
        custom_serializer: Some("serialize_not_shape"),
        skip_if: Some("is_missing"),
        ..field("only-out")
    };
    let shape = serialize_field_shape(&custom, ShapeRef::Bool);
    assert_eq!(shape.skip_if, Some("is_missing"));
    assert_eq!(
        shape.wire_shape,
        FieldWireShape::Value(ShapeRef::Opaque(OpaqueShape {
            type_label: "u16",
            reason: OpaqueReason::CustomSerializer,
            detail: Some("serialize_not_shape"),
        }))
    );

    let hooked = SerializeFieldAttrs { shape_hook: true, ..custom };
    assert_eq!(serialize_value_source(&hooked), ValueSource::Hook);
    assert_eq!(
        serialize_field_shape(&hooked, ShapeRef::String).wire_shape,
        FieldWireShape::Value(ShapeRef::String)
    );
}

#[test]
fn reads_deserialized_fields_and_borrowed_input() {
    let borrowed = DeserializeFieldAttrs {
        borrowed: true,
        cow_element: CowElement::Bytes,
        ..input_field("raw")
    };
    assert_eq!(
        deserialize_value_source(&borrowed),
        ValueSource::Borrowed(CowElement::Bytes)
    );
    assert_eq!(
        deserialize_field_shape(borrowed.clone(), ShapeRef::Unit).wire_shape,
        FieldWireShape::Value(ShapeRef::Bytes)
    );

    let explicit = DeserializeFieldAttrs {
        explicit_deserializer: true,
        custom_deserializer: Some("custom_secret"),
        ..borrowed
    };
    let shape = deserialize_field_shape(explicit, ShapeRef::Unit);
    assert_eq!(
        shape.wire_shape,
        FieldWireShape::Value(ShapeRef::Opaque(OpaqueShape {
            type_label: "Storage",
            reason: OpaqueReason::CustomDeserializer,
            detail: Some("custom_secret"),
        }))
    );

    let aliased = DeserializeFieldAttrs {
        aliases: vec!["api-url", "endpoint"],
        default: DefaultShape::Path("default_retries"),
        ..input_field("api-url")
    };
    let shape = deserialize_field_shape(aliased, ShapeRef::String);
    assert_eq!(shape.aliases, vec!["api-url", "endpoint"]);
    assert_eq!(shape.default, DefaultShape::Path("default_retries"));
    assert_eq!(shape.wire_shape, FieldWireShape::Value(ShapeRef::String));
}

#[test]
fn builds_variant_content_from_its_source() {
    let variant = SerializeVariantAttrs {
        rust_name: "OutputOnly",
        name: "OUTPUT_ONLY",
        description: None,
        style: FieldsStyle::Newtype,
        skip: false,
        untagged: false,
        shape_hook: false,
        custom_serializer: Some("serialize_variant"),
        type_label: "SplitEnum",
    };
    let shape = serialize_variant_shape(&variant, ShapeRef::Unit, vec![]);
    assert_eq!(
        shape.content,
        SerializeVariantContent::Custom(OpaqueShape {
            type_label: "SplitEnum",
            reason: OpaqueReason::CustomSerializer,
            detail: Some("serialize_variant"),
        })
    );
    let hooked = SerializeVariantAttrs { shape_hook: true, ..variant };
    assert_eq!(
        serialize_variant_shape(&hooked, ShapeRef::U8, vec![]).content,
        SerializeVariantContent::Shape(ShapeRef::U8)
    );

    let input = DeserializeVariantAttrs {
        rust_name: "InputOnly",
        name: "input-only",
        aliases: vec!["input-only"],
        description: Some("Only read."),
        style: FieldsStyle::Unit,
        skip: true,
        other: false,
        untagged: false,
        shape_hook: false,
        custom_deserializer: None,
        type_label: "SplitEnum",
    };
    let shape = deserialize_variant_shape(input.clone(), ShapeRef::Unit, vec![]);
    assert_eq!(shape.content, DeserializeVariantContent::Omitted);
    assert_eq!(shape.description, Some("Only read."));
    let other = DeserializeVariantAttrs { skip: false, other: true, ..input };
    let shape = deserialize_variant_shape(other, ShapeRef::Unit, vec![]);
    assert!(shape.other);
    assert_eq!(shape.content, DeserializeVariantContent::Fields(vec![]));
}

#[test]
fn tags_and_builds_container_bodies() {
    assert_eq!(tagging(TagType::Internal { tag: "type" }), Tagging::Internal { tag: "type" });
    assert_eq!(tagging(TagType::Untagged), Tagging::Untagged);
    assert_eq!(
        deserialize_tagging(Identifier::Field, TagType::External),
        Tagging::FieldIdentifier
    );
    assert_eq!(serialize_body_source(true, true), BodySource::Hook);
    assert_eq!(serialize_body_source(false, true), BodySource::Conversion);
    assert_eq!(serialize_body_source(false, false), BodySource::Definition);

    let attrs = SerializeContainerAttrs {
        non_exhaustive: true,
        tag: TagType::Adjacent { tag: "t", content: "c" },
    };
    let SerializeDefinitionKind::Enum(shape) =
        serialize_definition_kind(&attrs, ContainerData::Enum, vec![], vec![])
    else {
        panic!("an enum container should have an enum body");
    };
    assert_eq!(shape.repr, Tagging::Adjacent { tag: "t", content: "c" });
    assert!(shape.attributes.non_exhaustive);

    let attrs = DeserializeContainerAttrs {
        deny_unknown_fields: true,
        default: DefaultShape::Default,
        expecting: Some("config object"),
        non_exhaustive: false,
        transparent: false,
        tag: TagType::External,
        identifier: Identifier::No,
    };
    let port = deserialize_field_shape(input_field("http-port"), ShapeRef::U16);
    let DeserializeDefinitionKind::Struct(shape) =
        deserialize_definition_kind(&attrs, ContainerData::Struct(FieldsStyle::Struct), vec![port], vec![])
    else {
        panic!("a struct container should have a struct body");
    };
    assert_eq!(shape.style, FieldsStyle::Struct);
    assert!(shape.attributes.deny_unknown_fields);
    assert_eq!(shape.attributes.default, DefaultShape::Default);
    assert_eq!(shape.attributes.expecting, Some("config object"));
    assert_eq!(shape.fields[0].name, "http-port");
}

fn path(name: &'static str, arguments: Vec<TypeExpr>) -> TypeExpr {
    TypeExpr::Path(vec![(name, arguments)])
}

fn bounds_of(ty: &TypeExpr) -> Vec<BoundType> {
    let mut out = Vec::new();
    collect_shape_bound_types(ty, &mut out);
    out
}

#[test]
fn collects_each_parameter_once() {
    let ty = TypeExpr::Tuple(vec![
        TypeExpr::Param(0),
        path("Vec", vec![TypeExpr::Param(1)]),
        TypeExpr::Reference(Box::new(TypeExpr::Param(0))),
    ]);
    assert_eq!(bounds_of(&ty), vec![BoundType::Param(0), BoundType::Param(1)]);
    assert!(type_uses_params(&ty));

    let marker = path("PhantomData", vec![TypeExpr::Param(0)]);
    assert!(bounds_of(&marker).is_empty());
    assert!(!type_uses_params(&path("String", vec![])));

    let associated = TypeExpr::Assoc(0, "Value");
    assert_eq!(bounds_of(&associated), vec![BoundType::Assoc(0, "Value")]);
}

#[test]
fn infers_container_bounds_from_its_fields() {
    // `struct RecursiveGeneric<T> { value: T, child: Option<Box<RecursiveGeneric<T>>> }`
    let recursive = BoundContainer {
        explicit: None,
        shape_hook: false,
        remote: false,
        conversion: None,
        data: BoundData::Struct(vec![
            BoundField { skip: false, custom: false, ty: TypeExpr::Param(0) },
            BoundField {
                skip: false,
                custom: false,
                ty: path(
                    "Option",
                    vec![path("Box", vec![path("RecursiveGeneric", vec![TypeExpr::Param(0)])])],
                ),
            },
        ]),
    };
    let ShapeBounds::Types(types) = add_shape_bounds(&recursive) else {
        panic!("derived bounds should be a list of types");
    };
    assert_eq!(types, vec![BoundType::Param(0)]);

    // `struct SkipsGeneric<T> { #[serde(skip)] value: T }`
    let skipped = BoundContainer {
        data: BoundData::Struct(vec![BoundField {
            skip: true,
            custom: false,
            ty: TypeExpr::Param(0),
        }]),
        ..recursive
    };
    let ShapeBounds::Types(types) = add_shape_bounds(&skipped) else {
        panic!("derived bounds should be a list of types");
    };
    assert!(types.is_empty());

    let enumeration = BoundContainer {
        explicit: None,
        shape_hook: false,
        remote: false,
        conversion: None,
        data: BoundData::Enum(vec![
            BoundVariant {
                skip: false,
                custom: true,
                fields: vec![BoundField { skip: false, custom: false, ty: TypeExpr::Param(0) }],
            },
            BoundVariant {
                skip: false,
                custom: false,
                fields: vec![BoundField {
                    skip: false,
                    custom: false,
                    ty: TypeExpr::Assoc(1, "Value"),
                }],
            },
        ]),
    };
    let ShapeBounds::Types(types) = add_shape_bounds(&enumeration) else {
        panic!("derived bounds should be a list of types");
    };
    assert_eq!(types, vec![BoundType::Assoc(1, "Value")]);

    let converted = BoundContainer {
        conversion: Some(path("Wrapper", vec![TypeExpr::Param(0)])),
        ..enumeration
    };
    assert!(matches!(add_shape_bounds(&converted), ShapeBounds::Conversion));
    let explicit = BoundContainer { explicit: Some("T: SerializeShape"), ..converted };
    assert!(matches!(add_shape_bounds(&explicit), ShapeBounds::Explicit("T: SerializeShape")));
}
