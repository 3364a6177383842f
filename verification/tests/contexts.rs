use serde_shape::{
    deserialize_os_string, serialize_os_string, DeserializeDefinitionKind,
    DeserializeShapeContext, DeserializeShapeGraph, DeserializeVariantContent, FieldWireShape,
    FieldsStyle, OpaqueReason, OpaqueShape, OsPlatform, SerializeDefinitionKind,
    SerializeShapeContext, SerializeShapeGraph, SerializeVariantContent, ShapeRef, Tagging,
    TypeName,
};

fn opaque(detail: &'static str) -> OpaqueShape {
    OpaqueShape {
        type_label: "duplicate::Type",
        reason: OpaqueReason::Unsupported,
        detail: Some(detail),
    }
}

#[test]
fn keeps_distinct_definition_builders_with_the_same_type_name() {
    let mut serialize = SerializeShapeContext::default();
    let first = serialize.define_named_type(
        TypeName {
            rust_name: "duplicate::Type",
            name: "First",
        },
        |_| {
            SerializeDefinitionKind::Opaque(OpaqueShape {
                type_label: "duplicate::Type",
                reason: OpaqueReason::Unsupported,
                detail: Some("first"),
            })
        },
    );
    let second = serialize.define_named_type(
        TypeName {
            rust_name: "duplicate::Type",
            name: "Second",
        },
        |_| {
            SerializeDefinitionKind::Opaque(OpaqueShape {
                type_label: "duplicate::Type",
                reason: OpaqueReason::Unsupported,
                detail: Some("second"),
            })
        },
    );

    assert_ne!(first, second);
    assert_eq!(serialize.finish().len(), 2);

    let mut deserialize = DeserializeShapeContext::default();
    let first = deserialize.define_named_type(
        TypeName {
            rust_name: "duplicate::Type",
            name: "First",
        },
        |_| {
            DeserializeDefinitionKind::Opaque(OpaqueShape {
                type_label: "duplicate::Type",
                reason: OpaqueReason::Unsupported,
                detail: Some("first"),
            })
        },
    );
    let second = deserialize.define_named_type(
        TypeName {
            rust_name: "duplicate::Type",
            name: "Second",
        },
        |_| {
            DeserializeDefinitionKind::Opaque(OpaqueShape {
                type_label: "duplicate::Type",
                reason: OpaqueReason::Unsupported,
                detail: Some("second"),
            })
        },
    );

    assert_ne!(first, second);
    assert_eq!(deserialize.finish().len(), 2);
}

fn define_shared(context: &mut SerializeShapeContext, rust_name: &'static str) -> ShapeRef {
    context.define_named_type(
        TypeName {
            rust_name,
            name: "Shared",
        },
        |_| SerializeDefinitionKind::Opaque(opaque("shared")),
    )
}

#[test]
fn reuses_a_definition_for_the_same_builder_and_rust_name() {
    let mut context = SerializeShapeContext::new();
    let first = define_shared(&mut context, "shared::Type");
    let again = define_shared(&mut context, "shared::Type");
    let other = define_shared(&mut context, "other::Type");
    assert_eq!(first, again);
    assert_ne!(first, other);

    let definitions = context.finish();
    assert_eq!(definitions.len(), 2);
    for (index, definition) in definitions.iter().enumerate() {
        assert_eq!(definition.id.index(), index);
    }
    assert_eq!(definitions[0].type_names.rust_name, "shared::Type");
    assert_eq!(definitions[1].type_names.rust_name, "other::Type");
    assert_eq!(
        definitions[1].kind,
        SerializeDefinitionKind::Opaque(opaque("shared"))
    );
}

#[test]
fn stores_the_description_and_body_of_a_definition() {
    let mut context = DeserializeShapeContext::new();
    let reference = context.define_named_type_with_description(
        TypeName {
            rust_name: "documented::Type",
            name: "Documented",
        },
        Some("A documented type."),
        |_| DeserializeDefinitionKind::Opaque(opaque("documented")),
    );
    let ShapeRef::Definition(id) = reference else {
        panic!("a named type should be referenced by its definition");
    };
    assert_eq!(id.index(), 0);
    let definitions = context.finish();
    assert_eq!(definitions.len(), 1);
    assert_eq!(definitions[0].description, Some("A documented type."));
    assert_eq!(definitions[0].type_names.name, "Documented");
    assert_eq!(
        definitions[0].kind,
        DeserializeDefinitionKind::Opaque(opaque("documented"))
    );
}

#[test]
fn builds_a_graph_from_a_root_function() {
    let graph = SerializeShapeGraph::from_fn(|context| {
        let inner = define_shared(context, "rooted::Type");
        ShapeRef::Sequence(Box::new(inner))
    });
    let ShapeRef::Sequence(inner) = graph.root() else {
        panic!("the root should be the sequence the function built");
    };
    assert!(graph.root_definition().is_none());
    assert_eq!(graph.definitions().len(), 1);
    let definition = graph.definition_for(inner).unwrap();
    assert_eq!(definition.type_names.rust_name, "rooted::Type");
    assert!(graph.definition_for(&ShapeRef::Unit).is_none());

    let empty = DeserializeShapeGraph::from_fn(|_| ShapeRef::Bool);
    assert_eq!(empty.root(), &ShapeRef::Bool);
    assert!(empty.definitions().is_empty());
}

#[test]
fn finds_no_definition_outside_the_graph() {
    let larger = SerializeShapeGraph::for_type::<(Result<u8, u8>, Result<u16, u16>)>();
    let ShapeRef::Tuple(items) = larger.root() else {
        panic!("a pair should produce a tuple shape");
    };
    let ShapeRef::Definition(second) = items[1] else {
        panic!("a result should be a named definition");
    };
    assert_eq!(second.index(), 1);
    assert_eq!(larger.definition(second).unwrap().id, second);

    let smaller = SerializeShapeGraph::for_type::<Result<u8, u8>>();
    assert_eq!(smaller.definitions().len(), 1);
    assert!(smaller.definition(second).is_none());
    assert!(smaller.definition_for(&items[1]).is_none());
}

#[test]
fn shares_one_definition_among_equal_types() {
    let graph = DeserializeShapeGraph::for_type::<(Result<u8, bool>, Vec<Result<u8, bool>>)>();
    assert_eq!(graph.definitions().len(), 1);
    let ShapeRef::Tuple(items) = graph.root() else {
        panic!("a pair should produce a tuple shape");
    };
    assert_eq!(items[1], ShapeRef::Sequence(Box::new(items[0].clone())));
}

#[test]
fn describes_os_strings_for_each_platform() {
    let mut serialize = SerializeShapeContext::new();
    let reference = serialize_os_string(
        &mut serialize,
        TypeName::of::<String>("OsString"),
        OsPlatform::Unix,
    );
    assert!(matches!(reference, ShapeRef::Definition(id) if id.index() == 0));
    let definitions = serialize.finish();
    assert_eq!(definitions[0].type_names.name, "OsString");
    let SerializeDefinitionKind::Enum(shape) = &definitions[0].kind else {
        panic!("an OS string should be an enum");
    };
    assert_eq!(shape.repr, Tagging::External);
    assert_eq!(shape.variants.len(), 1);
    assert_eq!(shape.variants[0].name, "Unix");
    assert_eq!(shape.variants[0].style, FieldsStyle::Newtype);
    let SerializeVariantContent::Fields(fields) = &shape.variants[0].content else {
        panic!("the platform variant should carry one field");
    };
    assert_eq!(
        fields[0].wire_shape,
        FieldWireShape::Value(ShapeRef::Sequence(Box::new(ShapeRef::U8)))
    );

    let mut deserialize = DeserializeShapeContext::new();
    deserialize_os_string(
        &mut deserialize,
        TypeName::of::<String>("OsString"),
        OsPlatform::Windows,
    );
    let definitions = deserialize.finish();
    let DeserializeDefinitionKind::Enum(shape) = &definitions[0].kind else {
        panic!("an OS string should be an enum");
    };
    assert_eq!(shape.variants[0].name, "Windows");
    assert_eq!(shape.variants[0].aliases, vec!["Windows"]);
    let DeserializeVariantContent::Fields(fields) = &shape.variants[0].content else {
        panic!("the platform variant should carry one field");
    };
    assert_eq!(
        fields[0].wire_shape,
        FieldWireShape::Value(ShapeRef::Sequence(Box::new(ShapeRef::U16)))
    );
}
