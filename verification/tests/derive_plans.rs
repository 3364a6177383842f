use serde_shape::plan::{
    deserialize_body_source, deserialize_definition_kind, deserialize_field_shape,
    deserialize_variant_shape, BodySource, ContainerData, CowElement, DeserializeContainerAttrs,
    DeserializeFieldAttrs, DeserializeVariantAttrs, Identifier, TagType,
};
use serde_shape::attrs::{
    check_serializable, validate_shape_attrs, IdentifierError, ItemPosition, ShapeAttrError,
    ShapeAttrs,
};
use serde_shape::bounds::{cow_element, is_byte_slice, is_primitive_type, TypeExpr};
use serde_shape::description::description;
use serde_shape::{
    DefaultShape, DeserializeDefinitionKind, DeserializeFieldShape, DeserializeShapeContext,
    DeserializeShapeGraph, DeserializeVariantContent, DeserializeVariantShape, FieldMember,
    FieldWireShape, FieldsStyle, ShapeRef, Tagging, TypeName,
};

fn field_attrs(member: &'static str, name: &'static str, type_label: &'static str) -> DeserializeFieldAttrs {
    DeserializeFieldAttrs {
        member: FieldMember::Named(member),
        name,
        aliases: vec![name],
        description: None,
        skip: false,
        default: DefaultShape::Unset,
        flatten: false,
        transparent: false,
        shape_hook: false,
        custom_deserializer: None,
        borrowed: false,
        explicit_deserializer: false,
        cow_element: CowElement::NotCow,
        type_label,
    }
}

fn variant_attrs(rust_name: &'static str, name: &'static str, style: FieldsStyle) -> DeserializeVariantAttrs {
    DeserializeVariantAttrs {
        rust_name,
        name,
        aliases: vec![name],
        description: None,
        style,
        skip: false,
        other: false,
        untagged: false,
        shape_hook: false,
        custom_deserializer: None,
        type_label: "Storage",
    }
}

fn container_attrs(tag: TagType) -> DeserializeContainerAttrs {
    DeserializeContainerAttrs {
        deny_unknown_fields: false,
        default: DefaultShape::Unset,
        expecting: None,
        non_exhaustive: false,
        transparent: false,
        tag,
        identifier: Identifier::No,
    }
}

/// `#[serde(tag = "type", rename_all = "kebab-case", rename_all_fields = "kebab-case")]`
/// `enum Storage { #[serde(alias = "s3-compatible")] S3 { bucket_name: String },
/// AzBlob { container_name: String }, #[serde(other)] Other }`, marked `#[non_exhaustive]`.
fn storage_kind(with_other: bool) -> DeserializeDefinitionKind {
    let bucket = deserialize_field_shape(
        field_attrs("bucket_name", "bucket-name", "String"),
        ShapeRef::String,
    );
    let container = deserialize_field_shape(
        field_attrs("container_name", "container-name", "String"),
        ShapeRef::String,
    );
    let s3 = DeserializeVariantAttrs {
        aliases: vec!["s3", "s3-compatible"],
        ..variant_attrs("S3", "s3", FieldsStyle::Struct)
    };
    let mut variants: Vec<DeserializeVariantShape> = vec![
        deserialize_variant_shape(s3, ShapeRef::Unit, vec![bucket]),
        deserialize_variant_shape(
            variant_attrs("AzBlob", "az-blob", FieldsStyle::Struct),
            ShapeRef::Unit,
            vec![container],
        ),
    ];
    if with_other {
        let other = DeserializeVariantAttrs {
            other: true,
            ..variant_attrs("Other", "other", FieldsStyle::Unit)
        };
        variants.push(deserialize_variant_shape(other, ShapeRef::Unit, vec![]));
    }
    let attrs = DeserializeContainerAttrs {
        non_exhaustive: with_other,
        ..container_attrs(TagType::Internal { tag: "type" })
    };
    deserialize_definition_kind(&attrs, ContainerData::Enum, vec![], variants)
}

fn define_storage(context: &mut DeserializeShapeContext, with_other: bool) -> ShapeRef {
    context.define_named_type(
        TypeName { rust_name: "derive::Storage", name: "Storage" },
        move |_| storage_kind(with_other),
    )
}

fn variant_fields(variant: &DeserializeVariantShape) -> &Vec<DeserializeFieldShape> {
    match &variant.content {
        DeserializeVariantContent::Fields(fields) => fields,
        content => panic!("unexpected variant content: {content:?}"),
    }
}

/// `#[serde(rename_all = "kebab-case", deny_unknown_fields)]`
/// `struct Config { http_port: u16, #[serde(alias = "endpoint")] api_url: Option<String>,
/// #[serde(flatten)] storage: Storage }`
fn define_config(context: &mut DeserializeShapeContext) -> ShapeRef {
    context.define_named_type(
        TypeName { rust_name: "derive::Config", name: "Config" },
        |context| {
            let port = deserialize_field_shape(
                field_attrs("http_port", "http-port", "u16"),
                ShapeRef::U16,
            );
            let api_url = deserialize_field_shape(
                DeserializeFieldAttrs {
                    aliases: vec!["api-url", "endpoint"],
                    ..field_attrs("api_url", "api-url", "Option<String>")
                },
                ShapeRef::Option(Box::new(ShapeRef::String)),
            );
            let storage_shape = define_storage(context, false);
            let storage = deserialize_field_shape(
                DeserializeFieldAttrs { flatten: true, ..field_attrs("storage", "storage", "Storage") },
                storage_shape,
            );
            let attrs = DeserializeContainerAttrs {
                deny_unknown_fields: true,
                ..container_attrs(TagType::External)
            };
            deserialize_definition_kind(
                &attrs,
                ContainerData::Struct(FieldsStyle::Struct),
                vec![port, api_url, storage],
                vec![],
            )
        },
    )
}

#[test]
fn derives_struct_shape_from_serde_attrs() {
    let graph = DeserializeShapeGraph::from_fn(define_config);
    let ShapeRef::Definition(root_id) = graph.root().clone() else {
        panic!("unexpected root shape: {:?}", graph.root());
    };
    let config = graph.definition(root_id).unwrap();
    assert_eq!(config.type_names.name, "Config");

    let DeserializeDefinitionKind::Struct(config) = &config.kind else {
        panic!("expected struct shape");
    };
    assert_eq!(config.style, FieldsStyle::Struct);
    assert!(config.attributes.deny_unknown_fields);
    assert_eq!(config.fields.len(), 3);

    let port = &config.fields[0];
    assert_eq!(port.name, "http-port");
    assert_eq!(port.wire_shape, FieldWireShape::Value(ShapeRef::U16));

    let api_url = &config.fields[1];
    assert_eq!(api_url.name, "api-url");
    assert!(api_url.aliases.contains(&"endpoint"));

    let storage = &config.fields[2];
    assert_eq!(storage.name, "storage");
    assert!(matches!(storage.wire_shape, FieldWireShape::Flatten(ShapeRef::Definition(_))));
}

#[test]
fn derives_internally_tagged_enum_shape() {
    let graph = DeserializeShapeGraph::from_fn(|context| define_storage(context, false));
    let ShapeRef::Definition(root_id) = graph.root().clone() else {
        panic!("unexpected root shape: {:?}", graph.root());
    };
    let storage = graph.definition(root_id).unwrap();
    let DeserializeDefinitionKind::Enum(storage) = &storage.kind else {
        panic!("expected enum shape");
    };

    assert_eq!(storage.repr, Tagging::Internal { tag: "type" });
    assert_eq!(storage.variants.len(), 2);
    assert_eq!(storage.variants[0].name, "s3");
    assert_eq!(storage.variants[1].name, "az-blob");
    assert_eq!(variant_fields(&storage.variants[0])[0].name, "bucket-name");
}

#[test]
fn derives_struct_shape_from_container_and_field_attrs() {
    // `#[serde(rename_all = "kebab-case", deny_unknown_fields, default,
    // expecting = "config object")]`, with a defaulted, a skipped and a custom field beside
    // the fields of `define_config`.
    let graph = DeserializeShapeGraph::from_fn(|context| {
        context.define_named_type(
            TypeName { rust_name: "derive::Config", name: "Config" },
            |context| {
                let port = deserialize_field_shape(
                    field_attrs("http_port", "http-port", "u16"),
                    ShapeRef::U16,
                );
                let api_url = deserialize_field_shape(
                    DeserializeFieldAttrs {
                        aliases: vec!["api-url", "endpoint"],
                        ..field_attrs("api_url", "api-url", "Option<String>")
                    },
                    ShapeRef::Option(Box::new(ShapeRef::String)),
                );
                let retries = deserialize_field_shape(
                    DeserializeFieldAttrs {
                        default: DefaultShape::Path("default_retries"),
                        ..field_attrs("retries", "retries", "u8")
                    },
                    ShapeRef::U8,
                );
                let storage_shape = define_storage(context, true);
                let storage = deserialize_field_shape(
                    DeserializeFieldAttrs { flatten: true, ..field_attrs("storage", "storage", "Storage") },
                    storage_shape,
                );
                let skipped = deserialize_field_shape(
                    DeserializeFieldAttrs { skip: true, ..field_attrs("skipped", "skipped", "NotShape") },
                    ShapeRef::Unit,
                );
                let secret = deserialize_field_shape(
                    DeserializeFieldAttrs {
                        custom_deserializer: Some("custom_secret"),
                        explicit_deserializer: true,
                        ..field_attrs("secret", "secret", "NotShape")
                    },
                    ShapeRef::Unit,
                );
                let attrs = DeserializeContainerAttrs {
                    deny_unknown_fields: true,
                    default: DefaultShape::Default,
                    expecting: Some("config object"),
                    ..container_attrs(TagType::External)
                };
                deserialize_definition_kind(
                    &attrs,
                    ContainerData::Struct(FieldsStyle::Struct),
                    vec![port, api_url, retries, storage, skipped, secret],
                    vec![],
                )
            },
        )
    });
    let ShapeRef::Definition(root_id) = graph.root().clone() else {
        panic!("unexpected root shape: {:?}", graph.root());
    };
    let config = graph.definition(root_id).unwrap();
    assert_eq!(config.type_names.name, "Config");
    let DeserializeDefinitionKind::Struct(config) = &config.kind else {
        panic!("expected struct shape");
    };
    assert_eq!(config.style, FieldsStyle::Struct);
    assert!(config.attributes.deny_unknown_fields);
    assert_eq!(config.attributes.default, DefaultShape::Default);
    assert_eq!(config.attributes.expecting, Some("config object"));
    assert_eq!(config.fields.len(), 6);

    let port = &config.fields[0];
    assert_eq!(port.member, FieldMember::Named("http_port"));
    assert_eq!(port.name, "http-port");
    assert_eq!(port.wire_shape, FieldWireShape::Value(ShapeRef::U16));

    let api_url = &config.fields[1];
    assert_eq!(api_url.name, "api-url");
    assert!(api_url.aliases.contains(&"endpoint"));
    assert!(matches!(api_url.wire_shape, FieldWireShape::Value(ShapeRef::Option(_))));

    let retries = &config.fields[2];
    assert_eq!(retries.name, "retries");
    assert_eq!(retries.default, DefaultShape::Path("default_retries"));

    let storage = &config.fields[3];
    assert_eq!(storage.name, "storage");
    assert!(matches!(storage.wire_shape, FieldWireShape::Flatten(ShapeRef::Definition(_))));

    assert_eq!(config.fields[4].wire_shape, FieldWireShape::Omitted);
    assert!(matches!(
        &config.fields[5].wire_shape,
        FieldWireShape::Value(ShapeRef::Opaque(opaque)) if opaque.detail == Some("custom_secret")
    ));
}

#[test]
fn derives_internally_tagged_enum_shape_from_variant_attrs() {
    let graph = DeserializeShapeGraph::from_fn(|context| define_storage(context, true));
    let ShapeRef::Definition(root_id) = graph.root().clone() else {
        panic!("unexpected root shape: {:?}", graph.root());
    };
    let storage = graph.definition(root_id).unwrap();
    let DeserializeDefinitionKind::Enum(storage) = &storage.kind else {
        panic!("expected enum shape");
    };

    assert_eq!(storage.repr, Tagging::Internal { tag: "type" });
    assert!(storage.attributes.non_exhaustive);
    assert_eq!(storage.variants.len(), 3);
    assert_eq!(storage.variants[0].rust_name, "S3");
    assert_eq!(storage.variants[0].name, "s3");
    assert!(storage.variants[0].aliases.contains(&"s3-compatible"));
    assert_eq!(storage.variants[1].name, "az-blob");
    assert_eq!(variant_fields(&storage.variants[0])[0].name, "bucket-name");
    assert!(storage.variants[2].other);
}

#[test]
fn derives_transparent_struct_shape() {
    // `#[serde(transparent)] struct UserId(u64);`
    let graph = DeserializeShapeGraph::from_fn(|context| {
        context.define_named_type(
            TypeName { rust_name: "derive::UserId", name: "UserId" },
            |_| {
                let inner = deserialize_field_shape(
                    DeserializeFieldAttrs {
                        member: FieldMember::Unnamed(0),
                        transparent: true,
                        ..field_attrs("0", "0", "u64")
                    },
                    ShapeRef::U64,
                );
                let attrs = DeserializeContainerAttrs {
                    transparent: true,
                    ..container_attrs(TagType::External)
                };
                deserialize_definition_kind(
                    &attrs,
                    ContainerData::Struct(FieldsStyle::Newtype),
                    vec![inner],
                    vec![],
                )
            },
        )
    });
    let ShapeRef::Definition(root_id) = graph.root().clone() else {
        panic!("unexpected root shape: {:?}", graph.root());
    };
    let DeserializeDefinitionKind::Struct(user_id) = &graph.definition(root_id).unwrap().kind else {
        panic!("expected struct shape");
    };

    assert_eq!(user_id.style, FieldsStyle::Newtype);
    assert!(user_id.attributes.transparent);
    assert_eq!(user_id.fields.len(), 1);
    assert_eq!(user_id.fields[0].member, FieldMember::Unnamed(0));
    assert_eq!(user_id.fields[0].wire_shape, FieldWireShape::Inline(ShapeRef::U64));
}

#[test]
fn marks_conversion_based_shape_as_opaque() {
    // `#[serde(from = "String")] struct FromString(String);` takes the shape of `String`
    // through the conversion, and defines nothing of its own.
    assert_eq!(deserialize_body_source(false, true, false), BodySource::Conversion);
    assert_eq!(deserialize_body_source(false, false, true), BodySource::Conversion);
    assert_eq!(deserialize_body_source(true, true, false), BodySource::Hook);
    assert_eq!(deserialize_body_source(false, false, false), BodySource::Definition);
}

/// `Config` as a derived implementation reads it from its attributes, with the fields of
/// `derives_struct_shape_from_container_and_field_attrs`.
fn config_graph() -> DeserializeShapeGraph {
    DeserializeShapeGraph::from_fn(|context| {
        context.define_named_type(
            TypeName { rust_name: "derive::Config", name: "Config" },
            |context| {
                let port = deserialize_field_shape(
                    field_attrs("http_port", "http-port", "u16"),
                    ShapeRef::U16,
                );
                let api_url = deserialize_field_shape(
                    DeserializeFieldAttrs {
                        aliases: vec!["api-url", "endpoint"],
                        ..field_attrs("api_url", "api-url", "Option<String>")
                    },
                    ShapeRef::Option(Box::new(ShapeRef::String)),
                );
                let retries = deserialize_field_shape(
                    DeserializeFieldAttrs {
                        default: DefaultShape::Path("default_retries"),
                        ..field_attrs("retries", "retries", "u8")
                    },
                    ShapeRef::U8,
                );
                let storage_shape = define_storage(context, true);
                let storage = deserialize_field_shape(
                    DeserializeFieldAttrs { flatten: true, ..field_attrs("storage", "storage", "Storage") },
                    storage_shape,
                );
                let skipped = deserialize_field_shape(
                    DeserializeFieldAttrs { skip: true, ..field_attrs("skipped", "skipped", "NotShape") },
                    ShapeRef::Unit,
                );
                let secret = deserialize_field_shape(
                    DeserializeFieldAttrs {
                        custom_deserializer: Some("custom_secret"),
                        explicit_deserializer: true,
                        ..field_attrs("secret", "secret", "NotShape")
                    },
                    ShapeRef::Unit,
                );
                let attrs = DeserializeContainerAttrs {
                    deny_unknown_fields: true,
                    default: DefaultShape::Default,
                    expecting: Some("config object"),
                    ..container_attrs(TagType::External)
                };
                deserialize_definition_kind(
                    &attrs,
                    ContainerData::Struct(FieldsStyle::Struct),
                    vec![port, api_url, retries, storage, skipped, secret],
                    vec![],
                )
            },
        )
    })
}

#[test]
fn exposes_deserialize_container_attributes() {
    let graph = config_graph();
    let definition = graph.root_definition().unwrap();
    let DeserializeDefinitionKind::Struct(shape) = &definition.kind else {
        panic!("definition should be a struct");
    };

    assert_eq!(shape.attributes.default, DefaultShape::Default);
    assert!(shape.attributes.deny_unknown_fields);
    assert_eq!(shape.attributes.expecting, Some("config object"));

    let [http_port, api_url, retries, storage, skipped, secret] = shape.fields.as_slice() else {
        panic!("config should expose all fields");
    };
    assert_eq!(http_port.name, "http-port");
    assert_eq!(api_url.aliases, ["api-url", "endpoint"]);
    assert_eq!(retries.default, DefaultShape::Path("default_retries"));
    assert!(matches!(storage.wire_shape, FieldWireShape::Flatten(_)));
    assert_eq!(skipped.wire_shape, FieldWireShape::Omitted);
    let FieldWireShape::Value(ShapeRef::Opaque(opaque)) = &secret.wire_shape else {
        panic!("custom deserializer should be opaque");
    };
    assert_eq!(opaque.reason, serde_shape::OpaqueReason::CustomDeserializer);
}

#[test]
fn exposes_deserialize_enum_attributes() {
    let graph = DeserializeShapeGraph::from_fn(|context| define_storage(context, true));
    let definition = graph.root_definition().unwrap();
    let DeserializeDefinitionKind::Enum(shape) = &definition.kind else {
        panic!("definition should be an enum");
    };

    assert_eq!(shape.repr, Tagging::Internal { tag: "type" });
    assert!(shape.attributes.non_exhaustive);
    assert_eq!(shape.variants[0].aliases, ["s3", "s3-compatible"]);
    assert!(shape.variants[2].other);
}

#[test]
fn exposes_transparent_shape() {
    let attrs = DeserializeContainerAttrs { transparent: true, ..container_attrs(TagType::External) };
    let inner = deserialize_field_shape(
        DeserializeFieldAttrs {
            member: FieldMember::Unnamed(0),
            transparent: true,
            ..field_attrs("0", "0", "u64")
        },
        ShapeRef::U64,
    );
    let DeserializeDefinitionKind::Struct(shape) = deserialize_definition_kind(
        &attrs,
        ContainerData::Struct(FieldsStyle::Newtype),
        vec![inner],
        vec![],
    ) else {
        panic!("transparent definition should be a struct");
    };
    assert!(shape.attributes.transparent);
    assert_eq!(shape.fields[0].wire_shape, FieldWireShape::Inline(ShapeRef::U64));
}

#[test]
fn preserves_rust_documentation() {
    // The `#[doc]` lines of `/// Selects the retry policy.`, `///` and
    // `/// This text is available to configuration tooling.`
    let container = description(&vec![
        " Selects the retry policy.",
        "",
        " This text is available to configuration tooling.",
    ]);
    assert_eq!(
        container.as_deref(),
        Some("Selects the retry policy.\n\nThis text is available to configuration tooling.")
    );
    assert_eq!(
        description(&vec![" Uses a fixed retry limit."]).as_deref(),
        Some("Uses a fixed retry limit.")
    );
    assert_eq!(
        description(&vec![" Maximum number of retry attempts."]).as_deref(),
        Some("Maximum number of retry attempts.")
    );
}

#[test]
fn trims_description_lines_and_drops_blank_ends() {
    assert_eq!(description(&vec![]), None);
    assert_eq!(description(&vec!["", "   ", " \t"]), None);
    assert_eq!(
        description(&vec!["", "  indented  ", "no space\t", "", "   "]).as_deref(),
        Some(" indented\nno space")
    );
    assert_eq!(description(&vec![" a\u{3000}", "b "]).as_deref(), Some("a\nb"));
}

#[test]
fn parses_shape_attributes() {
    let parsed = ShapeAttrs::parse(&vec![
        ("serialize_with", "serialize_duration"),
        ("deserialize_with", "deserialize_duration"),
    ])
    .unwrap();
    assert_eq!(parsed.serialize_with, Some("serialize_duration"));
    assert_eq!(parsed.deserialize_with, Some("deserialize_duration"));
    assert!(!parsed.has_bound());

    let bounded = ShapeAttrs::parse(&vec![
        ("bound.serialize", "T: SerializeShape"),
        ("bound.deserialize", "T: DeserializeShape"),
    ])
    .unwrap();
    assert_eq!(bounded.serialize_bound, Some("T: SerializeShape"));
    assert_eq!(bounded.deserialize_bound, Some("T: DeserializeShape"));
    assert!(bounded.has_bound());

    let duplicate = ShapeAttrs::parse(&vec![
        ("serialize_with", "a"),
        ("unknown_key", "b"),
        ("serialize_with", "c"),
    ]);
    assert_eq!(duplicate, Err(ShapeAttrError::Unknown("unknown_key")));
    let duplicate = ShapeAttrs::parse(&vec![("serialize_with", "a"), ("serialize_with", "c")]);
    assert_eq!(duplicate, Err(ShapeAttrError::Duplicate("serialize_with")));
    assert_eq!(
        ShapeAttrError::Duplicate("serialize_with").message(),
        "duplicate serde_shape attribute"
    );
}

#[test]
fn accepts_bounds_on_containers_only() {
    let bounded = ShapeAttrs { serialize_bound: Some("T: SerializeShape"), ..ShapeAttrs::default() };
    assert_eq!(validate_shape_attrs(&bounded, ItemPosition::Container), Ok(()));
    assert_eq!(
        validate_shape_attrs(&bounded, ItemPosition::Variant),
        Err(ShapeAttrError::BoundOnVariant)
    );
    assert_eq!(
        validate_shape_attrs(&bounded, ItemPosition::Field),
        Err(ShapeAttrError::BoundOnField)
    );
    assert_eq!(validate_shape_attrs(&ShapeAttrs::default(), ItemPosition::Field), Ok(()));
    assert_eq!(
        ShapeAttrError::BoundOnField.message(),
        "serde_shape bounds are supported on containers, not fields"
    );

    assert_eq!(check_serializable(Identifier::No), Ok(()));
    assert_eq!(check_serializable(Identifier::Field), Err(IdentifierError::FieldIdentifier));
    assert_eq!(
        IdentifierError::VariantIdentifier.message(),
        "variant identifiers cannot be serialized"
    );
}

fn path(name: &'static str, arguments: Vec<TypeExpr>) -> TypeExpr {
    TypeExpr::Path(vec![(name, arguments)])
}

#[test]
fn recognizes_borrowed_cow_elements() {
    let str_cow = path("Cow", vec![TypeExpr::Lifetime, path("str", vec![])]);
    assert_eq!(cow_element(&str_cow), CowElement::Str);
    let bytes_cow = TypeExpr::Group(Box::new(path(
        "Cow",
        vec![TypeExpr::Lifetime, TypeExpr::Slice(Box::new(path("u8", vec![])))],
    )));
    assert_eq!(cow_element(&bytes_cow), CowElement::Bytes);
    let other_cow = path("Cow", vec![TypeExpr::Lifetime, path("String", vec![])]);
    assert_eq!(cow_element(&other_cow), CowElement::Other);
    let without_lifetime = path("Cow", vec![path("str", vec![])]);
    assert_eq!(cow_element(&without_lifetime), CowElement::NotCow);
    let behind_reference = TypeExpr::Reference(Box::new(str_cow));
    assert_eq!(cow_element(&behind_reference), CowElement::NotCow);

    assert!(is_primitive_type(&path("u8", vec![]), "u8"));
    assert!(!is_primitive_type(&TypeExpr::Path(vec![("core", vec![]), ("u8", vec![])]), "u8"));
    assert!(is_byte_slice(&TypeExpr::Slice(Box::new(path("u8", vec![])))));
    assert!(!is_byte_slice(&TypeExpr::Slice(Box::new(path("u16", vec![])))));
}
