use serde_shape::shape::{order_shapes, shapes_equal};
use serde_shape::{OpaqueReason, OpaqueShape, SerializeShapeGraph, ShapeRef};

#[test]
fn classifies_flat_numeric_shapes() {
    assert!(ShapeRef::I8.is_signed_integer());
    assert!(ShapeRef::Usize.is_unsigned_integer());
    assert!(ShapeRef::I128.is_integer());
    assert!(ShapeRef::U64.is_integer());
    assert!(ShapeRef::F32.is_float());
    assert!(ShapeRef::F64.is_number());
    assert!(!ShapeRef::String.is_number());
}

#[test]
fn classifies_union_numeric_shapes() {
    assert!(ShapeRef::union(vec![ShapeRef::I8, ShapeRef::U64]).is_integer());
    assert!(ShapeRef::union(vec![ShapeRef::F32, ShapeRef::F64]).is_float());
    assert!(ShapeRef::union(vec![ShapeRef::I16, ShapeRef::F64]).is_number());
    assert!(!ShapeRef::union(vec![ShapeRef::String, ShapeRef::U64]).is_integer());
}

#[test]
fn normalizes_union_shapes() {
    assert_eq!(ShapeRef::try_union(vec![]), None);
    assert_eq!(ShapeRef::union(vec![ShapeRef::String]), ShapeRef::String);
    assert_eq!(
        ShapeRef::union(vec![ShapeRef::String, ShapeRef::I8]),
        ShapeRef::union(vec![ShapeRef::I8, ShapeRef::String])
    );

    let union = ShapeRef::union(vec![
        ShapeRef::String,
        ShapeRef::I8,
        ShapeRef::union(vec![ShapeRef::U64, ShapeRef::String]),
        ShapeRef::I8,
    ]);
    let ShapeRef::Union(union) = union else {
        panic!("multiple distinct alternatives should produce a union");
    };
    assert_eq!(
        union.alternatives(),
        &[ShapeRef::I8, ShapeRef::U64, ShapeRef::String]
    );
}

#[test]
fn union_depends_only_on_the_set_of_alternatives() {
    let grouped = ShapeRef::union(vec![
        ShapeRef::union(vec![ShapeRef::Bool, ShapeRef::Char]),
        ShapeRef::U8,
    ]);
    let reordered = ShapeRef::union(vec![
        ShapeRef::U8,
        ShapeRef::Char,
        ShapeRef::Bool,
        ShapeRef::Char,
    ]);
    assert_eq!(grouped, reordered);
    let ShapeRef::Union(union) = grouped else {
        panic!("three distinct alternatives should produce a union");
    };
    assert_eq!(
        union.alternatives(),
        &[ShapeRef::Bool, ShapeRef::Char, ShapeRef::U8]
    );
}

#[test]
fn union_of_one_normalized_shape_is_itself() {
    let union = ShapeRef::union(vec![ShapeRef::U16, ShapeRef::Unit]);
    assert_eq!(ShapeRef::union(vec![union.clone()]), union);
    assert_eq!(ShapeRef::union(vec![union.clone(), union.clone()]), union);
    assert_eq!(
        ShapeRef::try_union(vec![ShapeRef::Bytes, ShapeRef::Bytes]),
        Some(ShapeRef::Bytes)
    );
}

#[test]
fn orders_compound_alternatives_by_their_contents() {
    let short = ShapeRef::Array {
        item: Box::new(ShapeRef::U8),
        len: 4,
    };
    let long = ShapeRef::Array {
        item: Box::new(ShapeRef::U8),
        len: 16,
    };
    let tuple = ShapeRef::Tuple(vec![ShapeRef::U8, ShapeRef::Bool]);
    let union = ShapeRef::union(vec![tuple.clone(), long.clone(), short.clone()]);
    let ShapeRef::Union(union) = union else {
        panic!("three distinct alternatives should produce a union");
    };
    assert_eq!(union.alternatives(), &[short, long, tuple]);

    let graph = SerializeShapeGraph::for_type::<(Result<u8, u8>, core::ops::Bound<u8>)>();
    let ShapeRef::Tuple(items) = graph.root() else {
        panic!("a pair should produce a tuple shape");
    };
    let (first, second) = (&items[0], &items[1]);
    assert!(matches!(first, ShapeRef::Definition(id) if id.index() == 0));
    assert!(matches!(second, ShapeRef::Definition(id) if id.index() == 1));
    assert_eq!(order_shapes(first, second), -1);
    assert_eq!(order_shapes(second, first), 1);
    assert_eq!(order_shapes(second, &second.clone()), 0);
}

#[test]
fn orders_opaque_shapes_by_label_reason_and_detail() {
    let opaque = |label: &'static str, reason: OpaqueReason, detail: Option<&'static str>| {
        ShapeRef::Opaque(OpaqueShape {
            type_label: label,
            reason,
            detail,
        })
    };
    let a = opaque("a", OpaqueReason::Unsupported, None);
    let b = opaque("b", OpaqueReason::Unsupported, None);
    let a_detail = opaque("a", OpaqueReason::Unsupported, Some("x"));
    assert_eq!(order_shapes(&a, &b), -1);
    assert_eq!(order_shapes(&a, &a_detail), -1);
    assert_eq!(order_shapes(&a_detail, &a), 1);
    assert!(shapes_equal(&a, &a.clone()));
    assert!(!shapes_equal(&a, &b));
}

#[test]
fn compares_shapes_by_variant_before_contents() {
    assert_eq!(order_shapes(&ShapeRef::Unit, &ShapeRef::Bool), -1);
    assert_eq!(order_shapes(&ShapeRef::String, &ShapeRef::I8), 1);
    assert_eq!(
        order_shapes(
            &ShapeRef::Option(Box::new(ShapeRef::String)),
            &ShapeRef::Sequence(Box::new(ShapeRef::Unit)),
        ),
        -1
    );
    assert!(shapes_equal(
        &ShapeRef::Mapping {
            key: Box::new(ShapeRef::String),
            value: Box::new(ShapeRef::U8),
        },
        &ShapeRef::Mapping {
            key: Box::new(ShapeRef::String),
            value: Box::new(ShapeRef::U8),
        },
    ));
}

#[test]
fn classifies_integer_kinds_through_unions() {
    let mixed = ShapeRef::union(vec![ShapeRef::I8, ShapeRef::U8]);
    assert!(mixed.is_integer());
    assert!(!mixed.is_signed_integer());
    assert!(!mixed.is_unsigned_integer());
    assert!(mixed.is_number());
    assert!(!mixed.is_float());

    let signed = ShapeRef::union(vec![ShapeRef::I64, ShapeRef::Isize]);
    assert!(signed.is_signed_integer());
    assert!(signed.is_integer());

    let unsigned = ShapeRef::union(vec![ShapeRef::U128, ShapeRef::Usize]);
    assert!(unsigned.is_unsigned_integer());
    assert!(!unsigned.is_signed_integer());

    assert!(!ShapeRef::Option(Box::new(ShapeRef::U8)).is_number());
    assert!(!ShapeRef::union(vec![ShapeRef::F32, ShapeRef::Bool]).is_number());
}
