//! The mathematical model of shape references and their canonical order.
//!
//! [`Shape`] mirrors [`crate::ShapeRef`] with sequences in place of vectors and character
//! sequences in place of strings. [`shape_order`] is the canonical total order that normalized
//! unions use: variants compare by declaration order first, then by their fields, with nested
//! shapes compared recursively and sequences compared lexicographically.
use vstd::prelude::*;

verus! {

/// Reason a shape cannot be represented precisely.
#[derive(Clone, Copy, Debug, Eq, Ord, PartialEq, PartialOrd, Hash)]
pub enum OpaqueReason {
    /// A custom serializer controls the output. Derive-generated `detail` is a parseable Rust path
    /// token stream whose whitespace is not normalized.
    CustomSerializer,
    /// A custom deserializer controls the input. Derive-generated `detail` is a parseable Rust
    /// path token stream whose whitespace is not normalized.
    CustomDeserializer,
    /// The type has no built-in shape implementation.
    Unsupported,
    /// The surrounding representation contains no values of this type.
    Unobserved,
}

/// The model of an opaque shape.
pub struct OpaqueModel {
    pub type_label: Seq<char>,
    pub reason: OpaqueReason,
    pub detail: Option<Seq<char>>,
}

/// The model of a shape reference.
pub enum Shape {
    Unit,
    Bool,
    Char,
    I8,
    I16,
    I32,
    I64,
    I128,
    Isize,
    U8,
    U16,
    U32,
    U64,
    U128,
    Usize,
    F32,
    F64,
    String,
    Bytes,
    Option(Box<Shape>),
    Sequence(Box<Shape>),
    Array { item: Box<Shape>, len: usize },
    Mapping { key: Box<Shape>, value: Box<Shape> },
    Tuple(Seq<Shape>),
    Union(Seq<Shape>),
    Definition(usize),
    Opaque(OpaqueModel),
}

/// The declaration index of a shape's variant.
pub open spec fn rank(s: Shape) -> int {
    match s {
        Shape::Unit => 0,
        Shape::Bool => 1,
        Shape::Char => 2,
        Shape::I8 => 3,
        Shape::I16 => 4,
        Shape::I32 => 5,
        Shape::I64 => 6,
        Shape::I128 => 7,
        Shape::Isize => 8,
        Shape::U8 => 9,
        Shape::U16 => 10,
        Shape::U32 => 11,
        Shape::U64 => 12,
        Shape::U128 => 13,
        Shape::Usize => 14,
        Shape::F32 => 15,
        Shape::F64 => 16,
        Shape::String => 17,
        Shape::Bytes => 18,
        Shape::Option(_) => 19,
        Shape::Sequence(_) => 20,
        Shape::Array { .. } => 21,
        Shape::Mapping { .. } => 22,
        Shape::Tuple(_) => 23,
        Shape::Union(_) => 24,
        Shape::Definition(_) => 25,
        Shape::Opaque(_) => 26,
    }
}

/// The declaration index of an opaque reason.
pub open spec fn reason_rank(r: OpaqueReason) -> int {
    match r {
        OpaqueReason::CustomSerializer => 0,
        OpaqueReason::CustomDeserializer => 1,
        OpaqueReason::Unsupported => 2,
        OpaqueReason::Unobserved => 3,
    }
}

/// Three-way comparison of integers: -1, 0 or 1.
pub open spec fn int_order(a: int, b: int) -> int {
    if a < b {
        -1
    } else if a == b {
        0
    } else {
        1
    }
}

/// Lexicographic comparison of character sequences by code point.
pub open spec fn chars_order(a: Seq<char>, b: Seq<char>) -> int
    decreases a.len(),
{
    if a.len() == 0 {
        if b.len() == 0 {
            0
        } else {
            -1
        }
    } else if b.len() == 0 {
        1
    } else if a[0] != b[0] {
        int_order(a[0] as int, b[0] as int)
    } else {
        chars_order(a.drop_first(), b.drop_first())
    }
}

/// Comparison of optional character sequences, with `None` first.
pub open spec fn opt_chars_order(a: Option<Seq<char>>, b: Option<Seq<char>>) -> int {
    match (a, b) {
        (None, None) => 0,
        (None, Some(_)) => -1,
        (Some(_), None) => 1,
        (Some(x), Some(y)) => chars_order(x, y),
    }
}

/// Comparison of opaque shapes by type name, reason and detail.
pub open spec fn opaque_order(a: OpaqueModel, b: OpaqueModel) -> int {
    let c = chars_order(a.type_label, b.type_label);
    if c != 0 {
        c
    } else {
        let r = int_order(reason_rank(a.reason), reason_rank(b.reason));
        if r != 0 {
            r
        } else {
            opt_chars_order(a.detail, b.detail)
        }
    }
}

/// The canonical three-way order of shapes: -1, 0 or 1.
pub open spec fn shape_order(a: Shape, b: Shape) -> int
    decreases a,
{
    if rank(a) != rank(b) {
        int_order(rank(a), rank(b))
    } else {
        match a {
            Shape::Option(x) => match b {
                Shape::Option(y) => shape_order(*x, *y),
                _ => 0,
            },
            Shape::Sequence(x) => match b {
                Shape::Sequence(y) => shape_order(*x, *y),
                _ => 0,
            },
            Shape::Array { item: x, len: l } => match b {
                Shape::Array { item: y, len: m } => {
                    let c = shape_order(*x, *y);
                    if c != 0 {
                        c
                    } else {
                        int_order(l as int, m as int)
                    }
                },
                _ => 0,
            },
            Shape::Mapping { key: k1, value: v1 } => match b {
                Shape::Mapping { key: k2, value: v2 } => {
                    let c = shape_order(*k1, *k2);
                    if c != 0 {
                        c
                    } else {
                        shape_order(*v1, *v2)
                    }
                },
                _ => 0,
            },
            Shape::Tuple(xs) => match b {
                Shape::Tuple(ys) => seq_order(xs, ys),
                _ => 0,
            },
            Shape::Union(xs) => match b {
                Shape::Union(ys) => seq_order(xs, ys),
                _ => 0,
            },
            Shape::Definition(i) => match b {
                Shape::Definition(j) => int_order(i as int, j as int),
                _ => 0,
            },
            Shape::Opaque(o) => match b {
                Shape::Opaque(p) => opaque_order(o, p),
                _ => 0,
            },
            _ => 0,
        }
    }
}

/// Lexicographic comparison of shape sequences.
pub open spec fn seq_order(xs: Seq<Shape>, ys: Seq<Shape>) -> int
    decreases xs,
{
    if xs.len() == 0 {
        if ys.len() == 0 {
            0
        } else {
            -1
        }
    } else if ys.len() == 0 {
        1
    } else {
        let c = shape_order(xs[0], ys[0]);
        if c != 0 {
            c
        } else {
            seq_order(xs.drop_first(), ys.drop_first())
        }
    }
}

/// A sequence whose elements strictly increase in the canonical order.
pub open spec fn strictly_sorted(s: Seq<Shape>) -> bool {
    forall|i: int, j: int| 0 <= i < j < s.len() ==> #[trigger] shape_order(s[i], s[j]) < 0
}

// ---------------------------------------------------------------------------------------------
// Character sequences

pub proof fn lemma_chars_order_basic(a: Seq<char>, b: Seq<char>)
    ensures
        -1 <= chars_order(a, b) <= 1,
        chars_order(a, b) == -chars_order(b, a),
        chars_order(a, b) == 0 <==> a == b,
    decreases a.len(),
{
    if a.len() > 0 && b.len() > 0 && a[0] == b[0] {
        lemma_chars_order_basic(a.drop_first(), b.drop_first());
        if a.drop_first() == b.drop_first() {
            assert(a =~= seq![a[0]] + a.drop_first());
            assert(b =~= seq![b[0]] + b.drop_first());
        }
    }
    if a.len() == 0 && b.len() == 0 {
        assert(a =~= b);
    }
}

proof fn lemma_chars_order_trans(a: Seq<char>, b: Seq<char>, c: Seq<char>)
    requires
        chars_order(a, b) < 0,
        chars_order(b, c) < 0,
    ensures
        chars_order(a, c) < 0,
    decreases a.len(),
{
    if a.len() > 0 && b.len() > 0 && c.len() > 0 && a[0] == b[0] && b[0] == c[0] {
        lemma_chars_order_trans(a.drop_first(), b.drop_first(), c.drop_first());
    }
}

proof fn lemma_opaque_order_basic(a: OpaqueModel, b: OpaqueModel)
    ensures
        -1 <= opaque_order(a, b) <= 1,
        opaque_order(a, b) == -opaque_order(b, a),
        opaque_order(a, b) == 0 <==> a == b,
{
    lemma_chars_order_basic(a.type_label, b.type_label);
    match (a.detail, b.detail) {
        (Some(x), Some(y)) => lemma_chars_order_basic(x, y),
        _ => {},
    }
}

proof fn lemma_opaque_order_trans(a: OpaqueModel, b: OpaqueModel, c: OpaqueModel)
    requires
        opaque_order(a, b) < 0,
        opaque_order(b, c) < 0,
    ensures
        opaque_order(a, c) < 0,
{
    lemma_opaque_order_basic(a, b);
    lemma_opaque_order_basic(b, c);
    lemma_opaque_order_basic(a, c);
    lemma_chars_order_basic(a.type_label, b.type_label);
    lemma_chars_order_basic(b.type_label, c.type_label);
    lemma_chars_order_basic(a.type_label, c.type_label);
    if chars_order(a.type_label, b.type_label) < 0 && chars_order(b.type_label, c.type_label) < 0 {
        lemma_chars_order_trans(a.type_label, b.type_label, c.type_label);
    }
    match (a.detail, b.detail, c.detail) {
        (Some(x), Some(y), Some(z)) => {
            lemma_chars_order_basic(x, y);
            lemma_chars_order_basic(y, z);
            lemma_chars_order_basic(x, z);
            if chars_order(x, y) < 0 && chars_order(y, z) < 0 {
                lemma_chars_order_trans(x, y, z);
            }
        },
        _ => {},
    }
}

// ---------------------------------------------------------------------------------------------
// Shapes

/// The canonical order is a three-way order that is antisymmetric and holds `0` exactly
/// between equal shapes.
pub proof fn lemma_shape_order_basic(a: Shape, b: Shape)
    ensures
        -1 <= shape_order(a, b) <= 1,
        shape_order(a, b) == -shape_order(b, a),
        shape_order(a, b) == 0 <==> a == b,
    decreases a,
{
    if rank(a) == rank(b) {
        match a {
            Shape::Option(x) => match b {
                Shape::Option(y) => lemma_shape_order_basic(*x, *y),
                _ => {},
            },
            Shape::Sequence(x) => match b {
                Shape::Sequence(y) => lemma_shape_order_basic(*x, *y),
                _ => {},
            },
            Shape::Array { item: x, len: _ } => match b {
                Shape::Array { item: y, len: _ } => lemma_shape_order_basic(*x, *y),
                _ => {},
            },
            Shape::Mapping { key: k1, value: v1 } => match b {
                Shape::Mapping { key: k2, value: v2 } => {
                    lemma_shape_order_basic(*k1, *k2);
                    lemma_shape_order_basic(*v1, *v2);
                },
                _ => {},
            },
            Shape::Tuple(xs) => match b {
                Shape::Tuple(ys) => lemma_seq_order_basic(xs, ys),
                _ => {},
            },
            Shape::Union(xs) => match b {
                Shape::Union(ys) => lemma_seq_order_basic(xs, ys),
                _ => {},
            },
            Shape::Opaque(o) => match b {
                Shape::Opaque(p) => lemma_opaque_order_basic(o, p),
                _ => {},
            },
            _ => {},
        }
    }
}

/// Lexicographic order on shape sequences has the same properties as the element order.
pub proof fn lemma_seq_order_basic(xs: Seq<Shape>, ys: Seq<Shape>)
    ensures
        -1 <= seq_order(xs, ys) <= 1,
        seq_order(xs, ys) == -seq_order(ys, xs),
        seq_order(xs, ys) == 0 <==> xs == ys,
    decreases xs,
{
    if xs.len() == 0 && ys.len() == 0 {
        assert(xs =~= ys);
    }
    if xs.len() > 0 && ys.len() > 0 {
        lemma_shape_order_basic(xs[0], ys[0]);
        if shape_order(xs[0], ys[0]) == 0 {
            lemma_seq_order_basic(xs.drop_first(), ys.drop_first());
            if xs.drop_first() == ys.drop_first() {
                assert(xs =~= seq![xs[0]] + xs.drop_first());
                assert(ys =~= seq![ys[0]] + ys.drop_first());
            }
        }
    }
}

/// The canonical order is transitive.
pub proof fn lemma_shape_order_trans(a: Shape, b: Shape, c: Shape)
    requires
        shape_order(a, b) < 0,
        shape_order(b, c) < 0,
    ensures
        shape_order(a, c) < 0,
    decreases a,
{
    lemma_shape_order_basic(a, b);
    lemma_shape_order_basic(b, c);
    lemma_shape_order_basic(a, c);
    if rank(a) == rank(b) && rank(b) == rank(c) {
        match (a, b, c) {
            (Shape::Option(x), Shape::Option(y), Shape::Option(z)) => {
                lemma_shape_order_trans(*x, *y, *z);
            },
            (Shape::Sequence(x), Shape::Sequence(y), Shape::Sequence(z)) => {
                lemma_shape_order_trans(*x, *y, *z);
            },
            (
                Shape::Array { item: x, len: _ },
                Shape::Array { item: y, len: _ },
                Shape::Array { item: z, len: _ },
            ) => {
                lemma_shape_order_basic(*x, *y);
                lemma_shape_order_basic(*y, *z);
                if shape_order(*x, *y) < 0 && shape_order(*y, *z) < 0 {
                    lemma_shape_order_trans(*x, *y, *z);
                }
            },
            (
                Shape::Mapping { key: k1, value: v1 },
                Shape::Mapping { key: k2, value: v2 },
                Shape::Mapping { key: k3, value: v3 },
            ) => {
                lemma_shape_order_basic(*k1, *k2);
                lemma_shape_order_basic(*k2, *k3);
                lemma_shape_order_basic(*v1, *v2);
                lemma_shape_order_basic(*v2, *v3);
                if shape_order(*k1, *k2) < 0 && shape_order(*k2, *k3) < 0 {
                    lemma_shape_order_trans(*k1, *k2, *k3);
                }
                if shape_order(*v1, *v2) < 0 && shape_order(*v2, *v3) < 0 {
                    lemma_shape_order_trans(*v1, *v2, *v3);
                }
            },
            (Shape::Tuple(xs), Shape::Tuple(ys), Shape::Tuple(zs)) => {
                lemma_seq_order_trans(xs, ys, zs);
            },
            (Shape::Union(xs), Shape::Union(ys), Shape::Union(zs)) => {
                lemma_seq_order_trans(xs, ys, zs);
            },
            (Shape::Opaque(o), Shape::Opaque(p), Shape::Opaque(q)) => {
                lemma_opaque_order_trans(o, p, q);
            },
            _ => {},
        }
    }
}

/// Lexicographic order on shape sequences is transitive.
pub proof fn lemma_seq_order_trans(xs: Seq<Shape>, ys: Seq<Shape>, zs: Seq<Shape>)
    requires
        seq_order(xs, ys) < 0,
        seq_order(ys, zs) < 0,
    ensures
        seq_order(xs, zs) < 0,
    decreases xs,
{
    if xs.len() > 0 && ys.len() > 0 && zs.len() > 0 {
        lemma_shape_order_basic(xs[0], ys[0]);
        lemma_shape_order_basic(ys[0], zs[0]);
        lemma_shape_order_basic(xs[0], zs[0]);
        let c1 = shape_order(xs[0], ys[0]);
        let c2 = shape_order(ys[0], zs[0]);
        if c1 < 0 && c2 < 0 {
            lemma_shape_order_trans(xs[0], ys[0], zs[0]);
        } else if c1 == 0 && c2 == 0 {
            lemma_seq_order_trans(xs.drop_first(), ys.drop_first(), zs.drop_first());
        }
    }
}

} // verus!
