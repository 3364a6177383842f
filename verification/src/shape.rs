//! Shape references: the nodes of a shape graph, their canonical order and normalized unions.
use vstd::prelude::*;

use crate::model::{
    OpaqueModel, OpaqueReason, Shape, chars_order, int_order, lemma_shape_order_basic,
    lemma_shape_order_trans, opaque_order, opt_chars_order, rank, reason_rank, seq_order,
    shape_order, strictly_sorted,
};

verus! {

broadcast use vstd::seq::group_seq_axioms;

/// Identifies a named shape definition by its graph-local index.
///
/// An id does not carry the identity of its originating graph. Keep it paired with the graph that
/// produced it.
#[derive(Clone, Copy, Debug, Eq, Hash, Ord, PartialEq, PartialOrd)]
pub struct ShapeId(usize);

impl ShapeId {
    /// The graph-local definition index of this id.
    pub closed spec fn value(self) -> usize {
        self.0
    }

    /// Build the id of the definition at `index`.
    pub(crate) fn from_index(index: usize) -> (r: ShapeId)
        ensures
            r.value() == index,
    {
        ShapeId(index)
    }

    /// Return this id's graph-local definition index.
    pub fn index(self) -> (r: usize)
        ensures
            r == self.value(),
    {
        self.0
    }

    /// Two ids with the same index are the same id.
    pub proof fn lemma_value_determines(a: ShapeId, b: ShapeId)
        ensures
            a.value() == b.value() <==> a == b,
    {
    }
}

/// Shape intentionally left opaque.
#[derive(Clone, Copy, Debug, Eq, Ord, PartialEq, PartialOrd, Hash)]
pub struct OpaqueShape {
    /// The Rust type or Serde item that is opaque.
    pub type_label: &'static str,
    /// Why the shape is opaque.
    pub reason: OpaqueReason,
    /// Additional human-readable detail.
    pub detail: Option<&'static str>,
}

impl View for OpaqueShape {
    type V = OpaqueModel;

    open spec fn view(&self) -> OpaqueModel {
        OpaqueModel {
            type_label: self.type_label@,
            reason: self.reason,
            detail: match self.detail {
                Some(d) => Some(d@),
                None => None,
            },
        }
    }
}

/// A reference to a shape node.
#[derive(Debug, Eq, Ord, PartialEq, PartialOrd, Hash)]
#[non_exhaustive]
pub enum ShapeRef {
    /// Unit shape.
    Unit,
    /// Boolean shape.
    Bool,
    /// Character shape.
    Char,
    /// `i8` shape.
    I8,
    /// `i16` shape.
    I16,
    /// `i32` shape.
    I32,
    /// `i64` shape.
    I64,
    /// `i128` shape.
    I128,
    /// `isize` shape.
    Isize,
    /// `u8` shape.
    U8,
    /// `u16` shape.
    U16,
    /// `u32` shape.
    U32,
    /// `u64` shape.
    U64,
    /// `u128` shape.
    U128,
    /// `usize` shape.
    Usize,
    /// `f32` shape.
    F32,
    /// `f64` shape.
    F64,
    /// UTF-8 string shape.
    String,
    /// Serde byte-buffer data-model shape.
    Bytes,
    /// Optional value shape.
    Option(Box<ShapeRef>),
    /// Sequence shape.
    Sequence(Box<ShapeRef>),
    /// Fixed-size array shape.
    ///
    /// Built-in array implementations follow Serde's supported lengths of 0 through 32. Manual
    /// implementations may construct other lengths for custom representations.
    Array {
        /// The array item shape.
        item: Box<ShapeRef>,
        /// The array length.
        len: usize,
    },
    /// Map shape.
    Mapping {
        /// The map key shape.
        key: Box<ShapeRef>,
        /// The map value shape.
        value: Box<ShapeRef>,
    },
    /// Tuple shape.
    Tuple(Vec<ShapeRef>),
    /// A normalized union of two or more possible value shapes.
    ///
    /// Construct unions with [`ShapeRef::union`] or [`ShapeRef::try_union`].
    Union(UnionShape),
    /// Named type definition reference.
    Definition(ShapeId),
    /// Shape intentionally left opaque.
    Opaque(OpaqueShape),
}

/// The normalized alternatives contained by [`ShapeRef::Union`].
///
/// A union always contains at least two distinct alternatives in canonical order. Use
/// [`ShapeRef::union`] or [`ShapeRef::try_union`] to construct one. Alternatives may overlap; a
/// union means that any alternative is possible, not that exactly one alternative must match.
#[derive(Debug, Eq, Ord, PartialEq, PartialOrd, Hash)]
pub struct UnionShape {
    alternatives: Vec<ShapeRef>,
}

/// The model of a shape reference.
pub open spec fn shape_view(s: ShapeRef) -> Shape
    decreases s,
{
    match s {
        ShapeRef::Unit => Shape::Unit,
        ShapeRef::Bool => Shape::Bool,
        ShapeRef::Char => Shape::Char,
        ShapeRef::I8 => Shape::I8,
        ShapeRef::I16 => Shape::I16,
        ShapeRef::I32 => Shape::I32,
        ShapeRef::I64 => Shape::I64,
        ShapeRef::I128 => Shape::I128,
        ShapeRef::Isize => Shape::Isize,
        ShapeRef::U8 => Shape::U8,
        ShapeRef::U16 => Shape::U16,
        ShapeRef::U32 => Shape::U32,
        ShapeRef::U64 => Shape::U64,
        ShapeRef::U128 => Shape::U128,
        ShapeRef::Usize => Shape::Usize,
        ShapeRef::F32 => Shape::F32,
        ShapeRef::F64 => Shape::F64,
        ShapeRef::String => Shape::String,
        ShapeRef::Bytes => Shape::Bytes,
        ShapeRef::Option(inner) => Shape::Option(Box::new(shape_view(*inner))),
        ShapeRef::Sequence(inner) => Shape::Sequence(Box::new(shape_view(*inner))),
        ShapeRef::Array { item, len } => Shape::Array { item: Box::new(shape_view(*item)), len },
        ShapeRef::Mapping { key, value } => Shape::Mapping {
            key: Box::new(shape_view(*key)),
            value: Box::new(shape_view(*value)),
        },
        ShapeRef::Tuple(items) => Shape::Tuple(shapes_view(items@)),
        ShapeRef::Union(u) => Shape::Union(shapes_view(u.alts())),
        ShapeRef::Definition(id) => Shape::Definition(id.value()),
        ShapeRef::Opaque(o) => Shape::Opaque(o@),
    }
}

/// The models of a sequence of shape references.
pub open spec fn shapes_view(s: Seq<ShapeRef>) -> Seq<Shape>
    decreases s,
{
    if s.len() == 0 {
        Seq::empty()
    } else {
        shapes_view(s.drop_last()).push(shape_view(s.last()))
    }
}

impl View for ShapeRef {
    type V = Shape;

    open spec fn view(&self) -> Shape {
        shape_view(*self)
    }
}

/// The model of a sequence of shape references has the same length and models each element.
pub proof fn lemma_shapes_view(s: Seq<ShapeRef>)
    ensures
        shapes_view(s).len() == s.len(),
        forall|i: int| 0 <= i < s.len() ==> #[trigger] shapes_view(s)[i] == shape_view(s[i]),
    decreases s.len(),
{
    if s.len() > 0 {
        lemma_shapes_view(s.drop_last());
    }
}

/// Sequences whose elements have equal models have equal models.
pub proof fn lemma_shapes_view_ext(s: Seq<ShapeRef>, t: Seq<ShapeRef>)
    requires
        s.len() == t.len(),
        forall|i: int| 0 <= i < s.len() ==> #[trigger] shape_view(s[i]) == shape_view(t[i]),
    ensures
        shapes_view(s) == shapes_view(t),
{
    lemma_shapes_view(s);
    lemma_shapes_view(t);
    assert(shapes_view(s) =~= shapes_view(t));
}

/// The alternatives of a union or the single alternative of any other shape.
pub open spec fn alternatives_of(s: Shape) -> Seq<Shape> {
    match s {
        Shape::Union(xs) => xs,
        _ => seq![s],
    }
}

/// The alternatives contributed by a list of shapes once nested unions are flattened.
pub open spec fn flattened(xs: Seq<Shape>) -> Seq<Shape>
    decreases xs.len(),
{
    if xs.len() == 0 {
        Seq::empty()
    } else {
        flattened(xs.drop_last()) + alternatives_of(xs.last())
    }
}

/// Whether a shape is a union.
pub open spec fn is_union_shape(s: Shape) -> bool {
    s is Union
}

/// The canonical alternatives of a union: at least two, strictly increasing, none a union.
pub open spec fn canonical_alternatives(xs: Seq<Shape>) -> bool {
    &&& xs.len() >= 2
    &&& strictly_sorted(xs)
    &&& forall|i: int| 0 <= i < xs.len() ==> !is_union_shape(#[trigger] xs[i])
}

/// `r` is the normalized union of `xs`: `None` when there is nothing to choose from, otherwise
/// the canonical union of the distinct flattened alternatives, or that alternative itself when
/// there is only one.
pub open spec fn is_normalized_union_of(xs: Seq<Shape>, r: Option<Shape>) -> bool {
    match r {
        None => flattened(xs).len() == 0,
        Some(s) => {
            &&& strictly_sorted(alternatives_of(s))
            &&& alternatives_of(s).to_set() == flattened(xs).to_set()
            &&& (is_union_shape(s) ==> alternatives_of(s).len() >= 2)
            &&& forall|i: int|
                0 <= i < alternatives_of(s).len() ==> !is_union_shape(
                    #[trigger] alternatives_of(s)[i],
                )
        },
    }
}

impl UnionShape {
    #[verifier::type_invariant]
    spec fn well_formed(self) -> bool {
        canonical_alternatives(shapes_view(self.alternatives@))
    }

    /// The union's alternatives.
    pub closed spec fn alts(self) -> Seq<ShapeRef> {
        self.alternatives@
    }

    /// Return the canonical union alternatives.
    pub fn alternatives(&self) -> (r: &[ShapeRef])
        ensures
            r@ == self.alts(),
            canonical_alternatives(shapes_view(r@)),
    {
        proof {
            use_type_invariant(self);
        }
        self.alternatives.as_slice()
    }
}

// ---------------------------------------------------------------------------------------------
// Copying

impl Clone for ShapeRef {
    fn clone(&self) -> (r: Self)
        ensures
            r@ == self@,
        decreases self,
    {
        match self {
            ShapeRef::Unit => ShapeRef::Unit,
            ShapeRef::Bool => ShapeRef::Bool,
            ShapeRef::Char => ShapeRef::Char,
            ShapeRef::I8 => ShapeRef::I8,
            ShapeRef::I16 => ShapeRef::I16,
            ShapeRef::I32 => ShapeRef::I32,
            ShapeRef::I64 => ShapeRef::I64,
            ShapeRef::I128 => ShapeRef::I128,
            ShapeRef::Isize => ShapeRef::Isize,
            ShapeRef::U8 => ShapeRef::U8,
            ShapeRef::U16 => ShapeRef::U16,
            ShapeRef::U32 => ShapeRef::U32,
            ShapeRef::U64 => ShapeRef::U64,
            ShapeRef::U128 => ShapeRef::U128,
            ShapeRef::Usize => ShapeRef::Usize,
            ShapeRef::F32 => ShapeRef::F32,
            ShapeRef::F64 => ShapeRef::F64,
            ShapeRef::String => ShapeRef::String,
            ShapeRef::Bytes => ShapeRef::Bytes,
            ShapeRef::Option(inner) => ShapeRef::Option(Box::new((**inner).clone())),
            ShapeRef::Sequence(inner) => ShapeRef::Sequence(Box::new((**inner).clone())),
            ShapeRef::Array { item, len } => ShapeRef::Array {
                item: Box::new((**item).clone()),
                len: *len,
            },
            ShapeRef::Mapping { key, value } => ShapeRef::Mapping {
                key: Box::new((**key).clone()),
                value: Box::new((**value).clone()),
            },
            ShapeRef::Tuple(items) => ShapeRef::Tuple(clone_shapes(items)),
            ShapeRef::Union(u) => {
                proof {
                    use_type_invariant(u);
                }
                let alternatives = clone_shapes(&u.alternatives);
                ShapeRef::Union(UnionShape { alternatives })
            },
            ShapeRef::Definition(id) => ShapeRef::Definition(*id),
            ShapeRef::Opaque(o) => ShapeRef::Opaque(*o),
        }
    }
}

impl Clone for UnionShape {
    fn clone(&self) -> (r: Self)
        ensures
            shapes_view(r.alts()) == shapes_view(self.alts()),
    {
        proof {
            use_type_invariant(self);
        }
        let alternatives = clone_shapes(&self.alternatives);
        UnionShape { alternatives }
    }
}

/// Copy a list of shapes, preserving each element's model.
fn clone_shapes(items: &Vec<ShapeRef>) -> (r: Vec<ShapeRef>)
    ensures
        shapes_view(r@) == shapes_view(items@),
    decreases items@,
{
    let mut out: Vec<ShapeRef> = Vec::new();
    let mut i: usize = 0;
    while i < items.len()
        invariant
            i <= items@.len(),
            out@.len() == i,
            forall|k: int| 0 <= k < i ==> #[trigger] shape_view(out@[k]) == shape_view(items@[k]),
        decreases items@.len() - i,
    {
        proof {
            assert(decreases_to!(items@ => items@[i as int]));
        }
        let copy = items[i].clone();
        out.push(copy);
        i = i + 1;
    }
    proof {
        lemma_shapes_view_ext(out@, items@);
    }
    out
}


// ---------------------------------------------------------------------------------------------
// The canonical order, executed

/// The declaration index of a shape's variant.
fn rank_of(s: &ShapeRef) -> (r: u8)
    ensures
        r as int == rank(s@),
{
    match s {
        ShapeRef::Unit => 0,
        ShapeRef::Bool => 1,
        ShapeRef::Char => 2,
        ShapeRef::I8 => 3,
        ShapeRef::I16 => 4,
        ShapeRef::I32 => 5,
        ShapeRef::I64 => 6,
        ShapeRef::I128 => 7,
        ShapeRef::Isize => 8,
        ShapeRef::U8 => 9,
        ShapeRef::U16 => 10,
        ShapeRef::U32 => 11,
        ShapeRef::U64 => 12,
        ShapeRef::U128 => 13,
        ShapeRef::Usize => 14,
        ShapeRef::F32 => 15,
        ShapeRef::F64 => 16,
        ShapeRef::String => 17,
        ShapeRef::Bytes => 18,
        ShapeRef::Option(_) => 19,
        ShapeRef::Sequence(_) => 20,
        ShapeRef::Array { .. } => 21,
        ShapeRef::Mapping { .. } => 22,
        ShapeRef::Tuple(_) => 23,
        ShapeRef::Union(_) => 24,
        ShapeRef::Definition(_) => 25,
        ShapeRef::Opaque(_) => 26,
    }
}

fn order_usize(a: usize, b: usize) -> (r: i8)
    ensures
        r as int == int_order(a as int, b as int),
{
    if a < b {
        -1
    } else if a == b {
        0
    } else {
        1
    }
}

fn reason_index(r: OpaqueReason) -> (i: u8)
    ensures
        i as int == reason_rank(r),
{
    match r {
        OpaqueReason::CustomSerializer => 0,
        OpaqueReason::CustomDeserializer => 1,
        OpaqueReason::Unsupported => 2,
        OpaqueReason::Unobserved => 3,
    }
}

/// Compare two strings by code point, lexicographically.
pub(crate) fn order_strs(a: &str, b: &str) -> (r: i8)
    ensures
        r as int == chars_order(a@, b@),
{
    let la = a.unicode_len();
    let lb = b.unicode_len();
    let mut i: usize = 0;
    assert(a@.skip(0) =~= a@);
    assert(b@.skip(0) =~= b@);
    while i <= la && i <= lb
        invariant
            la == a@.len(),
            lb == b@.len(),
            i <= la,
            i <= lb,
            chars_order(a@, b@) == chars_order(a@.skip(i as int), b@.skip(i as int)),
        decreases la - i,
    {
        let ghost sa = a@.skip(i as int);
        let ghost sb = b@.skip(i as int);
        if i == la {
            if i == lb {
                return 0;
            } else {
                return -1;
            }
        }
        if i == lb {
            return 1;
        }
        let x = a.get_char(i);
        let y = b.get_char(i);
        assert(sa[0] == x && sb[0] == y);
        if x != y {
            if (x as u32) < (y as u32) {
                return -1;
            } else {
                return 1;
            }
        }
        assert(sa.drop_first() =~= a@.skip(i + 1));
        assert(sb.drop_first() =~= b@.skip(i + 1));
        i = i + 1;
    }
    0
}

fn order_opt_strs(a: Option<&'static str>, b: Option<&'static str>) -> (r: i8)
    ensures
        r as int == opt_chars_order(
            match a {
                Some(d) => Some(d@),
                None => None,
            },
            match b {
                Some(d) => Some(d@),
                None => None,
            },
        ),
{
    match a {
        None => match b {
            None => 0,
            Some(_) => -1,
        },
        Some(x) => match b {
            None => 1,
            Some(y) => order_strs(x, y),
        },
    }
}

fn order_opaque(a: &OpaqueShape, b: &OpaqueShape) -> (r: i8)
    ensures
        r as int == opaque_order(a@, b@),
{
    let c = order_strs(a.type_label, b.type_label);
    if c != 0 {
        return c;
    }
    let ra = reason_index(a.reason);
    let rb = reason_index(b.reason);
    if ra < rb {
        return -1;
    }
    if ra > rb {
        return 1;
    }
    order_opt_strs(a.detail, b.detail)
}

/// Compare two shapes in the canonical order: -1, 0 or 1.
pub fn order_shapes(a: &ShapeRef, b: &ShapeRef) -> (r: i8)
    ensures
        r as int == shape_order(a@, b@),
    decreases a,
{
    let ra = rank_of(a);
    let rb = rank_of(b);
    if ra < rb {
        return -1;
    }
    if ra > rb {
        return 1;
    }
    match a {
        ShapeRef::Option(x) => match b {
            ShapeRef::Option(y) => order_shapes(x, y),
            _ => 0,
        },
        ShapeRef::Sequence(x) => match b {
            ShapeRef::Sequence(y) => order_shapes(x, y),
            _ => 0,
        },
        ShapeRef::Array { item: x, len: l } => match b {
            ShapeRef::Array { item: y, len: m } => {
                let c = order_shapes(x, y);
                if c != 0 {
                    c
                } else {
                    order_usize(*l, *m)
                }
            },
            _ => 0,
        },
        ShapeRef::Mapping { key: k1, value: v1 } => match b {
            ShapeRef::Mapping { key: k2, value: v2 } => {
                let c = order_shapes(k1, k2);
                if c != 0 {
                    c
                } else {
                    order_shapes(v1, v2)
                }
            },
            _ => 0,
        },
        ShapeRef::Tuple(xs) => match b {
            ShapeRef::Tuple(ys) => order_lists(xs.as_slice(), ys.as_slice()),
            _ => 0,
        },
        ShapeRef::Union(u) => match b {
            ShapeRef::Union(v) => order_lists(u.alternatives.as_slice(), v.alternatives.as_slice()),
            _ => 0,
        },
        ShapeRef::Definition(i) => match b {
            ShapeRef::Definition(j) => order_usize(i.0, j.0),
            _ => 0,
        },
        ShapeRef::Opaque(o) => match b {
            ShapeRef::Opaque(p) => order_opaque(o, p),
            _ => 0,
        },
        _ => 0,
    }
}

/// Compare two shape lists lexicographically in the canonical order.
fn order_lists(xs: &[ShapeRef], ys: &[ShapeRef]) -> (r: i8)
    ensures
        r as int == seq_order(shapes_view(xs@), shapes_view(ys@)),
    decreases xs@,
{
    let ghost vx = shapes_view(xs@);
    let ghost vy = shapes_view(ys@);
    proof {
        lemma_shapes_view(xs@);
        lemma_shapes_view(ys@);
    }
    let mut i: usize = 0;
    assert(vx.skip(0) =~= vx);
    assert(vy.skip(0) =~= vy);
    while i <= xs.len() && i <= ys.len()
        invariant
            vx == shapes_view(xs@),
            vy == shapes_view(ys@),
            vx.len() == xs@.len(),
            vy.len() == ys@.len(),
            forall|k: int| 0 <= k < xs@.len() ==> #[trigger] vx[k] == shape_view(xs@[k]),
            forall|k: int| 0 <= k < ys@.len() ==> #[trigger] vy[k] == shape_view(ys@[k]),
            i <= xs@.len(),
            i <= ys@.len(),
            seq_order(vx, vy) == seq_order(vx.skip(i as int), vy.skip(i as int)),
        decreases xs@.len() - i,
    {
        if i == xs.len() {
            if i == ys.len() {
                return 0;
            } else {
                return -1;
            }
        }
        if i == ys.len() {
            return 1;
        }
        proof {
            assert(decreases_to!(xs@ => xs@[i as int]));
        }
        let c = order_shapes(&xs[i], &ys[i]);
        assert(vx.skip(i as int)[0] == vx[i as int]);
        assert(vy.skip(i as int)[0] == vy[i as int]);
        if c != 0 {
            return c;
        }
        assert(vx.skip(i as int).drop_first() =~= vx.skip(i + 1));
        assert(vy.skip(i as int).drop_first() =~= vy.skip(i + 1));
        i = i + 1;
    }
    0
}

/// Whether two shapes have the same model.
pub fn shapes_equal(a: &ShapeRef, b: &ShapeRef) -> (r: bool)
    ensures
        r == (a@ == b@),
{
    proof {
        lemma_shape_order_basic(a@, b@);
    }
    order_shapes(a, b) == 0
}


// ---------------------------------------------------------------------------------------------
// Classification

/// A signed integer shape, or a union whose alternatives all are.
pub open spec fn signed_integer_shape(s: Shape) -> bool
    decreases s,
{
    match s {
        Shape::Union(xs) => all_signed_integer(xs),
        _ => s is I8 || s is I16 || s is I32 || s is I64 || s is I128 || s is Isize,
    }
}

/// Every shape in the list is a signed integer shape.
pub open spec fn all_signed_integer(xs: Seq<Shape>) -> bool
    decreases xs,
{
    xs.len() == 0 || (signed_integer_shape(xs[0]) && all_signed_integer(xs.drop_first()))
}

/// An unsigned integer shape, or a union whose alternatives all are.
pub open spec fn unsigned_integer_shape(s: Shape) -> bool
    decreases s,
{
    match s {
        Shape::Union(xs) => all_unsigned_integer(xs),
        _ => s is U8 || s is U16 || s is U32 || s is U64 || s is U128 || s is Usize,
    }
}

/// Every shape in the list is a unsigned integer shape.
pub open spec fn all_unsigned_integer(xs: Seq<Shape>) -> bool
    decreases xs,
{
    xs.len() == 0 || (unsigned_integer_shape(xs[0]) && all_unsigned_integer(xs.drop_first()))
}

/// An integer shape, or a union whose alternatives all are.
pub open spec fn integer_shape(s: Shape) -> bool
    decreases s,
{
    match s {
        Shape::Union(xs) => all_integer(xs),
        _ => signed_integer_shape(s) || unsigned_integer_shape(s),
    }
}

/// Every shape in the list is a integer shape.
pub open spec fn all_integer(xs: Seq<Shape>) -> bool
    decreases xs,
{
    xs.len() == 0 || (integer_shape(xs[0]) && all_integer(xs.drop_first()))
}

/// A floating point shape, or a union whose alternatives all are.
pub open spec fn float_shape(s: Shape) -> bool
    decreases s,
{
    match s {
        Shape::Union(xs) => all_float(xs),
        _ => s is F32 || s is F64,
    }
}

/// Every shape in the list is a floating point shape.
pub open spec fn all_float(xs: Seq<Shape>) -> bool
    decreases xs,
{
    xs.len() == 0 || (float_shape(xs[0]) && all_float(xs.drop_first()))
}

/// A numeric shape, or a union whose alternatives all are.
pub open spec fn number_shape(s: Shape) -> bool
    decreases s,
{
    match s {
        Shape::Union(xs) => all_number(xs),
        _ => integer_shape(s) || float_shape(s),
    }
}

/// Every shape in the list is a numeric shape.
pub open spec fn all_number(xs: Seq<Shape>) -> bool
    decreases xs,
{
    xs.len() == 0 || (number_shape(xs[0]) && all_number(xs.drop_first()))
}

/// Every signed or unsigned integer shape is an integer shape.
pub proof fn law_signed_or_unsigned_is_integer(s: Shape)
    ensures
        signed_integer_shape(s) ==> integer_shape(s),
        unsigned_integer_shape(s) ==> integer_shape(s),
    decreases s,
{
    if let Shape::Union(xs) = s {
        lemma_all_signed_or_unsigned_is_integer(xs);
    }
}

/// Every list of signed, or of unsigned, integer shapes is a list of integer shapes.
proof fn lemma_all_signed_or_unsigned_is_integer(xs: Seq<Shape>)
    ensures
        all_signed_integer(xs) ==> all_integer(xs),
        all_unsigned_integer(xs) ==> all_integer(xs),
    decreases xs,
{
    if xs.len() > 0 {
        law_signed_or_unsigned_is_integer(xs[0]);
        lemma_all_signed_or_unsigned_is_integer(xs.drop_first());
    }
}

/// Every integer or floating point shape is a numeric shape.
pub proof fn law_integer_or_float_is_number(s: Shape)
    ensures
        integer_shape(s) ==> number_shape(s),
        float_shape(s) ==> number_shape(s),
    decreases s,
{
    if let Shape::Union(xs) = s {
        lemma_all_integer_or_float_is_number(xs);
    }
}

/// The least and greatest value of the Rust integer type that a shape stands for, if it stands
/// for one.
pub open spec fn integer_range(s: Shape) -> Option<(int, int)> {
    match s {
        Shape::I8 => Some((i8::MIN as int, i8::MAX as int)),
        Shape::I16 => Some((i16::MIN as int, i16::MAX as int)),
        Shape::I32 => Some((i32::MIN as int, i32::MAX as int)),
        Shape::I64 => Some((i64::MIN as int, i64::MAX as int)),
        Shape::I128 => Some((i128::MIN as int, i128::MAX as int)),
        Shape::Isize => Some((isize::MIN as int, isize::MAX as int)),
        Shape::U8 => Some((u8::MIN as int, u8::MAX as int)),
        Shape::U16 => Some((u16::MIN as int, u16::MAX as int)),
        Shape::U32 => Some((u32::MIN as int, u32::MAX as int)),
        Shape::U64 => Some((u64::MIN as int, u64::MAX as int)),
        Shape::U128 => Some((u128::MIN as int, u128::MAX as int)),
        Shape::Usize => Some((usize::MIN as int, usize::MAX as int)),
        _ => None,
    }
}

/// The width in bits of the IEEE 754 binary floating point type that a shape stands for, if it
/// stands for one.
pub open spec fn float_width(s: Shape) -> Option<nat> {
    match s {
        Shape::F32 => Some(32),
        Shape::F64 => Some(64),
        _ => None,
    }
}

/// The numeric classification of a shape that is no union agrees with the Rust type it stands
/// for: it is a signed integer shape exactly when it stands for an integer type with negative
/// values, an unsigned one exactly when it stands for an integer type whose least value is zero,
/// an integer shape exactly when it stands for an integer type, a floating point shape exactly
/// when it stands for a floating point type, and a numeric shape exactly when either.
pub proof fn law_classification_follows_the_represented_type(s: Shape)
    requires
        !is_union_shape(s),
    ensures
        signed_integer_shape(s) <==> (integer_range(s) matches Some((least, _greatest)) && least < 0),
        unsigned_integer_shape(s) <==> (integer_range(s) matches Some((least, _greatest)) && least == 0),
        integer_shape(s) <==> integer_range(s) is Some,
        float_shape(s) <==> float_width(s) is Some,
        number_shape(s) <==> (integer_range(s) is Some || float_width(s) is Some),
{
}

/// A union is classified as every one of its alternatives is: it is a signed integer, unsigned
/// integer, integer, floating point or numeric shape exactly when each alternative is.
pub proof fn law_union_classification_holds_of_every_alternative(xs: Seq<Shape>)
    ensures
        signed_integer_shape(Shape::Union(xs)) <==> forall|i: int|
            0 <= i < xs.len() ==> signed_integer_shape(#[trigger] xs[i]),
        unsigned_integer_shape(Shape::Union(xs)) <==> forall|i: int|
            0 <= i < xs.len() ==> unsigned_integer_shape(#[trigger] xs[i]),
        integer_shape(Shape::Union(xs)) <==> forall|i: int|
            0 <= i < xs.len() ==> integer_shape(#[trigger] xs[i]),
        float_shape(Shape::Union(xs)) <==> forall|i: int|
            0 <= i < xs.len() ==> float_shape(#[trigger] xs[i]),
        number_shape(Shape::Union(xs)) <==> forall|i: int|
            0 <= i < xs.len() ==> number_shape(#[trigger] xs[i]),
    decreases xs.len(),
{
    if xs.len() > 0 {
        let rest = xs.drop_first();
        law_union_classification_holds_of_every_alternative(rest);
        assert forall|i: int| 1 <= i < xs.len() implies #[trigger] xs[i] == rest[i - 1] by {}
        assert(all_signed_integer(xs) == (signed_integer_shape(xs[0]) && all_signed_integer(rest)));
        assert(all_unsigned_integer(xs) == (unsigned_integer_shape(xs[0]) && all_unsigned_integer(rest)));
        assert(all_integer(xs) == (integer_shape(xs[0]) && all_integer(rest)));
        assert(all_float(xs) == (float_shape(xs[0]) && all_float(rest)));
        assert(all_number(xs) == (number_shape(xs[0]) && all_number(rest)));
        if forall|i: int| 0 <= i < xs.len() ==> signed_integer_shape(#[trigger] xs[i]) {
            assert forall|i: int| 0 <= i < rest.len() implies signed_integer_shape(#[trigger] rest[i]) by {
                assert(rest[i] == xs[i + 1]);
            }
        }
        if forall|i: int| 0 <= i < xs.len() ==> unsigned_integer_shape(#[trigger] xs[i]) {
            assert forall|i: int| 0 <= i < rest.len() implies unsigned_integer_shape(#[trigger] rest[i]) by {
                assert(rest[i] == xs[i + 1]);
            }
        }
        if forall|i: int| 0 <= i < xs.len() ==> integer_shape(#[trigger] xs[i]) {
            assert forall|i: int| 0 <= i < rest.len() implies integer_shape(#[trigger] rest[i]) by {
                assert(rest[i] == xs[i + 1]);
            }
        }
        if forall|i: int| 0 <= i < xs.len() ==> float_shape(#[trigger] xs[i]) {
            assert forall|i: int| 0 <= i < rest.len() implies float_shape(#[trigger] rest[i]) by {
                assert(rest[i] == xs[i + 1]);
            }
        }
        if forall|i: int| 0 <= i < xs.len() ==> number_shape(#[trigger] xs[i]) {
            assert forall|i: int| 0 <= i < rest.len() implies number_shape(#[trigger] rest[i]) by {
                assert(rest[i] == xs[i + 1]);
            }
        }
    }
}

/// Every list of integer, or of floating point, shapes is a list of numeric shapes.
proof fn lemma_all_integer_or_float_is_number(xs: Seq<Shape>)
    ensures
        all_integer(xs) ==> all_number(xs),
        all_float(xs) ==> all_number(xs),
    decreases xs,
{
    if xs.len() > 0 {
        law_integer_or_float_is_number(xs[0]);
        lemma_all_integer_or_float_is_number(xs.drop_first());
    }
}

impl ShapeRef {
    /// Return whether this is a signed integer shape.
    #[verifier::loop_isolation(false)]
    pub fn is_signed_integer(&self) -> (r: bool)
        ensures
            r == signed_integer_shape(self@),
        decreases self,
    {
        match self {
            ShapeRef::Union(u) => {
                let ghost v = shapes_view(u.alternatives@);
                proof {
                    lemma_shapes_view(u.alternatives@);
                    assert(self@ == Shape::Union(v));
                }
                let mut i: usize = 0;
                assert(v.skip(0) =~= v);
                while i < u.alternatives.len()
                    invariant
                        i <= u.alternatives@.len(),
                        v == shapes_view(u.alternatives@),
                        v.len() == u.alternatives@.len(),
                        forall|k: int| 0 <= k < v.len() ==> #[trigger] v[k] == shape_view(u.alternatives@[k]),
                        all_signed_integer(v) == all_signed_integer(v.skip(i as int)),
                    decreases u.alternatives@.len() - i,
                {
                    proof {
                        assert(decreases_to!(*self => u.alternatives@[i as int]));
                    }
                    let sub = u.alternatives[i].is_signed_integer();
                    assert(sub == signed_integer_shape(shape_view(u.alternatives@[i as int])));
                    assert(v[i as int] == shape_view(u.alternatives@[i as int]));
                    if !sub {
                        assert(v.skip(i as int)[0] == v[i as int]);
                        return false;
                    }
                    assert(v.skip(i as int)[0] == v[i as int]);
                    assert(v.skip(i as int).drop_first() =~= v.skip(i + 1));
                    i = i + 1;
                }
                true
            },
            _ => match self {
                ShapeRef::I8 => true,
                ShapeRef::I16 => true,
                ShapeRef::I32 => true,
                ShapeRef::I64 => true,
                ShapeRef::I128 => true,
                ShapeRef::Isize => true,
                _ => false,
            },
        }
    }

    /// Return whether this is an unsigned integer shape.
    #[verifier::loop_isolation(false)]
    pub fn is_unsigned_integer(&self) -> (r: bool)
        ensures
            r == unsigned_integer_shape(self@),
        decreases self,
    {
        match self {
            ShapeRef::Union(u) => {
                let ghost v = shapes_view(u.alternatives@);
                proof {
                    lemma_shapes_view(u.alternatives@);
                    assert(self@ == Shape::Union(v));
                }
                let mut i: usize = 0;
                assert(v.skip(0) =~= v);
                while i < u.alternatives.len()
                    invariant
                        i <= u.alternatives@.len(),
                        v == shapes_view(u.alternatives@),
                        v.len() == u.alternatives@.len(),
                        forall|k: int| 0 <= k < v.len() ==> #[trigger] v[k] == shape_view(u.alternatives@[k]),
                        all_unsigned_integer(v) == all_unsigned_integer(v.skip(i as int)),
                    decreases u.alternatives@.len() - i,
                {
                    proof {
                        assert(decreases_to!(*self => u.alternatives@[i as int]));
                    }
                    if !u.alternatives[i].is_unsigned_integer() {
                        assert(v.skip(i as int)[0] == v[i as int]);
                        return false;
                    }
                    assert(v.skip(i as int)[0] == v[i as int]);
                    assert(v.skip(i as int).drop_first() =~= v.skip(i + 1));
                    i = i + 1;
                }
                true
            },
            _ => match self {
                ShapeRef::U8 => true,
                ShapeRef::U16 => true,
                ShapeRef::U32 => true,
                ShapeRef::U64 => true,
                ShapeRef::U128 => true,
                ShapeRef::Usize => true,
                _ => false,
            },
        }
    }

    /// Return whether this is any integer shape.
    #[verifier::loop_isolation(false)]
    pub fn is_integer(&self) -> (r: bool)
        ensures
            r == integer_shape(self@),
        decreases self,
    {
        match self {
            ShapeRef::Union(u) => {
                let ghost v = shapes_view(u.alternatives@);
                proof {
                    lemma_shapes_view(u.alternatives@);
                    assert(self@ == Shape::Union(v));
                }
                let mut i: usize = 0;
                assert(v.skip(0) =~= v);
                while i < u.alternatives.len()
                    invariant
                        i <= u.alternatives@.len(),
                        v == shapes_view(u.alternatives@),
                        v.len() == u.alternatives@.len(),
                        forall|k: int| 0 <= k < v.len() ==> #[trigger] v[k] == shape_view(u.alternatives@[k]),
                        all_integer(v) == all_integer(v.skip(i as int)),
                    decreases u.alternatives@.len() - i,
                {
                    proof {
                        assert(decreases_to!(*self => u.alternatives@[i as int]));
                    }
                    if !u.alternatives[i].is_integer() {
                        assert(v.skip(i as int)[0] == v[i as int]);
                        return false;
                    }
                    assert(v.skip(i as int)[0] == v[i as int]);
                    assert(v.skip(i as int).drop_first() =~= v.skip(i + 1));
                    i = i + 1;
                }
                true
            },
            _ => self.is_signed_integer() || self.is_unsigned_integer(),
        }
    }

    /// Return whether this is a floating point shape.
    #[verifier::loop_isolation(false)]
    pub fn is_float(&self) -> (r: bool)
        ensures
            r == float_shape(self@),
        decreases self,
    {
        match self {
            ShapeRef::Union(u) => {
                let ghost v = shapes_view(u.alternatives@);
                proof {
                    lemma_shapes_view(u.alternatives@);
                    assert(self@ == Shape::Union(v));
                }
                let mut i: usize = 0;
                assert(v.skip(0) =~= v);
                while i < u.alternatives.len()
                    invariant
                        i <= u.alternatives@.len(),
                        v == shapes_view(u.alternatives@),
                        v.len() == u.alternatives@.len(),
                        forall|k: int| 0 <= k < v.len() ==> #[trigger] v[k] == shape_view(u.alternatives@[k]),
                        all_float(v) == all_float(v.skip(i as int)),
                    decreases u.alternatives@.len() - i,
                {
                    proof {
                        assert(decreases_to!(*self => u.alternatives@[i as int]));
                    }
                    if !u.alternatives[i].is_float() {
                        assert(v.skip(i as int)[0] == v[i as int]);
                        return false;
                    }
                    assert(v.skip(i as int)[0] == v[i as int]);
                    assert(v.skip(i as int).drop_first() =~= v.skip(i + 1));
                    i = i + 1;
                }
                true
            },
            _ => match self {
                ShapeRef::F32 => true,
                ShapeRef::F64 => true,
                _ => false,
            },
        }
    }

    /// Return whether this is any numeric shape.
    #[verifier::loop_isolation(false)]
    pub fn is_number(&self) -> (r: bool)
        ensures
            r == number_shape(self@),
        decreases self,
    {
        match self {
            ShapeRef::Union(u) => {
                let ghost v = shapes_view(u.alternatives@);
                proof {
                    lemma_shapes_view(u.alternatives@);
                    assert(self@ == Shape::Union(v));
                }
                let mut i: usize = 0;
                assert(v.skip(0) =~= v);
                while i < u.alternatives.len()
                    invariant
                        i <= u.alternatives@.len(),
                        v == shapes_view(u.alternatives@),
                        v.len() == u.alternatives@.len(),
                        forall|k: int| 0 <= k < v.len() ==> #[trigger] v[k] == shape_view(u.alternatives@[k]),
                        all_number(v) == all_number(v.skip(i as int)),
                    decreases u.alternatives@.len() - i,
                {
                    proof {
                        assert(decreases_to!(*self => u.alternatives@[i as int]));
                    }
                    if !u.alternatives[i].is_number() {
                        assert(v.skip(i as int)[0] == v[i as int]);
                        return false;
                    }
                    assert(v.skip(i as int)[0] == v[i as int]);
                    assert(v.skip(i as int).drop_first() =~= v.skip(i + 1));
                    i = i + 1;
                }
                true
            },
            _ => self.is_integer() || self.is_float(),
        }
    }
}


// ---------------------------------------------------------------------------------------------
// Normalized unions

/// The model of an optional shape reference.
pub open spec fn opt_view(r: Option<ShapeRef>) -> Option<Shape> {
    match r {
        Some(s) => Some(s@),
        None => None,
    }
}

/// Find where `x` belongs in a strictly increasing list: the first position whose shape is not
/// below `x`, and whether the shape there equals `x`.
fn canonical_position(items: &Vec<ShapeRef>, x: &ShapeRef) -> (r: (usize, bool))
    requires
        strictly_sorted(shapes_view(items@)),
    ensures
        r.0 <= items@.len(),
        forall|q: int| 0 <= q < r.0 ==> shape_order(#[trigger] shapes_view(items@)[q], x@) < 0,
        r.1 ==> r.0 < items@.len() && shapes_view(items@)[r.0 as int] == x@,
        !r.1 ==> forall|q: int|
            r.0 <= q < items@.len() ==> shape_order(x@, #[trigger] shapes_view(items@)[q]) < 0,
{
    let ghost v = shapes_view(items@);
    proof {
        lemma_shapes_view(items@);
    }
    let mut p: usize = 0;
    while p < items.len()
        invariant
            v == shapes_view(items@),
            v.len() == items@.len(),
            forall|k: int| 0 <= k < v.len() ==> #[trigger] v[k] == shape_view(items@[k]),
            strictly_sorted(v),
            p <= items@.len(),
            forall|q: int| 0 <= q < p ==> shape_order(#[trigger] v[q], x@) < 0,
        decreases items@.len() - p,
    {
        let c = order_shapes(&items[p], x);
        proof {
            lemma_shape_order_basic(v[p as int], x@);
        }
        if c == 0 {
            return (p, true);
        }
        if c > 0 {
            proof {
                assert forall|q: int| p <= q < v.len() implies shape_order(x@, #[trigger] v[q]) < 0 by {
                    if q > p {
                        lemma_shape_order_trans(x@, v[p as int], v[q]);
                    }
                }
            }
            return (p, false);
        }
        p = p + 1;
    }
    (p, false)
}

/// Insert a shape into a strictly increasing list unless an equal shape is already there.
fn insert_canonical(out: &mut Vec<ShapeRef>, x: ShapeRef)
    requires
        strictly_sorted(shapes_view(old(out)@)),
    ensures
        strictly_sorted(shapes_view(final(out)@)),
        shapes_view(final(out)@).to_set() == shapes_view(old(out)@).to_set().insert(x@),
{
    let ghost v = shapes_view(out@);
    let ghost xv = x@;
    proof {
        lemma_shapes_view(out@);
    }
    let (p, found) = canonical_position(out, &x);
    if found {
        proof {
            assert(v.to_set().insert(xv) =~= v.to_set());
        }
        return;
    }
    let ghost before = out@;
    out.insert(p, x);
    proof {
        let w = shapes_view(out@);
        lemma_shapes_view(out@);
        assert(w.len() == v.len() + 1);
        assert forall|k: int| 0 <= k < w.len() implies #[trigger] w[k] == (if k < p {
            v[k]
        } else if k == p {
            xv
        } else {
            v[k - 1]
        }) by {
            if k < p {
                assert(out@[k] == before[k]);
            } else if k > p {
                assert(out@[k] == before[k - 1]);
            }
        }
        assert forall|i: int, j: int| 0 <= i < j < w.len() implies #[trigger] shape_order(
            w[i],
            w[j],
        ) < 0 by {
            if i < p && j == p {
            } else if i < p && j > p {
                lemma_shape_order_trans(v[i], xv, v[j - 1]);
            } else if i == p {
            } else if i < p {
                assert(shape_order(v[i], v[j]) < 0);
            } else {
                assert(shape_order(v[i - 1], v[j - 1]) < 0);
            }
        }
        assert forall|e: Shape| #[trigger] w.contains(e) <==> v.contains(e) || e == xv by {
            if w.contains(e) {
                let k = choose|k: int| 0 <= k < w.len() && w[k] == e;
                if k < p {
                    assert(v[k] == e);
                } else if k > p {
                    assert(v[k - 1] == e);
                }
            }
            if v.contains(e) {
                let k = choose|k: int| 0 <= k < v.len() && v[k] == e;
                if k < p {
                    assert(w[k] == e);
                } else {
                    assert(w[k + 1] == e);
                }
            }
            if e == xv {
                assert(w[p as int] == e);
            }
        }
        assert(w.to_set() =~= v.to_set().insert(xv));
    }
}

/// Flattening one more list element appends that element's alternatives.
proof fn lemma_flattened_take(xs: Seq<Shape>, i: int)
    requires
        0 <= i < xs.len(),
    ensures
        flattened(xs.take(i + 1)) == flattened(xs.take(i)) + alternatives_of(xs[i]),
{
    assert(xs.take(i + 1).drop_last() =~= xs.take(i));
}

/// The set of a concatenation is the union of the sets.
proof fn lemma_concat_to_set(a: Seq<Shape>, b: Seq<Shape>)
    ensures
        (a + b).to_set() == a.to_set().union(b.to_set()),
{
    assert forall|e: Shape| #[trigger] (a + b).contains(e) <==> a.contains(e) || b.contains(e) by {
        if (a + b).contains(e) {
            let k = choose|k: int| 0 <= k < (a + b).len() && (a + b)[k] == e;
            if k >= a.len() {
                assert(b[k - a.len()] == e);
            }
        }
        if b.contains(e) {
            let k = choose|k: int| 0 <= k < b.len() && b[k] == e;
            assert((a + b)[k + a.len()] == e);
        }
        if a.contains(e) {
            let k = choose|k: int| 0 <= k < a.len() && a[k] == e;
            assert((a + b)[k] == e);
        }
    }
    assert((a + b).to_set() =~= a.to_set().union(b.to_set()));
}

/// Add the alternatives of one shape to a strictly increasing list of non-union shapes.
fn absorb_alternatives(out: &mut Vec<ShapeRef>, x: &ShapeRef)
    requires
        strictly_sorted(shapes_view(old(out)@)),
        forall|e: Shape| #[trigger] shapes_view(old(out)@).contains(e) ==> !is_union_shape(e),
    ensures
        strictly_sorted(shapes_view(final(out)@)),
        shapes_view(final(out)@).to_set() == shapes_view(old(out)@).to_set().union(
            alternatives_of(x@).to_set(),
        ),
        forall|e: Shape| #[trigger] shapes_view(final(out)@).contains(e) ==> !is_union_shape(e),
        final(out)@.len() > 0,
{
    let ghost before = shapes_view(out@);
    match x {
        ShapeRef::Union(u) => {
            proof {
                use_type_invariant(u);
                lemma_shapes_view(u.alternatives@);
            }
            let ghost ys = shapes_view(u.alternatives@);
            let mut j: usize = 0;
            assert(ys.take(0) =~= Seq::<Shape>::empty());
            assert(before.to_set().union(ys.take(0).to_set()) =~= before.to_set());
            while j < u.alternatives.len()
                invariant
                    ys == shapes_view(u.alternatives@),
                    ys.len() == u.alternatives@.len(),
                    forall|k: int| 0 <= k < ys.len() ==> #[trigger] ys[k] == shape_view(u.alternatives@[k]),
                    canonical_alternatives(ys),
                    j <= ys.len(),
                    strictly_sorted(shapes_view(out@)),
                    shapes_view(out@).to_set() == before.to_set().union(ys.take(j as int).to_set()),
                    forall|e: Shape| #[trigger] before.contains(e) ==> !is_union_shape(e),
                    forall|e: Shape| #[trigger] shapes_view(out@).contains(e) ==> !is_union_shape(e),
                    j > 0 ==> out@.len() > 0,
                decreases ys.len() - j,
            {
                let ghost mid = shapes_view(out@);
                let item = u.alternatives[j].clone();
                insert_canonical(out, item);
                proof {
                    let now = shapes_view(out@);
                    lemma_shapes_view(out@);
                    assert(ys.take(j + 1) =~= ys.take(j as int).push(ys[j as int]));
                    ys.take(j as int).lemma_push_to_set_commute(ys[j as int]);
                    assert(now.to_set() =~= before.to_set().union(ys.take(j + 1).to_set()));
                    assert(now.to_set().contains(ys[j as int]));
                    assert forall|e: Shape| #[trigger] now.contains(e) implies !is_union_shape(e) by {
                        assert(now.to_set().contains(e));
                        if !mid.contains(e) {
                            assert(e == ys[j as int]);
                        }
                    }
                    if now.len() == 0 {
                        assert(!now.to_set().contains(ys[j as int]));
                    }
                }
                j = j + 1;
            }
            proof {
                assert(ys.take(ys.len() as int) =~= ys);
                assert(x@ == Shape::Union(ys));
            }
        },
        other => {
            let item = other.clone();
            proof {
                assert(alternatives_of(x@) == seq![item@]);
                assert(seq![item@][0] == item@);
                assert forall|e: Shape| #[trigger] seq![item@].contains(e) <==> e == item@ by {
                    if e == item@ {
                        assert(seq![item@][0] == e);
                    }
                }
                assert(seq![item@].to_set() =~= Set::<Shape>::empty().insert(item@));
            }
            insert_canonical(out, item);
            proof {
                let now = shapes_view(out@);
                lemma_shapes_view(out@);
                assert(now.to_set() =~= before.to_set().union(seq![item@].to_set()));
                assert(now.to_set().contains(item@));
                assert forall|e: Shape| #[trigger] now.contains(e) implies !is_union_shape(e) by {
                    assert(now.to_set().contains(e));
                    if !before.contains(e) {
                        assert(e == item@);
                    }
                }
                if now.len() == 0 {
                    assert(!now.to_set().contains(item@));
                }
            }
        },
    }
}

impl ShapeRef {
    /// Try to build a normalized union from possible value shapes.
    ///
    /// Returns `None` when `alternatives` is empty. Nested unions are flattened, duplicate
    /// alternatives are removed, and alternatives are sorted into a canonical order. A single
    /// distinct alternative is returned directly.
    pub fn try_union(alternatives: Vec<ShapeRef>) -> (r: Option<ShapeRef>)
        ensures
            is_normalized_union_of(shapes_view(alternatives@), opt_view(r)),
            r is None <==> alternatives@.len() == 0,
    {
        let ghost xs = shapes_view(alternatives@);
        proof {
            lemma_shapes_view(alternatives@);
            assert(xs.take(0) =~= Seq::<Shape>::empty());
            assert(shapes_view(Seq::<ShapeRef>::empty()).to_set() =~= flattened(xs.take(0)).to_set());
        }
        let mut out: Vec<ShapeRef> = Vec::new();
        let mut i: usize = 0;
        while i < alternatives.len()
            invariant
                xs == shapes_view(alternatives@),
                xs.len() == alternatives@.len(),
                forall|k: int| 0 <= k < xs.len() ==> #[trigger] xs[k] == shape_view(alternatives@[k]),
                i <= alternatives@.len(),
                strictly_sorted(shapes_view(out@)),
                shapes_view(out@).to_set() == flattened(xs.take(i as int)).to_set(),
                forall|e: Shape| #[trigger] shapes_view(out@).contains(e) ==> !is_union_shape(e),
                i > 0 ==> out@.len() > 0,
            decreases alternatives@.len() - i,
        {
            proof {
                lemma_flattened_take(xs, i as int);
                lemma_concat_to_set(flattened(xs.take(i as int)), alternatives_of(xs[i as int]));
            }
            absorb_alternatives(&mut out, &alternatives[i]);
            i = i + 1;
        }
        proof {
            assert(xs.take(xs.len() as int) =~= xs);
            lemma_shapes_view(out@);
        }
        let ghost final_v = shapes_view(out@);
        proof {
            if xs.len() == 0 && final_v.len() > 0 {
                assert(flattened(xs) =~= Seq::<Shape>::empty());
                assert(final_v.contains(final_v[0]));
                assert(final_v.to_set().contains(final_v[0]));
            }
        }
        if out.len() == 0 {
            proof {
                let f = flattened(xs);
                if f.len() > 0 {
                    assert(f.to_set().contains(f[0]));
                    assert(final_v.to_set().contains(f[0]));
                }
            }
            None
        } else if out.len() == 1 {
            let only = out.pop();
            proof {
                assert(final_v =~= seq![final_v[0]]);
                assert(final_v.contains(final_v[0]));
            }
            only
        } else {
            proof {
                assert forall|k: int| 0 <= k < final_v.len() implies !is_union_shape(#[trigger] final_v[k]) by {
                    assert(final_v.contains(final_v[k]));
                }
            }
            Some(ShapeRef::Union(UnionShape { alternatives: out }))
        }
    }

    /// Build a normalized union from one or more possible value shapes.
    ///
    /// Nested unions are flattened, duplicate alternatives are removed, and alternatives are
    /// sorted into a canonical order. A single distinct alternative is returned directly.
    pub fn union(alternatives: Vec<ShapeRef>) -> (r: ShapeRef)
        requires
            alternatives@.len() > 0,
        ensures
            is_normalized_union_of(shapes_view(alternatives@), Some(r@)),
    {
        match ShapeRef::try_union(alternatives) {
            Some(r) => r,
            None => ShapeRef::Unit,
        }
    }
}


// ---------------------------------------------------------------------------------------------
// Laws of normalized unions

/// Two strictly increasing lists with the same elements are the same list.
pub proof fn lemma_sorted_set_unique(a: Seq<Shape>, b: Seq<Shape>)
    requires
        strictly_sorted(a),
        strictly_sorted(b),
        a.to_set() == b.to_set(),
    ensures
        a == b,
    decreases a.len(),
{
    if a.len() == 0 {
        if b.len() > 0 {
            assert(b.to_set().contains(b[0]));
        }
        assert(a =~= b);
        return;
    }
    assert(a.to_set().contains(a[0]));
    assert(b.to_set().contains(a[0]));
    assert(b.len() > 0);
    assert(b.to_set().contains(b[0]));
    let j = choose|j: int| 0 <= j < b.len() && b[j] == a[0];
    let i = choose|i: int| 0 <= i < a.len() && a[i] == b[0];
    lemma_shape_order_basic(a[0], b[0]);
    if j > 0 {
        assert(shape_order(b[0], b[j]) < 0);
        if i > 0 {
            assert(shape_order(a[0], a[i]) < 0);
        }
    }
    assert(a[0] == b[0]);
    let ta = a.drop_first();
    let tb = b.drop_first();
    assert forall|x: int, y: int| 0 <= x < y < ta.len() implies #[trigger] shape_order(ta[x], ta[y]) < 0 by {
        assert(shape_order(a[x + 1], a[y + 1]) < 0);
    }
    assert forall|x: int, y: int| 0 <= x < y < tb.len() implies #[trigger] shape_order(tb[x], tb[y]) < 0 by {
        assert(shape_order(b[x + 1], b[y + 1]) < 0);
    }
    assert forall|e: Shape| #[trigger] ta.contains(e) <==> tb.contains(e) by {
        if ta.contains(e) {
            let k = choose|k: int| 0 <= k < ta.len() && ta[k] == e;
            assert(a[k + 1] == e);
            assert(a.to_set().contains(e));
            assert(b.to_set().contains(e));
            let m = choose|m: int| 0 <= m < b.len() && b[m] == e;
            lemma_shape_order_basic(a[0], e);
            assert(shape_order(a[0], a[k + 1]) < 0);
            if m == 0 {
                assert(false);
            }
            assert(tb[m - 1] == e);
        }
        if tb.contains(e) {
            let k = choose|k: int| 0 <= k < tb.len() && tb[k] == e;
            assert(b[k + 1] == e);
            assert(b.to_set().contains(e));
            assert(a.to_set().contains(e));
            let m = choose|m: int| 0 <= m < a.len() && a[m] == e;
            lemma_shape_order_basic(b[0], e);
            assert(shape_order(b[0], b[k + 1]) < 0);
            if m == 0 {
                assert(false);
            }
            assert(ta[m - 1] == e);
        }
    }
    assert(ta.to_set() =~= tb.to_set());
    lemma_sorted_set_unique(ta, tb);
    assert(a =~= seq![a[0]] + ta);
    assert(b =~= seq![b[0]] + tb);
}

/// A normalized union depends only on the set of flattened alternatives: the order of the inputs,
/// repeated inputs and how they were grouped into nested unions make no difference.
pub proof fn law_union_depends_only_on_alternative_set(
    xs: Seq<Shape>,
    ys: Seq<Shape>,
    r1: Option<Shape>,
    r2: Option<Shape>,
)
    requires
        is_normalized_union_of(xs, r1),
        is_normalized_union_of(ys, r2),
        flattened(xs).to_set() == flattened(ys).to_set(),
    ensures
        r1 == r2,
{
    match (r1, r2) {
        (Some(s1), Some(s2)) => {
            lemma_sorted_set_unique(alternatives_of(s1), alternatives_of(s2));
            match (s1, s2) {
                (Shape::Union(a), Shape::Union(b)) => {},
                (Shape::Union(a), _) => {
                    assert(alternatives_of(s2).len() == 1);
                },
                (_, Shape::Union(b)) => {
                    assert(alternatives_of(s1).len() == 1);
                },
                _ => {
                    assert(alternatives_of(s1)[0] == s1);
                    assert(alternatives_of(s2)[0] == s2);
                },
            }
        },
        (Some(s1), None) => {
            assert(alternatives_of(s1).to_set().contains(alternatives_of(s1)[0]));
            assert(flattened(ys) =~= Seq::<Shape>::empty());
        },
        (None, Some(s2)) => {
            assert(alternatives_of(s2).to_set().contains(alternatives_of(s2)[0]));
            assert(flattened(xs) =~= Seq::<Shape>::empty());
        },
        (None, None) => {},
    }
}

/// Normalizing a single normalized union gives back that union, and normalizing a single
/// non-union shape gives back that shape.
pub proof fn law_union_of_one_normalized_shape_is_itself(s: Shape, r: Option<Shape>)
    requires
        is_union_shape(s) ==> canonical_alternatives(alternatives_of(s)),
        is_normalized_union_of(seq![s], r),
    ensures
        r == Some(s),
{
    assert(seq![s].drop_last() =~= Seq::<Shape>::empty());
    assert(seq![s].last() == s);
    assert(flattened(Seq::<Shape>::empty()) == Seq::<Shape>::empty());
    assert(flattened(seq![s]) == flattened(Seq::<Shape>::empty()) + alternatives_of(s));
    assert(flattened(seq![s]) =~= alternatives_of(s));
    if !is_union_shape(s) {
        assert(alternatives_of(s) =~= seq![s]);
        assert forall|k: int| 0 <= k < alternatives_of(s).len() implies !is_union_shape(#[trigger] alternatives_of(s)[k]) by {}
    }
    assert(is_normalized_union_of(seq![s], Some(s)));
    law_union_depends_only_on_alternative_set(seq![s], seq![s], r, Some(s));
}

/// Flattening a concatenation flattens each part in turn.
proof fn lemma_flattened_concat(a: Seq<Shape>, b: Seq<Shape>)
    ensures
        flattened(a + b) == flattened(a) + flattened(b),
    decreases b.len(),
{
    if b.len() == 0 {
        assert(a + b =~= a);
        assert(flattened(a) + flattened(b) =~= flattened(a));
    } else {
        lemma_flattened_concat(a, b.drop_last());
        assert((a + b).drop_last() =~= a + b.drop_last());
        assert((a + b).last() == b.last());
        assert(flattened(a) + flattened(b.drop_last()) + alternatives_of(b.last()) =~= flattened(a)
            + (flattened(b.drop_last()) + alternatives_of(b.last())));
    }
}

/// Normalizing a normalized union of `xs` together with more shapes `ys` gives what normalizing
/// `xs` and `ys` together gives: a union can be built up in steps.
pub proof fn law_union_absorbs_a_normalized_union(
    xs: Seq<Shape>,
    ys: Seq<Shape>,
    u: Shape,
    r1: Option<Shape>,
    r2: Option<Shape>,
)
    requires
        is_normalized_union_of(xs, Some(u)),
        is_normalized_union_of(seq![u] + ys, r1),
        is_normalized_union_of(xs + ys, r2),
    ensures
        r1 == r2,
{
    lemma_flattened_concat(seq![u], ys);
    lemma_flattened_concat(xs, ys);
    assert(seq![u].drop_last() =~= Seq::<Shape>::empty());
    assert(seq![u].last() == u);
    assert(flattened(Seq::<Shape>::empty()) == Seq::<Shape>::empty());
    assert(flattened(seq![u]) == flattened(Seq::<Shape>::empty()) + alternatives_of(u));
    assert(flattened(seq![u]) =~= alternatives_of(u));
    lemma_concat_to_set(alternatives_of(u), flattened(ys));
    lemma_concat_to_set(flattened(xs), flattened(ys));
    law_union_depends_only_on_alternative_set(seq![u] + ys, xs + ys, r1, r2);
}

/// No shape whose unions are canonical is both a signed and an unsigned integer shape.
pub proof fn law_never_signed_and_unsigned(s: Shape)
    requires
        is_union_shape(s) ==> canonical_alternatives(alternatives_of(s)),
    ensures
        !(signed_integer_shape(s) && unsigned_integer_shape(s)),
{
    if let Shape::Union(xs) = s {
        assert(!is_union_shape(xs[0]));
        assert(signed_integer_shape(s) ==> signed_integer_shape(xs[0]));
        assert(unsigned_integer_shape(s) ==> unsigned_integer_shape(xs[0]));
    }
}

} // verus!
