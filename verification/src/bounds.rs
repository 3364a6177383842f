//! Shape-bound inference for derived implementations: which generic types a field's type makes
//! need a shape implementation, collected without repeats over a container's fields.
use vstd::prelude::*;

use crate::graph::same_str;
use crate::plan::CowElement;

verus! {

broadcast use vstd::seq::group_seq_axioms;

/// A field type, as far as bound inference reads it.
#[derive(Debug)]
pub enum TypeExpr {
    /// A type parameter of the container, by index.
    Param(u32),
    /// An associated type of a type parameter, such as `T::Value`.
    Assoc(u32, &'static str),
    /// A path type, by its segments: each an identifier and the type arguments it carries.
    Path(Vec<(&'static str, Vec<TypeExpr>)>),
    /// A reference or pointer to an element type.
    Reference(Box<TypeExpr>),
    /// An invisible group or a parenthesized type around an element type.
    Group(Box<TypeExpr>),
    /// A lifetime argument, such as the `'a` of `Cow<'a, str>`.
    Lifetime,
    /// A slice of an element type.
    Slice(Box<TypeExpr>),
    /// An array of an element type.
    Array(Box<TypeExpr>),
    /// A tuple of element types.
    Tuple(Vec<TypeExpr>),
    /// Any other type, which needs no bound.
    Other,
}

/// A type that needs a shape bound.
#[derive(Clone, Copy, Debug, Eq, PartialEq)]
pub enum BoundType {
    /// A type parameter, by index.
    Param(u32),
    /// An associated type of a type parameter.
    Assoc(u32, &'static str),
}

/// The model of a type that needs a shape bound.
pub enum BoundModel {
    Param(u32),
    Assoc(u32, Seq<char>),
}

/// The model of a bound type.
pub open spec fn bound_model(b: BoundType) -> BoundModel {
    match b {
        BoundType::Param(p) => BoundModel::Param(p),
        BoundType::Assoc(p, name) => BoundModel::Assoc(p, name@),
    }
}

/// The models of a list of bound types.
pub open spec fn bound_models(bs: Seq<BoundType>) -> Seq<BoundModel> {
    bs.map_values(|b: BoundType| bound_model(b))
}

/// The types that a field type needs bounds for, in the order they occur, repeats included:
/// a type parameter or an associated type of one itself, nothing in `PhantomData`, and
/// otherwise what its element types and type arguments need.
pub open spec fn bound_types(t: TypeExpr) -> Seq<BoundModel>
    decreases t,
{
    match t {
        TypeExpr::Param(p) => seq![BoundModel::Param(p)],
        TypeExpr::Assoc(p, name) => seq![BoundModel::Assoc(p, name@)],
        TypeExpr::Path(segments) => if segments@.len() > 0 && segments@.last().0@
            == "PhantomData"@ {
            Seq::empty()
        } else {
            segments_bounds(segments@)
        },
        TypeExpr::Reference(element) => bound_types(*element),
        TypeExpr::Group(element) => bound_types(*element),
        TypeExpr::Lifetime => Seq::empty(),
        TypeExpr::Slice(element) => bound_types(*element),
        TypeExpr::Array(element) => bound_types(*element),
        TypeExpr::Tuple(elements) => list_bounds(elements@),
        TypeExpr::Other => Seq::empty(),
    }
}

/// The bound types of a list of types, one after the other.
pub open spec fn list_bounds(ts: Seq<TypeExpr>) -> Seq<BoundModel>
    decreases ts,
{
    if ts.len() == 0 {
        Seq::empty()
    } else {
        list_bounds(ts.drop_last()) + bound_types(ts.last())
    }
}

/// The bound types of the type arguments of a path's segments, one after the other.
pub open spec fn segments_bounds(segments: Seq<(&'static str, Vec<TypeExpr>)>) -> Seq<BoundModel>
    decreases segments,
{
    if segments.len() == 0 {
        Seq::empty()
    } else {
        segments_bounds(segments.drop_last()) + list_bounds(segments.last().1@)
    }
}

/// `acc` with `b` added at the end unless it already holds it.
pub open spec fn push_unique(acc: Seq<BoundModel>, b: BoundModel) -> Seq<BoundModel> {
    if acc.contains(b) {
        acc
    } else {
        acc.push(b)
    }
}

/// `acc` with each of `bs` added in order unless already held.
pub open spec fn push_all(acc: Seq<BoundModel>, bs: Seq<BoundModel>) -> Seq<BoundModel>
    decreases bs.len(),
{
    if bs.len() == 0 {
        acc
    } else {
        push_unique(push_all(acc, bs.drop_last()), bs.last())
    }
}

/// Adding two lists one after the other adds their concatenation.
pub proof fn lemma_push_all_concat(acc: Seq<BoundModel>, a: Seq<BoundModel>, b: Seq<BoundModel>)
    ensures
        push_all(acc, a + b) == push_all(push_all(acc, a), b),
    decreases b.len(),
{
    if b.len() == 0 {
        assert(a + b =~= a);
    } else {
        lemma_push_all_concat(acc, a, b.drop_last());
        assert((a + b).drop_last() =~= a + b.drop_last());
        assert((a + b).last() == b.last());
    }
}

/// Adding the empty list changes nothing; adding one type is adding it unless held.
proof fn lemma_push_all_small(acc: Seq<BoundModel>, b: BoundModel)
    ensures
        push_all(acc, Seq::empty()) == acc,
        push_all(acc, seq![b]) == push_unique(acc, b),
{
    assert(seq![b].drop_last() =~= Seq::<BoundModel>::empty());
    assert(push_all(acc, Seq::<BoundModel>::empty()) == acc);
    assert(seq![b].last() == b);
}

/// Whether two bound types have the same model.
fn same_bound(a: &BoundType, b: &BoundType) -> (r: bool)
    ensures
        r == (bound_model(*a) == bound_model(*b)),
{
    match (a, b) {
        (BoundType::Param(p), BoundType::Param(q)) => *p == *q,
        (BoundType::Assoc(p, m), BoundType::Assoc(q, n)) => *p == *q && same_str(m, n),
        _ => false,
    }
}

/// Add a bound type unless one with the same model is already there.
fn push_bound_type(out: &mut Vec<BoundType>, b: BoundType)
    ensures
        bound_models(final(out)@) == push_unique(bound_models(old(out)@), bound_model(b)),
{
    let ghost models = bound_models(out@);
    let mut i: usize = 0;
    while i < out.len()
        invariant
            i <= out@.len(),
            models == bound_models(out@),
            forall|k: int| 0 <= k < i ==> bound_model(out@[k]) != bound_model(b),
        decreases out@.len() - i,
    {
        if same_bound(&out[i], &b) {
            proof {
                assert(models[i as int] == bound_model(b));
            }
            return;
        }
        i = i + 1;
    }
    proof {
        assert forall|k: int| 0 <= k < models.len() implies models[k] != bound_model(b) by {
            assert(models[k] == bound_model(out@[k]));
        }
    }
    out.push(b);
    assert(bound_models(out@) =~= models.push(bound_model(b)));
}

/// Add, without repeats, the types that `ty` needs shape bounds for.
pub fn collect_shape_bound_types(ty: &TypeExpr, out: &mut Vec<BoundType>)
    ensures
        bound_models(final(out)@) == push_all(bound_models(old(out)@), bound_types(*ty)),
    decreases ty,
{
    proof {
        lemma_push_all_small(bound_models(out@), BoundModel::Param(0));
    }
    match ty {
        TypeExpr::Param(p) => {
            proof {
                lemma_push_all_small(bound_models(out@), BoundModel::Param(*p));
            }
            push_bound_type(out, BoundType::Param(*p));
        },
        TypeExpr::Assoc(p, name) => {
            proof {
                lemma_push_all_small(bound_models(out@), BoundModel::Assoc(*p, name@));
            }
            push_bound_type(out, BoundType::Assoc(*p, *name));
        },
        TypeExpr::Path(segments) => {
            let n = segments.len();
            if n > 0 && same_str(segments[n - 1].0, "PhantomData") {
                return;
            }
            let ghost start = bound_models(out@);
            let mut i: usize = 0;
            proof {
                assert(segments@.take(0) =~= Seq::<(&'static str, Vec<TypeExpr>)>::empty());
            }
            proof {
                assert(decreases_to!(*ty => *segments));
            }
            while i < segments.len()
                invariant
                    i <= segments@.len(),
                    decreases_to!(*ty => *segments),
                    bound_models(out@) == push_all(start, segments_bounds(segments@.take(i as int))),
                decreases segments@.len() - i,
            {
                proof {
                    assert(decreases_to!(*segments => segments@));
                    assert(decreases_to!(segments@ => segments@[i as int]));
                    assert(decreases_to!(segments@[i as int] => segments@[i as int].1));
                    assert(segments@.take(i + 1).drop_last() =~= segments@.take(i as int));
                    lemma_push_all_concat(
                        start,
                        segments_bounds(segments@.take(i as int)),
                        list_bounds(segments@[i as int].1@),
                    );
                }
                collect_path_arguments(&segments[i].1, out);
                i = i + 1;
            }
            proof {
                assert(segments@.take(segments@.len() as int) =~= segments@);
            }
        },
        TypeExpr::Reference(element) => collect_shape_bound_types(element, out),
        TypeExpr::Group(element) => collect_shape_bound_types(element, out),
        TypeExpr::Lifetime => {},
        TypeExpr::Slice(element) => collect_shape_bound_types(element, out),
        TypeExpr::Array(element) => collect_shape_bound_types(element, out),
        TypeExpr::Tuple(elements) => collect_path_arguments(elements, out),
        TypeExpr::Other => {},
    }
}

/// Add, without repeats, the types that a list of types (a segment's type arguments or a
/// tuple's elements) needs shape bounds for.
pub fn collect_path_arguments(types: &Vec<TypeExpr>, out: &mut Vec<BoundType>)
    ensures
        bound_models(final(out)@) == push_all(bound_models(old(out)@), list_bounds(types@)),
    decreases types,
{
    let ghost start = bound_models(out@);
    let mut i: usize = 0;
    proof {
        assert(types@.take(0) =~= Seq::<TypeExpr>::empty());
        lemma_push_all_small(start, BoundModel::Param(0));
    }
    while i < types.len()
        invariant
            i <= types@.len(),
            bound_models(out@) == push_all(start, list_bounds(types@.take(i as int))),
        decreases types@.len() - i,
    {
        proof {
            assert(decreases_to!(types => types@));
            assert(decreases_to!(types@ => types@[i as int]));
            assert(types@.take(i + 1).drop_last() =~= types@.take(i as int));
            lemma_push_all_concat(start, list_bounds(types@.take(i as int)), bound_types(types@[i as int]));
        }
        collect_shape_bound_types(&types[i], out);
        i = i + 1;
    }
    proof {
        assert(types@.take(types@.len() as int) =~= types@);
    }
}

/// A field, as far as bound inference reads it in one direction.
#[derive(Debug)]
pub struct BoundField {
    /// Whether the field is skipped in this direction.
    pub skip: bool,
    /// Whether a `serde_shape` hook or a Serde custom function supplies its representation.
    pub custom: bool,
    /// The field's type.
    pub ty: TypeExpr,
}

/// An enum variant, as far as bound inference reads it in one direction.
#[derive(Debug)]
pub struct BoundVariant {
    /// Whether the variant is skipped in this direction.
    pub skip: bool,
    /// Whether a `serde_shape` hook or a Serde custom function supplies its content.
    pub custom: bool,
    /// The variant's fields.
    pub fields: Vec<BoundField>,
}

/// A container's data, as far as bound inference reads it.
#[derive(Debug)]
pub enum BoundData {
    /// A struct's fields.
    Struct(Vec<BoundField>),
    /// An enum's variants.
    Enum(Vec<BoundVariant>),
}

/// A container, as far as bound inference reads it in one direction.
#[derive(Debug)]
pub struct BoundContainer {
    /// The bound predicates that the container gives explicitly for this direction, if any.
    pub explicit: Option<&'static str>,
    /// Whether a container-level `serde_shape` hook supplies the shape in this direction.
    pub shape_hook: bool,
    /// Whether the container is a Serde remote definition.
    pub remote: bool,
    /// The conversion type (`into` when serializing, `from` or `try_from` when
    /// deserializing), if any.
    pub conversion: Option<TypeExpr>,
    /// The container's fields or variants.
    pub data: BoundData,
}

/// The shape bounds a derived implementation gets.
#[derive(Debug)]
pub enum ShapeBounds {
    /// The container's explicit bound predicates, as given.
    Explicit(&'static str),
    /// A bound on the conversion type.
    Conversion,
    /// A bound on each of these types.
    Types(Vec<BoundType>),
}

/// The model of the shape bounds a derived implementation gets.
pub enum BoundsModel {
    Explicit(Seq<char>),
    Conversion,
    Types(Seq<BoundModel>),
}

/// The model of shape bounds.
pub open spec fn shape_bounds_model(b: ShapeBounds) -> BoundsModel {
    match b {
        ShapeBounds::Explicit(predicates) => BoundsModel::Explicit(predicates@),
        ShapeBounds::Conversion => BoundsModel::Conversion,
        ShapeBounds::Types(types) => BoundsModel::Types(bound_models(types@)),
    }
}

/// The bound types that a list of fields needs, repeats included: those of each field's type,
/// except for fields that are skipped or have a custom representation.
pub open spec fn field_bounds(fields: Seq<BoundField>) -> Seq<BoundModel>
    decreases fields.len(),
{
    if fields.len() == 0 {
        Seq::empty()
    } else {
        field_bounds(fields.drop_last()) + if fields.last().skip || fields.last().custom {
            Seq::empty()
        } else {
            bound_types(fields.last().ty)
        }
    }
}

/// The bound types that a list of variants needs, repeats included: those of each variant's
/// fields, except for variants that are skipped or have a custom content.
pub open spec fn variant_bounds(variants: Seq<BoundVariant>) -> Seq<BoundModel>
    decreases variants.len(),
{
    if variants.len() == 0 {
        Seq::empty()
    } else {
        variant_bounds(variants.drop_last()) + if variants.last().skip || variants.last().custom {
            Seq::empty()
        } else {
            field_bounds(variants.last().fields@)
        }
    }
}

/// The shape bounds of a container: its explicit bounds when given; none when a hook or a
/// remote definition supplies its shape; a bound on the conversion type when that type uses a
/// type parameter, and none otherwise; else a bound on each type its fields need, once.
pub open spec fn shape_bounds_of(c: BoundContainer) -> BoundsModel {
    if c.explicit is Some {
        BoundsModel::Explicit(c.explicit->0@)
    } else if c.shape_hook || c.remote {
        BoundsModel::Types(Seq::empty())
    } else if c.conversion is Some {
        if bound_types(c.conversion->0).len() > 0 {
            BoundsModel::Conversion
        } else {
            BoundsModel::Types(Seq::empty())
        }
    } else {
        BoundsModel::Types(
            push_all(
                Seq::empty(),
                match c.data {
                    BoundData::Struct(fields) => field_bounds(fields@),
                    BoundData::Enum(variants) => variant_bounds(variants@),
                },
            ),
        )
    }
}

/// Adding types to an empty list leaves it empty exactly when there were none.
proof fn lemma_push_all_empty(bs: Seq<BoundModel>)
    ensures
        (push_all(Seq::empty(), bs).len() > 0) == (bs.len() > 0),
{
    if bs.len() > 0 {
        let before = push_all(Seq::empty(), bs.drop_last());
        if before.contains(bs.last()) {
            assert(before.len() > 0);
        }
    }
}

/// Whether a type needs any shape bound, that is, uses a type parameter.
pub fn type_uses_params(ty: &TypeExpr) -> (r: bool)
    ensures
        r == (bound_types(*ty).len() > 0),
{
    let mut found: Vec<BoundType> = Vec::new();
    proof {
        assert(bound_models(found@) =~= Seq::<BoundModel>::empty());
    }
    collect_shape_bound_types(ty, &mut found);
    proof {
        lemma_push_all_empty(bound_types(*ty));
    }
    found.len() > 0
}

/// Add, without repeats, the types that a list of fields needs shape bounds for.
pub fn collect_field_bound_types(fields: &Vec<BoundField>, out: &mut Vec<BoundType>)
    ensures
        bound_models(final(out)@) == push_all(bound_models(old(out)@), field_bounds(fields@)),
{
    let ghost start = bound_models(out@);
    let mut i: usize = 0;
    proof {
        assert(fields@.take(0) =~= Seq::<BoundField>::empty());
        lemma_push_all_small(start, BoundModel::Param(0));
    }
    while i < fields.len()
        invariant
            i <= fields@.len(),
            bound_models(out@) == push_all(start, field_bounds(fields@.take(i as int))),
        decreases fields@.len() - i,
    {
        let field = &fields[i];
        proof {
            assert(fields@.take(i + 1).drop_last() =~= fields@.take(i as int));
            assert(fields@.take(i + 1).last() == fields@[i as int]);
        }
        if field.skip || field.custom {
            proof {
                assert(field_bounds(fields@.take(i + 1)) =~= field_bounds(fields@.take(i as int)));
            }
        } else {
            proof {
                lemma_push_all_concat(start, field_bounds(fields@.take(i as int)), bound_types(field.ty));
            }
            collect_shape_bound_types(&field.ty, out);
        }
        i = i + 1;
    }
    proof {
        assert(fields@.take(fields@.len() as int) =~= fields@);
    }
}

/// Add, without repeats, the types that a list of variants needs shape bounds for.
pub fn collect_variant_bound_types(variants: &Vec<BoundVariant>, out: &mut Vec<BoundType>)
    ensures
        bound_models(final(out)@) == push_all(bound_models(old(out)@), variant_bounds(variants@)),
{
    let ghost start = bound_models(out@);
    let mut i: usize = 0;
    proof {
        assert(variants@.take(0) =~= Seq::<BoundVariant>::empty());
        lemma_push_all_small(start, BoundModel::Param(0));
    }
    while i < variants.len()
        invariant
            i <= variants@.len(),
            bound_models(out@) == push_all(start, variant_bounds(variants@.take(i as int))),
        decreases variants@.len() - i,
    {
        let variant = &variants[i];
        proof {
            assert(variants@.take(i + 1).drop_last() =~= variants@.take(i as int));
            assert(variants@.take(i + 1).last() == variants@[i as int]);
        }
        if variant.skip || variant.custom {
            proof {
                assert(variant_bounds(variants@.take(i + 1)) =~= variant_bounds(variants@.take(i as int)));
            }
        } else {
            proof {
                lemma_push_all_concat(
                    start,
                    variant_bounds(variants@.take(i as int)),
                    field_bounds(variant.fields@),
                );
            }
            collect_field_bound_types(&variant.fields, out);
        }
        i = i + 1;
    }
    proof {
        assert(variants@.take(variants@.len() as int) =~= variants@);
    }
}

/// The shape bounds a derived implementation of a container gets in one direction.
pub fn add_shape_bounds(c: &BoundContainer) -> (r: ShapeBounds)
    ensures
        shape_bounds_model(r) == shape_bounds_of(*c),
{
    if let Some(predicates) = c.explicit {
        return ShapeBounds::Explicit(predicates);
    }
    let mut types: Vec<BoundType> = Vec::new();
    proof {
        assert(bound_models(types@) =~= Seq::<BoundModel>::empty());
    }
    if c.shape_hook || c.remote {
        return ShapeBounds::Types(types);
    }
    match &c.conversion {
        Some(ty) => {
            if type_uses_params(ty) {
                return ShapeBounds::Conversion;
            } else {
                return ShapeBounds::Types(types);
            }
        },
        None => {},
    }
    match &c.data {
        BoundData::Struct(fields) => collect_field_bound_types(fields, &mut types),
        BoundData::Enum(variants) => collect_variant_bound_types(variants, &mut types),
    }
    ShapeBounds::Types(types)
}

// ---------------------------------------------------------------------------------------------
// Laws of bound inference

/// A list of types needs a bound exactly when one of its types does.
proof fn lemma_list_bounds_contains(ts: Seq<TypeExpr>, b: BoundModel)
    ensures
        list_bounds(ts).contains(b) <==> exists|i: int|
            0 <= i < ts.len() && #[trigger] bound_types(ts[i]).contains(b),
    decreases ts.len(),
{
    if ts.len() > 0 {
        lemma_list_bounds_contains(ts.drop_last(), b);
        let front = list_bounds(ts.drop_last());
        let back = bound_types(ts.last());
        if (front + back).contains(b) {
            let k = choose|k: int| 0 <= k < (front + back).len() && (front + back)[k] == b;
            if k >= front.len() {
                assert(back[k - front.len()] == b);
                assert(bound_types(ts[ts.len() - 1]).contains(b));
            } else {
                assert(front.contains(b));
                let i = choose|i: int| 0 <= i < ts.drop_last().len() && #[trigger] bound_types(ts.drop_last()[i]).contains(b);
                assert(ts.drop_last()[i] == ts[i]);
            }
        }
        if exists|i: int| 0 <= i < ts.len() && #[trigger] bound_types(ts[i]).contains(b) {
            let i = choose|i: int| 0 <= i < ts.len() && #[trigger] bound_types(ts[i]).contains(b);
            if i == ts.len() - 1 {
                let k = choose|k: int| 0 <= k < back.len() && back[k] == b;
                assert((front + back)[front.len() + k] == b);
            } else {
                assert(ts.drop_last()[i] == ts[i]);
                let k = choose|k: int| 0 <= k < front.len() && front[k] == b;
                assert((front + back)[k] == b);
            }
        }
    }
}

/// The arguments of a path's segments need a bound exactly when one of them does.
proof fn lemma_segments_bounds_contains(segments: Seq<(&'static str, Vec<TypeExpr>)>, b: BoundModel)
    ensures
        segments_bounds(segments).contains(b) <==> exists|i: int|
            0 <= i < segments.len() && #[trigger] list_bounds(segments[i].1@).contains(b),
    decreases segments.len(),
{
    if segments.len() > 0 {
        lemma_segments_bounds_contains(segments.drop_last(), b);
        let front = segments_bounds(segments.drop_last());
        let back = list_bounds(segments.last().1@);
        if (front + back).contains(b) {
            let k = choose|k: int| 0 <= k < (front + back).len() && (front + back)[k] == b;
            if k >= front.len() {
                assert(back[k - front.len()] == b);
                assert(list_bounds(segments[segments.len() - 1].1@).contains(b));
            } else {
                assert(front.contains(b));
                let i = choose|i: int| 0 <= i < segments.drop_last().len() && #[trigger] list_bounds(segments.drop_last()[i].1@).contains(b);
                assert(segments.drop_last()[i] == segments[i]);
            }
        }
        if exists|i: int| 0 <= i < segments.len() && #[trigger] list_bounds(segments[i].1@).contains(b) {
            let i = choose|i: int| 0 <= i < segments.len() && #[trigger] list_bounds(segments[i].1@).contains(b);
            if i == segments.len() - 1 {
                let k = choose|k: int| 0 <= k < back.len() && back[k] == b;
                assert((front + back)[front.len() + k] == b);
            } else {
                assert(segments.drop_last()[i] == segments[i]);
                let k = choose|k: int| 0 <= k < front.len() && front[k] == b;
                assert((front + back)[k] == b);
            }
        }
    }
}

/// What a type needs bounds for, by its form: a type parameter needs one for itself, an
/// associated type of a parameter for itself; an array, slice, reference or group needs what its
/// element needs; a tuple, and a path other than `PhantomData<..>`, need what any of their
/// element types or type arguments need and nothing else; `PhantomData<..>`, lifetimes and other
/// types need nothing.
pub proof fn law_bounds_follow_the_type(
    e: TypeExpr,
    p: u32,
    name: &'static str,
    elements: Vec<TypeExpr>,
    segments: Vec<(&'static str, Vec<TypeExpr>)>,
    b: BoundModel,
)
    ensures
        bound_types(TypeExpr::Param(p)) == seq![BoundModel::Param(p)],
        bound_types(TypeExpr::Assoc(p, name)) == seq![BoundModel::Assoc(p, name@)],
        bound_types(TypeExpr::Array(Box::new(e))) == bound_types(e),
        bound_types(TypeExpr::Slice(Box::new(e))) == bound_types(e),
        bound_types(TypeExpr::Reference(Box::new(e))) == bound_types(e),
        bound_types(TypeExpr::Group(Box::new(e))) == bound_types(e),
        bound_types(TypeExpr::Lifetime).len() == 0,
        bound_types(TypeExpr::Other).len() == 0,
        bound_types(TypeExpr::Tuple(elements)).contains(b) <==> exists|i: int|
            0 <= i < elements@.len() && #[trigger] bound_types(elements@[i]).contains(b),
        segments@.len() > 0 && segments@.last().0@ == "PhantomData"@ ==> bound_types(
            TypeExpr::Path(segments),
        ).len() == 0,
        !(segments@.len() > 0 && segments@.last().0@ == "PhantomData"@) ==> (bound_types(
            TypeExpr::Path(segments),
        ).contains(b) <==> exists|i: int, j: int|
            0 <= i < segments@.len() && 0 <= j < segments@[i].1@.len()
                && #[trigger] bound_types(segments@[i].1@[j]).contains(b)),
{
    lemma_list_bounds_contains(elements@, b);
    lemma_segments_bounds_contains(segments@, b);
    assert forall|i: int| 0 <= i < segments@.len() implies (#[trigger] list_bounds(segments@[i].1@).contains(b)
        <==> exists|j: int| 0 <= j < segments@[i].1@.len() && #[trigger] bound_types(segments@[i].1@[j]).contains(b)) by {
        lemma_list_bounds_contains(segments@[i].1@, b);
    }
    if !(segments@.len() > 0 && segments@.last().0@ == "PhantomData"@) {
        if bound_types(TypeExpr::Path(segments)).contains(b) {
            let i = choose|i: int| 0 <= i < segments@.len() && #[trigger] list_bounds(segments@[i].1@).contains(b);
            let j = choose|j: int| 0 <= j < segments@[i].1@.len() && #[trigger] bound_types(segments@[i].1@[j]).contains(b);
            assert(0 <= i < segments@.len() && 0 <= j < segments@[i].1@.len() && bound_types(segments@[i].1@[j]).contains(b));
        }
        if exists|i: int, j: int| 0 <= i < segments@.len() && 0 <= j < segments@[i].1@.len()
                && #[trigger] bound_types(segments@[i].1@[j]).contains(b) {
            let (i, j) = choose|i: int, j: int| 0 <= i < segments@.len() && 0 <= j < segments@[i].1@.len()
                && #[trigger] bound_types(segments@[i].1@[j]).contains(b);
            assert(list_bounds(segments@[i].1@).contains(b));
        }
    }
}

/// Adding types keeps what was held and adds exactly those types, each once.
proof fn lemma_push_all_contents(acc: Seq<BoundModel>, bs: Seq<BoundModel>, x: BoundModel)
    ensures
        push_all(acc, bs).contains(x) <==> acc.contains(x) || bs.contains(x),
        acc.no_duplicates() ==> push_all(acc, bs).no_duplicates(),
    decreases bs.len(),
{
    if bs.len() > 0 {
        lemma_push_all_contents(acc, bs.drop_last(), x);
        let before = push_all(acc, bs.drop_last());
        if bs.drop_last().contains(x) {
            let k = choose|k: int| 0 <= k < bs.drop_last().len() && bs.drop_last()[k] == x;
            assert(bs[k] == x);
        }
        if bs.contains(x) && !bs.drop_last().contains(x) {
            let k = choose|k: int| 0 <= k < bs.len() && bs[k] == x;
            if k < bs.len() - 1 {
                assert(bs.drop_last()[k] == x);
            }
        }
        if !before.contains(bs.last()) {
            assert(before.push(bs.last()).last() == bs.last());
            if before.push(bs.last()).contains(x) {
                let k = choose|k: int| 0 <= k < before.push(bs.last()).len() && before.push(bs.last())[k] == x;
                if k < before.len() {
                    assert(before[k] == x);
                }
            }
            if before.contains(x) {
                let k = choose|k: int| 0 <= k < before.len() && before[k] == x;
                assert(before.push(bs.last())[k] == x);
            }
        }
    }
}

/// A list of fields needs a bound exactly when the type of one of its fields that is neither
/// skipped nor custom does.
proof fn lemma_field_bounds_contains(fields: Seq<BoundField>, b: BoundModel)
    ensures
        field_bounds(fields).contains(b) <==> exists|i: int|
            0 <= i < fields.len() && !fields[i].skip && !fields[i].custom
                && #[trigger] bound_types(fields[i].ty).contains(b),
    decreases fields.len(),
{
    if fields.len() > 0 {
        lemma_field_bounds_contains(fields.drop_last(), b);
        let front = field_bounds(fields.drop_last());
        let last = fields.last();
        let back = if last.skip || last.custom { Seq::<BoundModel>::empty() } else { bound_types(last.ty) };
        if (front + back).contains(b) {
            let k = choose|k: int| 0 <= k < (front + back).len() && (front + back)[k] == b;
            if k >= front.len() {
                assert(back[k - front.len()] == b);
                assert(fields[fields.len() - 1] == last);
                assert(bound_types(fields[fields.len() - 1].ty).contains(b));
            } else {
                assert(front.contains(b));
                let i = choose|i: int| 0 <= i < fields.drop_last().len() && !fields.drop_last()[i].skip
                    && !fields.drop_last()[i].custom && #[trigger] bound_types(fields.drop_last()[i].ty).contains(b);
                assert(fields.drop_last()[i] == fields[i]);
            }
        }
        if exists|i: int| 0 <= i < fields.len() && !fields[i].skip && !fields[i].custom
                && #[trigger] bound_types(fields[i].ty).contains(b) {
            let i = choose|i: int| 0 <= i < fields.len() && !fields[i].skip && !fields[i].custom
                && #[trigger] bound_types(fields[i].ty).contains(b);
            if i == fields.len() - 1 {
                let k = choose|k: int| 0 <= k < back.len() && back[k] == b;
                assert((front + back)[front.len() + k] == b);
            } else {
                assert(fields.drop_last()[i] == fields[i]);
                let k = choose|k: int| 0 <= k < front.len() && front[k] == b;
                assert((front + back)[k] == b);
            }
        }
    }
}

/// A list of variants needs a bound exactly when the field list of one of its variants that is
/// neither skipped nor custom does.
proof fn lemma_variant_bounds_contains(variants: Seq<BoundVariant>, b: BoundModel)
    ensures
        variant_bounds(variants).contains(b) <==> exists|i: int|
            0 <= i < variants.len() && !variants[i].skip && !variants[i].custom
                && #[trigger] field_bounds(variants[i].fields@).contains(b),
    decreases variants.len(),
{
    if variants.len() > 0 {
        lemma_variant_bounds_contains(variants.drop_last(), b);
        let front = variant_bounds(variants.drop_last());
        let last = variants.last();
        let back = if last.skip || last.custom { Seq::<BoundModel>::empty() } else { field_bounds(last.fields@) };
        if (front + back).contains(b) {
            let k = choose|k: int| 0 <= k < (front + back).len() && (front + back)[k] == b;
            if k >= front.len() {
                assert(back[k - front.len()] == b);
                assert(variants[variants.len() - 1] == last);
                assert(field_bounds(variants[variants.len() - 1].fields@).contains(b));
            } else {
                assert(front.contains(b));
                let i = choose|i: int| 0 <= i < variants.drop_last().len() && !variants.drop_last()[i].skip
                    && !variants.drop_last()[i].custom && #[trigger] field_bounds(variants.drop_last()[i].fields@).contains(b);
                assert(variants.drop_last()[i] == variants[i]);
            }
        }
        if exists|i: int| 0 <= i < variants.len() && !variants[i].skip && !variants[i].custom
                && #[trigger] field_bounds(variants[i].fields@).contains(b) {
            let i = choose|i: int| 0 <= i < variants.len() && !variants[i].skip && !variants[i].custom
                && #[trigger] field_bounds(variants[i].fields@).contains(b);
            if i == variants.len() - 1 {
                let k = choose|k: int| 0 <= k < back.len() && back[k] == b;
                assert((front + back)[front.len() + k] == b);
            } else {
                assert(variants.drop_last()[i] == variants[i]);
                let k = choose|k: int| 0 <= k < front.len() && front[k] == b;
                assert((front + back)[k] == b);
            }
        }
    }
}

/// The bounds of a derived container: its explicit predicates when it gives them; none when a
/// hook or a remote definition supplies its shape; and otherwise, without a conversion type,
/// each type that the type of a field (of a variant) neither skipped nor custom needs a bound
/// for, each once, and nothing else.
pub proof fn law_derived_bounds_cover_the_fields(c: BoundContainer, b: BoundModel)
    ensures
        c.explicit matches Some(predicates) ==> shape_bounds_of(c) == BoundsModel::Explicit(
            predicates@,
        ),
        c.explicit is None && (c.shape_hook || c.remote) ==> shape_bounds_of(c)
            == BoundsModel::Types(Seq::empty()),
        c.explicit is None && !c.shape_hook && !c.remote && c.conversion is None ==> {
            &&& shape_bounds_of(c) matches BoundsModel::Types(ms)
            &&& ms.no_duplicates()
            &&& ms.contains(b) <==> match c.data {
                BoundData::Struct(fields) => exists|i: int|
                    0 <= i < fields@.len() && !fields@[i].skip && !fields@[i].custom
                        && #[trigger] bound_types(fields@[i].ty).contains(b),
                BoundData::Enum(variants) => exists|i: int, j: int|
                    0 <= i < variants@.len() && !variants@[i].skip && !variants@[i].custom
                        && 0 <= j < variants@[i].fields@.len() && !variants@[i].fields@[j].skip
                        && !variants@[i].fields@[j].custom
                        && #[trigger] bound_types(variants@[i].fields@[j].ty).contains(b),
            }
        },
{
    if c.explicit is None && !c.shape_hook && !c.remote && c.conversion is None {
        let bs = match c.data {
            BoundData::Struct(fields) => field_bounds(fields@),
            BoundData::Enum(variants) => variant_bounds(variants@),
        };
        assert(Seq::<BoundModel>::empty().no_duplicates());
        lemma_push_all_contents(Seq::empty(), bs, b);
        match c.data {
            BoundData::Struct(fields) => {
                lemma_field_bounds_contains(fields@, b);
            },
            BoundData::Enum(variants) => {
                lemma_variant_bounds_contains(variants@, b);
                assert forall|i: int| 0 <= i < variants@.len() implies (#[trigger] field_bounds(variants@[i].fields@).contains(b)
                    <==> exists|j: int| 0 <= j < variants@[i].fields@.len() && !variants@[i].fields@[j].skip
                        && !variants@[i].fields@[j].custom && #[trigger] bound_types(variants@[i].fields@[j].ty).contains(b)) by {
                    lemma_field_bounds_contains(variants@[i].fields@, b);
                }
                if bs.contains(b) {
                    let i = choose|i: int| 0 <= i < variants@.len() && !variants@[i].skip && !variants@[i].custom
                        && #[trigger] field_bounds(variants@[i].fields@).contains(b);
                    let j = choose|j: int| 0 <= j < variants@[i].fields@.len() && !variants@[i].fields@[j].skip
                        && !variants@[i].fields@[j].custom && #[trigger] bound_types(variants@[i].fields@[j].ty).contains(b);
                    assert(bound_types(variants@[i].fields@[j].ty).contains(b));
                }
                if exists|i: int, j: int| 0 <= i < variants@.len() && !variants@[i].skip && !variants@[i].custom
                        && 0 <= j < variants@[i].fields@.len() && !variants@[i].fields@[j].skip
                        && !variants@[i].fields@[j].custom
                        && #[trigger] bound_types(variants@[i].fields@[j].ty).contains(b) {
                    let (i, j) = choose|i: int, j: int| 0 <= i < variants@.len() && !variants@[i].skip && !variants@[i].custom
                        && 0 <= j < variants@[i].fields@.len() && !variants@[i].fields@[j].skip
                        && !variants@[i].fields@[j].custom
                        && #[trigger] bound_types(variants@[i].fields@[j].ty).contains(b);
                    assert(field_bounds(variants@[i].fields@).contains(b));
                }
            },
        }
    }
}

// ---------------------------------------------------------------------------------------------
// Borrowed `Cow` fields

/// `t` without the invisible groups around it.
pub open spec fn ungroup(t: TypeExpr) -> TypeExpr
    decreases t,
{
    match t {
        TypeExpr::Group(element) => ungroup(*element),
        _ => t,
    }
}

/// The element type of `Cow<'a, T>`: a path whose last segment is `Cow` with exactly a lifetime
/// and a type as its arguments.
pub open spec fn cow_element_spec(t: TypeExpr) -> Option<TypeExpr> {
    match ungroup(t) {
        TypeExpr::Path(segments) => if segments@.len() > 0 && segments@.last().0@ == "Cow"@
            && segments@.last().1@.len() == 2 && segments@.last().1@[0] is Lifetime
            && !(segments@.last().1@[1] is Lifetime) {
            Some(segments@.last().1@[1])
        } else {
            None
        },
        _ => None,
    }
}

/// Whether `t` is the plain one-segment path `name` with no arguments.
pub open spec fn is_primitive_spec(t: TypeExpr, name: &str) -> bool {
    match ungroup(t) {
        TypeExpr::Path(segments) => segments@.len() == 1 && segments@[0].0@ == name@
            && segments@[0].1@.len() == 0,
        _ => false,
    }
}

/// Whether `t` is `[u8]`.
pub open spec fn is_byte_slice_spec(t: TypeExpr) -> bool {
    match ungroup(t) {
        TypeExpr::Slice(element) => is_primitive_spec(*element, "u8"),
        _ => false,
    }
}

/// The kind of `Cow` that `t` is.
pub open spec fn cow_element_of(t: TypeExpr) -> CowElement {
    match cow_element_spec(t) {
        None => CowElement::NotCow,
        Some(element) => if is_primitive_spec(element, "str") {
            CowElement::Str
        } else if is_byte_slice_spec(element) {
            CowElement::Bytes
        } else {
            CowElement::Other
        },
    }
}

/// `ty` without the invisible groups around it.
pub fn ungroup_type(ty: &TypeExpr) -> (r: &TypeExpr)
    ensures
        *r == ungroup(*ty),
    decreases ty,
{
    match ty {
        TypeExpr::Group(element) => ungroup_type(element),
        _ => ty,
    }
}

/// The element type of a `Cow<'a, T>` type.
pub fn cow_element_type(ty: &TypeExpr) -> (r: Option<&TypeExpr>)
    ensures
        match r {
            Some(element) => cow_element_spec(*ty) == Some(*element),
            None => cow_element_spec(*ty) is None,
        },
{
    match ungroup_type(ty) {
        TypeExpr::Path(segments) => {
            let n = segments.len();
            if n == 0 || !same_str(segments[n - 1].0, "Cow") {
                return None;
            }
            let arguments = &segments[n - 1].1;
            if arguments.len() != 2 {
                return None;
            }
            match (&arguments[0], &arguments[1]) {
                (TypeExpr::Lifetime, TypeExpr::Lifetime) => None,
                (TypeExpr::Lifetime, element) => Some(element),
                _ => None,
            }
        },
        _ => None,
    }
}

/// Whether `ty` is the plain one-segment path `name` with no arguments, such as `str` or `u8`.
pub fn is_primitive_type(ty: &TypeExpr, name: &str) -> (r: bool)
    ensures
        r == is_primitive_spec(*ty, name),
{
    match ungroup_type(ty) {
        TypeExpr::Path(segments) => segments.len() == 1 && same_str(segments[0].0, name)
            && segments[0].1.len() == 0,
        _ => false,
    }
}

/// Whether `ty` is `[u8]`.
pub fn is_byte_slice(ty: &TypeExpr) -> (r: bool)
    ensures
        r == is_byte_slice_spec(*ty),
{
    match ungroup_type(ty) {
        TypeExpr::Slice(element) => is_primitive_type(element, "u8"),
        _ => false,
    }
}

/// The kind of `Cow` that a field's type is, which decides what Serde borrows for it.
pub fn cow_element(ty: &TypeExpr) -> (r: CowElement)
    ensures
        r == cow_element_of(*ty),
{
    match cow_element_type(ty) {
        None => CowElement::NotCow,
        Some(element) => if is_primitive_type(element, "str") {
            CowElement::Str
        } else if is_byte_slice(element) {
            CowElement::Bytes
        } else {
            CowElement::Other
        },
    }
}

} // verus!
