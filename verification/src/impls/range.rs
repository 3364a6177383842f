//! The ranges as Serde structs of their bounds: `Range` and `RangeInclusive` with `start` and
//! `end`, `RangeFrom` with `start`, `RangeTo` with `end`.
use vstd::prelude::*;

use super::variant::{
    deserialize_fields_kind, is_struct_body_in, is_struct_body_out, serialize_fields_kind,
};
use crate::definition::{DeserializeDefinitionKind, SerializeDefinitionKind, TypeName};
use crate::graph::{DeserializeShape, DeserializeShapeContext, SerializeShape, SerializeShapeContext};
use crate::shape::ShapeRef;

verus! {

/// A run of the builder of a range with two bounds: `T`'s shape, built twice in turn, becomes the
/// value of the field `first` and then of the field `second`.
pub open spec fn bounds_run_out<T: SerializeShape>(first: &'static str, second: &'static str) -> spec_fn(SerializeShapeContext, SerializeShapeContext, SerializeDefinitionKind) -> bool {
    |during: SerializeShapeContext, built: SerializeShapeContext, kind: SerializeDefinitionKind| exists|middle: SerializeShapeContext, a: ShapeRef, b: ShapeRef|
        #[trigger] T::emits(during, middle, a) && #[trigger] T::emits(middle, built, b)
            && is_struct_body_out(kind, seq![first, second], seq![a, b])
}

/// A run of the builder of a range with one bound: `T`'s shape becomes the value of the field
/// `field`.
pub open spec fn bound_field_run_out<T: SerializeShape>(field: &'static str) -> spec_fn(SerializeShapeContext, SerializeShapeContext, SerializeDefinitionKind) -> bool {
    |during: SerializeShapeContext, built: SerializeShapeContext, kind: SerializeDefinitionKind| exists|a: ShapeRef| #[trigger] T::emits(during, built, a) && is_struct_body_out(kind, seq![field], seq![a])
}

/// A run of the builder of a range with two bounds: `T`'s shape, built twice in turn, becomes the
/// value of the field `first` and then of the field `second`.
pub open spec fn bounds_run_in<T: DeserializeShape>(first: &'static str, second: &'static str) -> spec_fn(DeserializeShapeContext, DeserializeShapeContext, DeserializeDefinitionKind) -> bool {
    |during: DeserializeShapeContext, built: DeserializeShapeContext, kind: DeserializeDefinitionKind| exists|middle: DeserializeShapeContext, a: ShapeRef, b: ShapeRef|
        #[trigger] T::accepts(during, middle, a) && #[trigger] T::accepts(middle, built, b)
            && is_struct_body_in(kind, seq![first, second], seq![a, b])
}

/// A run of the builder of a range with one bound: `T`'s shape becomes the value of the field
/// `field`.
pub open spec fn bound_field_run_in<T: DeserializeShape>(field: &'static str) -> spec_fn(DeserializeShapeContext, DeserializeShapeContext, DeserializeDefinitionKind) -> bool {
    |during: DeserializeShapeContext, built: DeserializeShapeContext, kind: DeserializeDefinitionKind| exists|a: ShapeRef| #[trigger] T::accepts(during, built, a) && is_struct_body_in(kind, seq![field], seq![a])
}

impl<T: SerializeShape> SerializeShape for core::ops::Range<T> {
    open spec fn emits(before: SerializeShapeContext, after: SerializeShapeContext, r: ShapeRef) -> bool {
        exists|identity: core::any::TypeId|
            SerializeShapeContext::defines_with(
                before,
                after,
                identity,
                TypeName { rust_name: "Range", name: "Range" },
                None,
                bounds_run_out::<T>("start", "end"),
                r,
            )
    }

    fn serialize_shape_in(context: &mut SerializeShapeContext) -> (r: ShapeRef) {
        let ghost before = *context;
        let build = |context: &mut SerializeShapeContext| -> (kind: SerializeDefinitionKind)
            ensures
                SerializeShapeContext::extends(*old(context), *final(context)),
                bounds_run_out::<T>("start", "end")(*old(context), *final(context), kind)
            {
                let ghost during = *context;
                let a = T::serialize_shape_in(context);
                let ghost middle = *context;
                let b = T::serialize_shape_in(context);
                let ghost ga = a;
                let ghost gb = b;
                let fields = vec![("start", a), ("end", b)];
                proof {
                    assert(fields@.map_values(|f: (&'static str, ShapeRef)| f.0) =~= seq!["start", "end"]);
                    assert(fields@.map_values(|f: (&'static str, ShapeRef)| f.1) =~= seq![ga, gb]);
                    assert(T::emits(during, middle, ga) && T::emits(middle, *context, gb));
                }
                serialize_fields_kind(fields)
            };
        let type_names = TypeName::of::<Self>("Range");
        let r = context.define_named_type(type_names, build);
        proof {
            SerializeShapeContext::lemma_define_named_type(before, *context, type_names, None, build, bounds_run_out::<T>("start", "end"), r);
        }
        r
    }
}

impl<T: DeserializeShape> DeserializeShape for core::ops::Range<T> {
    open spec fn accepts(before: DeserializeShapeContext, after: DeserializeShapeContext, r: ShapeRef) -> bool {
        exists|identity: core::any::TypeId|
            DeserializeShapeContext::defines_with(
                before,
                after,
                identity,
                TypeName { rust_name: "Range", name: "Range" },
                None,
                bounds_run_in::<T>("start", "end"),
                r,
            )
    }

    fn deserialize_shape_in(context: &mut DeserializeShapeContext) -> (r: ShapeRef) {
        let ghost before = *context;
        let build = |context: &mut DeserializeShapeContext| -> (kind: DeserializeDefinitionKind)
            ensures
                DeserializeShapeContext::extends(*old(context), *final(context)),
                bounds_run_in::<T>("start", "end")(*old(context), *final(context), kind)
            {
                let ghost during = *context;
                let a = T::deserialize_shape_in(context);
                let ghost middle = *context;
                let b = T::deserialize_shape_in(context);
                let ghost ga = a;
                let ghost gb = b;
                let fields = vec![("start", a), ("end", b)];
                proof {
                    assert(fields@.map_values(|f: (&'static str, ShapeRef)| f.0) =~= seq!["start", "end"]);
                    assert(fields@.map_values(|f: (&'static str, ShapeRef)| f.1) =~= seq![ga, gb]);
                    assert(T::accepts(during, middle, ga) && T::accepts(middle, *context, gb));
                }
                deserialize_fields_kind(fields)
            };
        let type_names = TypeName::of::<Self>("Range");
        let r = context.define_named_type(type_names, build);
        proof {
            DeserializeShapeContext::lemma_define_named_type(before, *context, type_names, None, build, bounds_run_in::<T>("start", "end"), r);
        }
        r
    }
}

impl<T: SerializeShape> SerializeShape for core::ops::RangeFrom<T> {
    open spec fn emits(before: SerializeShapeContext, after: SerializeShapeContext, r: ShapeRef) -> bool {
        exists|identity: core::any::TypeId|
            SerializeShapeContext::defines_with(
                before,
                after,
                identity,
                TypeName { rust_name: "RangeFrom", name: "RangeFrom" },
                None,
                bound_field_run_out::<T>("start"),
                r,
            )
    }

    fn serialize_shape_in(context: &mut SerializeShapeContext) -> (r: ShapeRef) {
        let ghost before = *context;
        let build = |context: &mut SerializeShapeContext| -> (kind: SerializeDefinitionKind)
            ensures
                SerializeShapeContext::extends(*old(context), *final(context)),
                bound_field_run_out::<T>("start")(*old(context), *final(context), kind)
            {
                let a = T::serialize_shape_in(context);
                let ghost ga = a;
                let fields = vec![("start", a)];
                proof {
                    assert(fields@.map_values(|f: (&'static str, ShapeRef)| f.0) =~= seq!["start"]);
                    assert(fields@.map_values(|f: (&'static str, ShapeRef)| f.1) =~= seq![ga]);
                }
                serialize_fields_kind(fields)
            };
        let type_names = TypeName::of::<Self>("RangeFrom");
        let r = context.define_named_type(type_names, build);
        proof {
            SerializeShapeContext::lemma_define_named_type(before, *context, type_names, None, build, bound_field_run_out::<T>("start"), r);
        }
        r
    }
}

impl<T: DeserializeShape> DeserializeShape for core::ops::RangeFrom<T> {
    open spec fn accepts(before: DeserializeShapeContext, after: DeserializeShapeContext, r: ShapeRef) -> bool {
        exists|identity: core::any::TypeId|
            DeserializeShapeContext::defines_with(
                before,
                after,
                identity,
                TypeName { rust_name: "RangeFrom", name: "RangeFrom" },
                None,
                bound_field_run_in::<T>("start"),
                r,
            )
    }

    fn deserialize_shape_in(context: &mut DeserializeShapeContext) -> (r: ShapeRef) {
        let ghost before = *context;
        let build = |context: &mut DeserializeShapeContext| -> (kind: DeserializeDefinitionKind)
            ensures
                DeserializeShapeContext::extends(*old(context), *final(context)),
                bound_field_run_in::<T>("start")(*old(context), *final(context), kind)
            {
                let a = T::deserialize_shape_in(context);
                let ghost ga = a;
                let fields = vec![("start", a)];
                proof {
                    assert(fields@.map_values(|f: (&'static str, ShapeRef)| f.0) =~= seq!["start"]);
                    assert(fields@.map_values(|f: (&'static str, ShapeRef)| f.1) =~= seq![ga]);
                }
                deserialize_fields_kind(fields)
            };
        let type_names = TypeName::of::<Self>("RangeFrom");
        let r = context.define_named_type(type_names, build);
        proof {
            DeserializeShapeContext::lemma_define_named_type(before, *context, type_names, None, build, bound_field_run_in::<T>("start"), r);
        }
        r
    }
}

impl<T: SerializeShape> SerializeShape for core::ops::RangeInclusive<T> {
    open spec fn emits(before: SerializeShapeContext, after: SerializeShapeContext, r: ShapeRef) -> bool {
        exists|identity: core::any::TypeId|
            SerializeShapeContext::defines_with(
                before,
                after,
                identity,
                TypeName { rust_name: "RangeInclusive", name: "RangeInclusive" },
                None,
                bounds_run_out::<T>("start", "end"),
                r,
            )
    }

    fn serialize_shape_in(context: &mut SerializeShapeContext) -> (r: ShapeRef) {
        let ghost before = *context;
        let build = |context: &mut SerializeShapeContext| -> (kind: SerializeDefinitionKind)
            ensures
                SerializeShapeContext::extends(*old(context), *final(context)),
                bounds_run_out::<T>("start", "end")(*old(context), *final(context), kind)
            {
                let ghost during = *context;
                let a = T::serialize_shape_in(context);
                let ghost middle = *context;
                let b = T::serialize_shape_in(context);
                let ghost ga = a;
                let ghost gb = b;
                let fields = vec![("start", a), ("end", b)];
                proof {
                    assert(fields@.map_values(|f: (&'static str, ShapeRef)| f.0) =~= seq!["start", "end"]);
                    assert(fields@.map_values(|f: (&'static str, ShapeRef)| f.1) =~= seq![ga, gb]);
                    assert(T::emits(during, middle, ga) && T::emits(middle, *context, gb));
                }
                serialize_fields_kind(fields)
            };
        let type_names = TypeName::of::<Self>("RangeInclusive");
        let r = context.define_named_type(type_names, build);
        proof {
            SerializeShapeContext::lemma_define_named_type(before, *context, type_names, None, build, bounds_run_out::<T>("start", "end"), r);
        }
        r
    }
}

impl<T: DeserializeShape> DeserializeShape for core::ops::RangeInclusive<T> {
    open spec fn accepts(before: DeserializeShapeContext, after: DeserializeShapeContext, r: ShapeRef) -> bool {
        exists|identity: core::any::TypeId|
            DeserializeShapeContext::defines_with(
                before,
                after,
                identity,
                TypeName { rust_name: "RangeInclusive", name: "RangeInclusive" },
                None,
                bounds_run_in::<T>("start", "end"),
                r,
            )
    }

    fn deserialize_shape_in(context: &mut DeserializeShapeContext) -> (r: ShapeRef) {
        let ghost before = *context;
        let build = |context: &mut DeserializeShapeContext| -> (kind: DeserializeDefinitionKind)
            ensures
                DeserializeShapeContext::extends(*old(context), *final(context)),
                bounds_run_in::<T>("start", "end")(*old(context), *final(context), kind)
            {
                let ghost during = *context;
                let a = T::deserialize_shape_in(context);
                let ghost middle = *context;
                let b = T::deserialize_shape_in(context);
                let ghost ga = a;
                let ghost gb = b;
                let fields = vec![("start", a), ("end", b)];
                proof {
                    assert(fields@.map_values(|f: (&'static str, ShapeRef)| f.0) =~= seq!["start", "end"]);
                    assert(fields@.map_values(|f: (&'static str, ShapeRef)| f.1) =~= seq![ga, gb]);
                    assert(T::accepts(during, middle, ga) && T::accepts(middle, *context, gb));
                }
                deserialize_fields_kind(fields)
            };
        let type_names = TypeName::of::<Self>("RangeInclusive");
        let r = context.define_named_type(type_names, build);
        proof {
            DeserializeShapeContext::lemma_define_named_type(before, *context, type_names, None, build, bounds_run_in::<T>("start", "end"), r);
        }
        r
    }
}

impl<T: SerializeShape> SerializeShape for core::ops::RangeTo<T> {
    open spec fn emits(before: SerializeShapeContext, after: SerializeShapeContext, r: ShapeRef) -> bool {
        exists|identity: core::any::TypeId|
            SerializeShapeContext::defines_with(
                before,
                after,
                identity,
                TypeName { rust_name: "RangeTo", name: "RangeTo" },
                None,
                bound_field_run_out::<T>("end"),
                r,
            )
    }

    fn serialize_shape_in(context: &mut SerializeShapeContext) -> (r: ShapeRef) {
        let ghost before = *context;
        let build = |context: &mut SerializeShapeContext| -> (kind: SerializeDefinitionKind)
            ensures
                SerializeShapeContext::extends(*old(context), *final(context)),
                bound_field_run_out::<T>("end")(*old(context), *final(context), kind)
            {
                let a = T::serialize_shape_in(context);
                let ghost ga = a;
                let fields = vec![("end", a)];
                proof {
                    assert(fields@.map_values(|f: (&'static str, ShapeRef)| f.0) =~= seq!["end"]);
                    assert(fields@.map_values(|f: (&'static str, ShapeRef)| f.1) =~= seq![ga]);
                }
                serialize_fields_kind(fields)
            };
        let type_names = TypeName::of::<Self>("RangeTo");
        let r = context.define_named_type(type_names, build);
        proof {
            SerializeShapeContext::lemma_define_named_type(before, *context, type_names, None, build, bound_field_run_out::<T>("end"), r);
        }
        r
    }
}

impl<T: DeserializeShape> DeserializeShape for core::ops::RangeTo<T> {
    open spec fn accepts(before: DeserializeShapeContext, after: DeserializeShapeContext, r: ShapeRef) -> bool {
        exists|identity: core::any::TypeId|
            DeserializeShapeContext::defines_with(
                before,
                after,
                identity,
                TypeName { rust_name: "RangeTo", name: "RangeTo" },
                None,
                bound_field_run_in::<T>("end"),
                r,
            )
    }

    fn deserialize_shape_in(context: &mut DeserializeShapeContext) -> (r: ShapeRef) {
        let ghost before = *context;
        let build = |context: &mut DeserializeShapeContext| -> (kind: DeserializeDefinitionKind)
            ensures
                DeserializeShapeContext::extends(*old(context), *final(context)),
                bound_field_run_in::<T>("end")(*old(context), *final(context), kind)
            {
                let a = T::deserialize_shape_in(context);
                let ghost ga = a;
                let fields = vec![("end", a)];
                proof {
                    assert(fields@.map_values(|f: (&'static str, ShapeRef)| f.0) =~= seq!["end"]);
                    assert(fields@.map_values(|f: (&'static str, ShapeRef)| f.1) =~= seq![ga]);
                }
                deserialize_fields_kind(fields)
            };
        let type_names = TypeName::of::<Self>("RangeTo");
        let r = context.define_named_type(type_names, build);
        proof {
            DeserializeShapeContext::lemma_define_named_type(before, *context, type_names, None, build, bound_field_run_in::<T>("end"), r);
        }
        r
    }
}

} // verus!
