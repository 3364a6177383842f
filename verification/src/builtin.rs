//! Laws of the built-in shapes of primitive types, arrays and tuples: each stands for the Rust
//! type it belongs to, position by position, and builds no definition.
use vstd::prelude::*;

use crate::graph::{DeserializeShape, DeserializeShapeContext, SerializeShape, SerializeShapeContext};
use crate::definition::{
    DeserializeDefinitionKind, DeserializeVariantContent, FieldWireShape, SerializeDefinitionKind,
    SerializeVariantContent, Tagging, TypeName,
};
use crate::model::Shape;
use crate::shape::{alternatives_of, flattened, integer_range, is_union_shape, ShapeRef};

verus! {

/// The serialized shape of every integer type, and of its atomic counterpart, stands for an
/// integer type with the same least and greatest value; `()`, `bool`, `char` and `String` stand
/// for the unit, a boolean, a character and a string. None of them defines anything.
pub proof fn law_primitive_shapes_stand_for_their_type_out(before: SerializeShapeContext, after: SerializeShapeContext, r: ShapeRef)
    ensures
        <i8 as SerializeShape>::emits(before, after, r) ==> integer_range(r@) == Some((i8::MIN as int, i8::MAX as int)) && after == before,
        <i16 as SerializeShape>::emits(before, after, r) ==> integer_range(r@) == Some((i16::MIN as int, i16::MAX as int)) && after == before,
        <i32 as SerializeShape>::emits(before, after, r) ==> integer_range(r@) == Some((i32::MIN as int, i32::MAX as int)) && after == before,
        <i64 as SerializeShape>::emits(before, after, r) ==> integer_range(r@) == Some((i64::MIN as int, i64::MAX as int)) && after == before,
        <i128 as SerializeShape>::emits(before, after, r) ==> integer_range(r@) == Some((i128::MIN as int, i128::MAX as int)) && after == before,
        <isize as SerializeShape>::emits(before, after, r) ==> integer_range(r@) == Some((isize::MIN as int, isize::MAX as int)) && after == before,
        <u8 as SerializeShape>::emits(before, after, r) ==> integer_range(r@) == Some((u8::MIN as int, u8::MAX as int)) && after == before,
        <u16 as SerializeShape>::emits(before, after, r) ==> integer_range(r@) == Some((u16::MIN as int, u16::MAX as int)) && after == before,
        <u32 as SerializeShape>::emits(before, after, r) ==> integer_range(r@) == Some((u32::MIN as int, u32::MAX as int)) && after == before,
        <u64 as SerializeShape>::emits(before, after, r) ==> integer_range(r@) == Some((u64::MIN as int, u64::MAX as int)) && after == before,
        <u128 as SerializeShape>::emits(before, after, r) ==> integer_range(r@) == Some((u128::MIN as int, u128::MAX as int)) && after == before,
        <usize as SerializeShape>::emits(before, after, r) ==> integer_range(r@) == Some((usize::MIN as int, usize::MAX as int)) && after == before,
        <core::sync::atomic::AtomicI8 as SerializeShape>::emits(before, after, r) ==> integer_range(r@) == Some((i8::MIN as int, i8::MAX as int)) && after == before,
        <core::sync::atomic::AtomicU8 as SerializeShape>::emits(before, after, r) ==> integer_range(r@) == Some((u8::MIN as int, u8::MAX as int)) && after == before,
        <core::sync::atomic::AtomicI16 as SerializeShape>::emits(before, after, r) ==> integer_range(r@) == Some((i16::MIN as int, i16::MAX as int)) && after == before,
        <core::sync::atomic::AtomicU16 as SerializeShape>::emits(before, after, r) ==> integer_range(r@) == Some((u16::MIN as int, u16::MAX as int)) && after == before,
        <core::sync::atomic::AtomicI32 as SerializeShape>::emits(before, after, r) ==> integer_range(r@) == Some((i32::MIN as int, i32::MAX as int)) && after == before,
        <core::sync::atomic::AtomicU32 as SerializeShape>::emits(before, after, r) ==> integer_range(r@) == Some((u32::MIN as int, u32::MAX as int)) && after == before,
        <core::sync::atomic::AtomicI64 as SerializeShape>::emits(before, after, r) ==> integer_range(r@) == Some((i64::MIN as int, i64::MAX as int)) && after == before,
        <core::sync::atomic::AtomicU64 as SerializeShape>::emits(before, after, r) ==> integer_range(r@) == Some((u64::MIN as int, u64::MAX as int)) && after == before,
        <core::sync::atomic::AtomicIsize as SerializeShape>::emits(before, after, r) ==> integer_range(r@) == Some((isize::MIN as int, isize::MAX as int)) && after == before,
        <core::sync::atomic::AtomicUsize as SerializeShape>::emits(before, after, r) ==> integer_range(r@) == Some((usize::MIN as int, usize::MAX as int)) && after == before,
        <() as SerializeShape>::emits(before, after, r) ==> r@ == Shape::Unit && after == before,
        <bool as SerializeShape>::emits(before, after, r) ==> r@ == Shape::Bool && after == before,
        <core::sync::atomic::AtomicBool as SerializeShape>::emits(before, after, r) ==> r@ == Shape::Bool && after == before,
        <char as SerializeShape>::emits(before, after, r) ==> r@ == Shape::Char && after == before,
        <String as SerializeShape>::emits(before, after, r) ==> r@ == Shape::String && after == before,
{
}

/// The deserialized shape of every integer type, and of its atomic counterpart, stands for an
/// integer type with the same least and greatest value; `()`, `bool`, `char` and `String` stand
/// for the unit, a boolean, a character and a string. None of them defines anything.
pub proof fn law_primitive_shapes_stand_for_their_type_in(before: DeserializeShapeContext, after: DeserializeShapeContext, r: ShapeRef)
    ensures
        <i8 as DeserializeShape>::accepts(before, after, r) ==> integer_range(r@) == Some((i8::MIN as int, i8::MAX as int)) && after == before,
        <i16 as DeserializeShape>::accepts(before, after, r) ==> integer_range(r@) == Some((i16::MIN as int, i16::MAX as int)) && after == before,
        <i32 as DeserializeShape>::accepts(before, after, r) ==> integer_range(r@) == Some((i32::MIN as int, i32::MAX as int)) && after == before,
        <i64 as DeserializeShape>::accepts(before, after, r) ==> integer_range(r@) == Some((i64::MIN as int, i64::MAX as int)) && after == before,
        <i128 as DeserializeShape>::accepts(before, after, r) ==> integer_range(r@) == Some((i128::MIN as int, i128::MAX as int)) && after == before,
        <isize as DeserializeShape>::accepts(before, after, r) ==> integer_range(r@) == Some((isize::MIN as int, isize::MAX as int)) && after == before,
        <u8 as DeserializeShape>::accepts(before, after, r) ==> integer_range(r@) == Some((u8::MIN as int, u8::MAX as int)) && after == before,
        <u16 as DeserializeShape>::accepts(before, after, r) ==> integer_range(r@) == Some((u16::MIN as int, u16::MAX as int)) && after == before,
        <u32 as DeserializeShape>::accepts(before, after, r) ==> integer_range(r@) == Some((u32::MIN as int, u32::MAX as int)) && after == before,
        <u64 as DeserializeShape>::accepts(before, after, r) ==> integer_range(r@) == Some((u64::MIN as int, u64::MAX as int)) && after == before,
        <u128 as DeserializeShape>::accepts(before, after, r) ==> integer_range(r@) == Some((u128::MIN as int, u128::MAX as int)) && after == before,
        <usize as DeserializeShape>::accepts(before, after, r) ==> integer_range(r@) == Some((usize::MIN as int, usize::MAX as int)) && after == before,
        <core::sync::atomic::AtomicI8 as DeserializeShape>::accepts(before, after, r) ==> integer_range(r@) == Some((i8::MIN as int, i8::MAX as int)) && after == before,
        <core::sync::atomic::AtomicU8 as DeserializeShape>::accepts(before, after, r) ==> integer_range(r@) == Some((u8::MIN as int, u8::MAX as int)) && after == before,
        <core::sync::atomic::AtomicI16 as DeserializeShape>::accepts(before, after, r) ==> integer_range(r@) == Some((i16::MIN as int, i16::MAX as int)) && after == before,
        <core::sync::atomic::AtomicU16 as DeserializeShape>::accepts(before, after, r) ==> integer_range(r@) == Some((u16::MIN as int, u16::MAX as int)) && after == before,
        <core::sync::atomic::AtomicI32 as DeserializeShape>::accepts(before, after, r) ==> integer_range(r@) == Some((i32::MIN as int, i32::MAX as int)) && after == before,
        <core::sync::atomic::AtomicU32 as DeserializeShape>::accepts(before, after, r) ==> integer_range(r@) == Some((u32::MIN as int, u32::MAX as int)) && after == before,
        <core::sync::atomic::AtomicI64 as DeserializeShape>::accepts(before, after, r) ==> integer_range(r@) == Some((i64::MIN as int, i64::MAX as int)) && after == before,
        <core::sync::atomic::AtomicU64 as DeserializeShape>::accepts(before, after, r) ==> integer_range(r@) == Some((u64::MIN as int, u64::MAX as int)) && after == before,
        <core::sync::atomic::AtomicIsize as DeserializeShape>::accepts(before, after, r) ==> integer_range(r@) == Some((isize::MIN as int, isize::MAX as int)) && after == before,
        <core::sync::atomic::AtomicUsize as DeserializeShape>::accepts(before, after, r) ==> integer_range(r@) == Some((usize::MIN as int, usize::MAX as int)) && after == before,
        <() as DeserializeShape>::accepts(before, after, r) ==> r@ == Shape::Unit && after == before,
        <bool as DeserializeShape>::accepts(before, after, r) ==> r@ == Shape::Bool && after == before,
        <core::sync::atomic::AtomicBool as DeserializeShape>::accepts(before, after, r) ==> r@ == Shape::Bool && after == before,
        <char as DeserializeShape>::accepts(before, after, r) ==> r@ == Shape::Char && after == before,
        <String as DeserializeShape>::accepts(before, after, r) ==> r@ == Shape::String && after == before,
{
}

/// The serialized shape of an array of `N` items is an array of length `N` whose item is the
/// item type's shape.
pub proof fn law_arrays_have_their_length_and_item_type_out<T: SerializeShape>(before: SerializeShapeContext, after: SerializeShapeContext, r: ShapeRef)
    ensures
        <[T; 1] as SerializeShape>::emits(before, after, r) ==> (r matches ShapeRef::Array { item, len } && len == 1 && T::emits(before, after, *item)),
        <[T; 2] as SerializeShape>::emits(before, after, r) ==> (r matches ShapeRef::Array { item, len } && len == 2 && T::emits(before, after, *item)),
        <[T; 3] as SerializeShape>::emits(before, after, r) ==> (r matches ShapeRef::Array { item, len } && len == 3 && T::emits(before, after, *item)),
        <[T; 4] as SerializeShape>::emits(before, after, r) ==> (r matches ShapeRef::Array { item, len } && len == 4 && T::emits(before, after, *item)),
        <[T; 5] as SerializeShape>::emits(before, after, r) ==> (r matches ShapeRef::Array { item, len } && len == 5 && T::emits(before, after, *item)),
        <[T; 6] as SerializeShape>::emits(before, after, r) ==> (r matches ShapeRef::Array { item, len } && len == 6 && T::emits(before, after, *item)),
        <[T; 7] as SerializeShape>::emits(before, after, r) ==> (r matches ShapeRef::Array { item, len } && len == 7 && T::emits(before, after, *item)),
        <[T; 8] as SerializeShape>::emits(before, after, r) ==> (r matches ShapeRef::Array { item, len } && len == 8 && T::emits(before, after, *item)),
        <[T; 9] as SerializeShape>::emits(before, after, r) ==> (r matches ShapeRef::Array { item, len } && len == 9 && T::emits(before, after, *item)),
        <[T; 10] as SerializeShape>::emits(before, after, r) ==> (r matches ShapeRef::Array { item, len } && len == 10 && T::emits(before, after, *item)),
        <[T; 11] as SerializeShape>::emits(before, after, r) ==> (r matches ShapeRef::Array { item, len } && len == 11 && T::emits(before, after, *item)),
        <[T; 12] as SerializeShape>::emits(before, after, r) ==> (r matches ShapeRef::Array { item, len } && len == 12 && T::emits(before, after, *item)),
        <[T; 13] as SerializeShape>::emits(before, after, r) ==> (r matches ShapeRef::Array { item, len } && len == 13 && T::emits(before, after, *item)),
        <[T; 14] as SerializeShape>::emits(before, after, r) ==> (r matches ShapeRef::Array { item, len } && len == 14 && T::emits(before, after, *item)),
        <[T; 15] as SerializeShape>::emits(before, after, r) ==> (r matches ShapeRef::Array { item, len } && len == 15 && T::emits(before, after, *item)),
        <[T; 16] as SerializeShape>::emits(before, after, r) ==> (r matches ShapeRef::Array { item, len } && len == 16 && T::emits(before, after, *item)),
        <[T; 17] as SerializeShape>::emits(before, after, r) ==> (r matches ShapeRef::Array { item, len } && len == 17 && T::emits(before, after, *item)),
        <[T; 18] as SerializeShape>::emits(before, after, r) ==> (r matches ShapeRef::Array { item, len } && len == 18 && T::emits(before, after, *item)),
        <[T; 19] as SerializeShape>::emits(before, after, r) ==> (r matches ShapeRef::Array { item, len } && len == 19 && T::emits(before, after, *item)),
        <[T; 20] as SerializeShape>::emits(before, after, r) ==> (r matches ShapeRef::Array { item, len } && len == 20 && T::emits(before, after, *item)),
        <[T; 21] as SerializeShape>::emits(before, after, r) ==> (r matches ShapeRef::Array { item, len } && len == 21 && T::emits(before, after, *item)),
        <[T; 22] as SerializeShape>::emits(before, after, r) ==> (r matches ShapeRef::Array { item, len } && len == 22 && T::emits(before, after, *item)),
        <[T; 23] as SerializeShape>::emits(before, after, r) ==> (r matches ShapeRef::Array { item, len } && len == 23 && T::emits(before, after, *item)),
        <[T; 24] as SerializeShape>::emits(before, after, r) ==> (r matches ShapeRef::Array { item, len } && len == 24 && T::emits(before, after, *item)),
        <[T; 25] as SerializeShape>::emits(before, after, r) ==> (r matches ShapeRef::Array { item, len } && len == 25 && T::emits(before, after, *item)),
        <[T; 26] as SerializeShape>::emits(before, after, r) ==> (r matches ShapeRef::Array { item, len } && len == 26 && T::emits(before, after, *item)),
        <[T; 27] as SerializeShape>::emits(before, after, r) ==> (r matches ShapeRef::Array { item, len } && len == 27 && T::emits(before, after, *item)),
        <[T; 28] as SerializeShape>::emits(before, after, r) ==> (r matches ShapeRef::Array { item, len } && len == 28 && T::emits(before, after, *item)),
        <[T; 29] as SerializeShape>::emits(before, after, r) ==> (r matches ShapeRef::Array { item, len } && len == 29 && T::emits(before, after, *item)),
        <[T; 30] as SerializeShape>::emits(before, after, r) ==> (r matches ShapeRef::Array { item, len } && len == 30 && T::emits(before, after, *item)),
        <[T; 31] as SerializeShape>::emits(before, after, r) ==> (r matches ShapeRef::Array { item, len } && len == 31 && T::emits(before, after, *item)),
        <[T; 32] as SerializeShape>::emits(before, after, r) ==> (r matches ShapeRef::Array { item, len } && len == 32 && T::emits(before, after, *item)),
        <[T; 0] as SerializeShape>::emits(before, after, r) ==> (r matches ShapeRef::Array { item, len } && len == 0 && after == before),
{
}

/// The deserialized shape of an array of `N` items is an array of length `N` whose item is the
/// item type's shape.
pub proof fn law_arrays_have_their_length_and_item_type_in<T: DeserializeShape>(before: DeserializeShapeContext, after: DeserializeShapeContext, r: ShapeRef)
    ensures
        <[T; 1] as DeserializeShape>::accepts(before, after, r) ==> (r matches ShapeRef::Array { item, len } && len == 1 && T::accepts(before, after, *item)),
        <[T; 2] as DeserializeShape>::accepts(before, after, r) ==> (r matches ShapeRef::Array { item, len } && len == 2 && T::accepts(before, after, *item)),
        <[T; 3] as DeserializeShape>::accepts(before, after, r) ==> (r matches ShapeRef::Array { item, len } && len == 3 && T::accepts(before, after, *item)),
        <[T; 4] as DeserializeShape>::accepts(before, after, r) ==> (r matches ShapeRef::Array { item, len } && len == 4 && T::accepts(before, after, *item)),
        <[T; 5] as DeserializeShape>::accepts(before, after, r) ==> (r matches ShapeRef::Array { item, len } && len == 5 && T::accepts(before, after, *item)),
        <[T; 6] as DeserializeShape>::accepts(before, after, r) ==> (r matches ShapeRef::Array { item, len } && len == 6 && T::accepts(before, after, *item)),
        <[T; 7] as DeserializeShape>::accepts(before, after, r) ==> (r matches ShapeRef::Array { item, len } && len == 7 && T::accepts(before, after, *item)),
        <[T; 8] as DeserializeShape>::accepts(before, after, r) ==> (r matches ShapeRef::Array { item, len } && len == 8 && T::accepts(before, after, *item)),
        <[T; 9] as DeserializeShape>::accepts(before, after, r) ==> (r matches ShapeRef::Array { item, len } && len == 9 && T::accepts(before, after, *item)),
        <[T; 10] as DeserializeShape>::accepts(before, after, r) ==> (r matches ShapeRef::Array { item, len } && len == 10 && T::accepts(before, after, *item)),
        <[T; 11] as DeserializeShape>::accepts(before, after, r) ==> (r matches ShapeRef::Array { item, len } && len == 11 && T::accepts(before, after, *item)),
        <[T; 12] as DeserializeShape>::accepts(before, after, r) ==> (r matches ShapeRef::Array { item, len } && len == 12 && T::accepts(before, after, *item)),
        <[T; 13] as DeserializeShape>::accepts(before, after, r) ==> (r matches ShapeRef::Array { item, len } && len == 13 && T::accepts(before, after, *item)),
        <[T; 14] as DeserializeShape>::accepts(before, after, r) ==> (r matches ShapeRef::Array { item, len } && len == 14 && T::accepts(before, after, *item)),
        <[T; 15] as DeserializeShape>::accepts(before, after, r) ==> (r matches ShapeRef::Array { item, len } && len == 15 && T::accepts(before, after, *item)),
        <[T; 16] as DeserializeShape>::accepts(before, after, r) ==> (r matches ShapeRef::Array { item, len } && len == 16 && T::accepts(before, after, *item)),
        <[T; 17] as DeserializeShape>::accepts(before, after, r) ==> (r matches ShapeRef::Array { item, len } && len == 17 && T::accepts(before, after, *item)),
        <[T; 18] as DeserializeShape>::accepts(before, after, r) ==> (r matches ShapeRef::Array { item, len } && len == 18 && T::accepts(before, after, *item)),
        <[T; 19] as DeserializeShape>::accepts(before, after, r) ==> (r matches ShapeRef::Array { item, len } && len == 19 && T::accepts(before, after, *item)),
        <[T; 20] as DeserializeShape>::accepts(before, after, r) ==> (r matches ShapeRef::Array { item, len } && len == 20 && T::accepts(before, after, *item)),
        <[T; 21] as DeserializeShape>::accepts(before, after, r) ==> (r matches ShapeRef::Array { item, len } && len == 21 && T::accepts(before, after, *item)),
        <[T; 22] as DeserializeShape>::accepts(before, after, r) ==> (r matches ShapeRef::Array { item, len } && len == 22 && T::accepts(before, after, *item)),
        <[T; 23] as DeserializeShape>::accepts(before, after, r) ==> (r matches ShapeRef::Array { item, len } && len == 23 && T::accepts(before, after, *item)),
        <[T; 24] as DeserializeShape>::accepts(before, after, r) ==> (r matches ShapeRef::Array { item, len } && len == 24 && T::accepts(before, after, *item)),
        <[T; 25] as DeserializeShape>::accepts(before, after, r) ==> (r matches ShapeRef::Array { item, len } && len == 25 && T::accepts(before, after, *item)),
        <[T; 26] as DeserializeShape>::accepts(before, after, r) ==> (r matches ShapeRef::Array { item, len } && len == 26 && T::accepts(before, after, *item)),
        <[T; 27] as DeserializeShape>::accepts(before, after, r) ==> (r matches ShapeRef::Array { item, len } && len == 27 && T::accepts(before, after, *item)),
        <[T; 28] as DeserializeShape>::accepts(before, after, r) ==> (r matches ShapeRef::Array { item, len } && len == 28 && T::accepts(before, after, *item)),
        <[T; 29] as DeserializeShape>::accepts(before, after, r) ==> (r matches ShapeRef::Array { item, len } && len == 29 && T::accepts(before, after, *item)),
        <[T; 30] as DeserializeShape>::accepts(before, after, r) ==> (r matches ShapeRef::Array { item, len } && len == 30 && T::accepts(before, after, *item)),
        <[T; 31] as DeserializeShape>::accepts(before, after, r) ==> (r matches ShapeRef::Array { item, len } && len == 31 && T::accepts(before, after, *item)),
        <[T; 32] as DeserializeShape>::accepts(before, after, r) ==> (r matches ShapeRef::Array { item, len } && len == 32 && T::accepts(before, after, *item)),
        <[T; 0] as DeserializeShape>::accepts(before, after, r) ==> (r matches ShapeRef::Array { item, len } && len == 0 && after == before),
{
}

/// The serialized shape of a tuple is a tuple of as many shapes, the `i`-th the shape of the
/// `i`-th element type, built one after the other.
pub proof fn law_tuples_hold_their_element_types_in_order_out<T0: SerializeShape, T1: SerializeShape, T2: SerializeShape, T3: SerializeShape, T4: SerializeShape, T5: SerializeShape, T6: SerializeShape, T7: SerializeShape, T8: SerializeShape, T9: SerializeShape, T10: SerializeShape, T11: SerializeShape, T12: SerializeShape, T13: SerializeShape, T14: SerializeShape, T15: SerializeShape>(before: SerializeShapeContext, after: SerializeShapeContext, r: ShapeRef)
    ensures
        <(T0,) as SerializeShape>::emits(before, after, r) ==> (r matches ShapeRef::Tuple(items) && items@.len() == 1 && (T0::emits(before, after, items@[0]))),
        <(T0, T1,) as SerializeShape>::emits(before, after, r) ==> (r matches ShapeRef::Tuple(items) && items@.len() == 2 && (exists|c1: SerializeShapeContext| T0::emits(before, c1, items@[0]) && T1::emits(c1, after, items@[1]))),
        <(T0, T1, T2,) as SerializeShape>::emits(before, after, r) ==> (r matches ShapeRef::Tuple(items) && items@.len() == 3 && (exists|c1: SerializeShapeContext, c2: SerializeShapeContext| T0::emits(before, c1, items@[0]) && T1::emits(c1, c2, items@[1]) && T2::emits(c2, after, items@[2]))),
        <(T0, T1, T2, T3,) as SerializeShape>::emits(before, after, r) ==> (r matches ShapeRef::Tuple(items) && items@.len() == 4 && (exists|c1: SerializeShapeContext, c2: SerializeShapeContext, c3: SerializeShapeContext| T0::emits(before, c1, items@[0]) && T1::emits(c1, c2, items@[1]) && T2::emits(c2, c3, items@[2]) && T3::emits(c3, after, items@[3]))),
        <(T0, T1, T2, T3, T4,) as SerializeShape>::emits(before, after, r) ==> (r matches ShapeRef::Tuple(items) && items@.len() == 5 && (exists|c1: SerializeShapeContext, c2: SerializeShapeContext, c3: SerializeShapeContext, c4: SerializeShapeContext| T0::emits(before, c1, items@[0]) && T1::emits(c1, c2, items@[1]) && T2::emits(c2, c3, items@[2]) && T3::emits(c3, c4, items@[3]) && T4::emits(c4, after, items@[4]))),
        <(T0, T1, T2, T3, T4, T5,) as SerializeShape>::emits(before, after, r) ==> (r matches ShapeRef::Tuple(items) && items@.len() == 6 && (exists|c1: SerializeShapeContext, c2: SerializeShapeContext, c3: SerializeShapeContext, c4: SerializeShapeContext, c5: SerializeShapeContext| T0::emits(before, c1, items@[0]) && T1::emits(c1, c2, items@[1]) && T2::emits(c2, c3, items@[2]) && T3::emits(c3, c4, items@[3]) && T4::emits(c4, c5, items@[4]) && T5::emits(c5, after, items@[5]))),
        <(T0, T1, T2, T3, T4, T5, T6,) as SerializeShape>::emits(before, after, r) ==> (r matches ShapeRef::Tuple(items) && items@.len() == 7 && (exists|c1: SerializeShapeContext, c2: SerializeShapeContext, c3: SerializeShapeContext, c4: SerializeShapeContext, c5: SerializeShapeContext, c6: SerializeShapeContext| T0::emits(before, c1, items@[0]) && T1::emits(c1, c2, items@[1]) && T2::emits(c2, c3, items@[2]) && T3::emits(c3, c4, items@[3]) && T4::emits(c4, c5, items@[4]) && T5::emits(c5, c6, items@[5]) && T6::emits(c6, after, items@[6]))),
        <(T0, T1, T2, T3, T4, T5, T6, T7,) as SerializeShape>::emits(before, after, r) ==> (r matches ShapeRef::Tuple(items) && items@.len() == 8 && (exists|c1: SerializeShapeContext, c2: SerializeShapeContext, c3: SerializeShapeContext, c4: SerializeShapeContext, c5: SerializeShapeContext, c6: SerializeShapeContext, c7: SerializeShapeContext| T0::emits(before, c1, items@[0]) && T1::emits(c1, c2, items@[1]) && T2::emits(c2, c3, items@[2]) && T3::emits(c3, c4, items@[3]) && T4::emits(c4, c5, items@[4]) && T5::emits(c5, c6, items@[5]) && T6::emits(c6, c7, items@[6]) && T7::emits(c7, after, items@[7]))),
        <(T0, T1, T2, T3, T4, T5, T6, T7, T8,) as SerializeShape>::emits(before, after, r) ==> (r matches ShapeRef::Tuple(items) && items@.len() == 9 && (exists|c1: SerializeShapeContext, c2: SerializeShapeContext, c3: SerializeShapeContext, c4: SerializeShapeContext, c5: SerializeShapeContext, c6: SerializeShapeContext, c7: SerializeShapeContext, c8: SerializeShapeContext| T0::emits(before, c1, items@[0]) && T1::emits(c1, c2, items@[1]) && T2::emits(c2, c3, items@[2]) && T3::emits(c3, c4, items@[3]) && T4::emits(c4, c5, items@[4]) && T5::emits(c5, c6, items@[5]) && T6::emits(c6, c7, items@[6]) && T7::emits(c7, c8, items@[7]) && T8::emits(c8, after, items@[8]))),
        <(T0, T1, T2, T3, T4, T5, T6, T7, T8, T9,) as SerializeShape>::emits(before, after, r) ==> (r matches ShapeRef::Tuple(items) && items@.len() == 10 && (exists|c1: SerializeShapeContext, c2: SerializeShapeContext, c3: SerializeShapeContext, c4: SerializeShapeContext, c5: SerializeShapeContext, c6: SerializeShapeContext, c7: SerializeShapeContext, c8: SerializeShapeContext, c9: SerializeShapeContext| T0::emits(before, c1, items@[0]) && T1::emits(c1, c2, items@[1]) && T2::emits(c2, c3, items@[2]) && T3::emits(c3, c4, items@[3]) && T4::emits(c4, c5, items@[4]) && T5::emits(c5, c6, items@[5]) && T6::emits(c6, c7, items@[6]) && T7::emits(c7, c8, items@[7]) && T8::emits(c8, c9, items@[8]) && T9::emits(c9, after, items@[9]))),
        <(T0, T1, T2, T3, T4, T5, T6, T7, T8, T9, T10,) as SerializeShape>::emits(before, after, r) ==> (r matches ShapeRef::Tuple(items) && items@.len() == 11 && (exists|c1: SerializeShapeContext, c2: SerializeShapeContext, c3: SerializeShapeContext, c4: SerializeShapeContext, c5: SerializeShapeContext, c6: SerializeShapeContext, c7: SerializeShapeContext, c8: SerializeShapeContext, c9: SerializeShapeContext, c10: SerializeShapeContext| T0::emits(before, c1, items@[0]) && T1::emits(c1, c2, items@[1]) && T2::emits(c2, c3, items@[2]) && T3::emits(c3, c4, items@[3]) && T4::emits(c4, c5, items@[4]) && T5::emits(c5, c6, items@[5]) && T6::emits(c6, c7, items@[6]) && T7::emits(c7, c8, items@[7]) && T8::emits(c8, c9, items@[8]) && T9::emits(c9, c10, items@[9]) && T10::emits(c10, after, items@[10]))),
        <(T0, T1, T2, T3, T4, T5, T6, T7, T8, T9, T10, T11,) as SerializeShape>::emits(before, after, r) ==> (r matches ShapeRef::Tuple(items) && items@.len() == 12 && (exists|c1: SerializeShapeContext, c2: SerializeShapeContext, c3: SerializeShapeContext, c4: SerializeShapeContext, c5: SerializeShapeContext, c6: SerializeShapeContext, c7: SerializeShapeContext, c8: SerializeShapeContext, c9: SerializeShapeContext, c10: SerializeShapeContext, c11: SerializeShapeContext| T0::emits(before, c1, items@[0]) && T1::emits(c1, c2, items@[1]) && T2::emits(c2, c3, items@[2]) && T3::emits(c3, c4, items@[3]) && T4::emits(c4, c5, items@[4]) && T5::emits(c5, c6, items@[5]) && T6::emits(c6, c7, items@[6]) && T7::emits(c7, c8, items@[7]) && T8::emits(c8, c9, items@[8]) && T9::emits(c9, c10, items@[9]) && T10::emits(c10, c11, items@[10]) && T11::emits(c11, after, items@[11]))),
        <(T0, T1, T2, T3, T4, T5, T6, T7, T8, T9, T10, T11, T12,) as SerializeShape>::emits(before, after, r) ==> (r matches ShapeRef::Tuple(items) && items@.len() == 13 && (exists|c1: SerializeShapeContext, c2: SerializeShapeContext, c3: SerializeShapeContext, c4: SerializeShapeContext, c5: SerializeShapeContext, c6: SerializeShapeContext, c7: SerializeShapeContext, c8: SerializeShapeContext, c9: SerializeShapeContext, c10: SerializeShapeContext, c11: SerializeShapeContext, c12: SerializeShapeContext| T0::emits(before, c1, items@[0]) && T1::emits(c1, c2, items@[1]) && T2::emits(c2, c3, items@[2]) && T3::emits(c3, c4, items@[3]) && T4::emits(c4, c5, items@[4]) && T5::emits(c5, c6, items@[5]) && T6::emits(c6, c7, items@[6]) && T7::emits(c7, c8, items@[7]) && T8::emits(c8, c9, items@[8]) && T9::emits(c9, c10, items@[9]) && T10::emits(c10, c11, items@[10]) && T11::emits(c11, c12, items@[11]) && T12::emits(c12, after, items@[12]))),
        <(T0, T1, T2, T3, T4, T5, T6, T7, T8, T9, T10, T11, T12, T13,) as SerializeShape>::emits(before, after, r) ==> (r matches ShapeRef::Tuple(items) && items@.len() == 14 && (exists|c1: SerializeShapeContext, c2: SerializeShapeContext, c3: SerializeShapeContext, c4: SerializeShapeContext, c5: SerializeShapeContext, c6: SerializeShapeContext, c7: SerializeShapeContext, c8: SerializeShapeContext, c9: SerializeShapeContext, c10: SerializeShapeContext, c11: SerializeShapeContext, c12: SerializeShapeContext, c13: SerializeShapeContext| T0::emits(before, c1, items@[0]) && T1::emits(c1, c2, items@[1]) && T2::emits(c2, c3, items@[2]) && T3::emits(c3, c4, items@[3]) && T4::emits(c4, c5, items@[4]) && T5::emits(c5, c6, items@[5]) && T6::emits(c6, c7, items@[6]) && T7::emits(c7, c8, items@[7]) && T8::emits(c8, c9, items@[8]) && T9::emits(c9, c10, items@[9]) && T10::emits(c10, c11, items@[10]) && T11::emits(c11, c12, items@[11]) && T12::emits(c12, c13, items@[12]) && T13::emits(c13, after, items@[13]))),
        <(T0, T1, T2, T3, T4, T5, T6, T7, T8, T9, T10, T11, T12, T13, T14,) as SerializeShape>::emits(before, after, r) ==> (r matches ShapeRef::Tuple(items) && items@.len() == 15 && (exists|c1: SerializeShapeContext, c2: SerializeShapeContext, c3: SerializeShapeContext, c4: SerializeShapeContext, c5: SerializeShapeContext, c6: SerializeShapeContext, c7: SerializeShapeContext, c8: SerializeShapeContext, c9: SerializeShapeContext, c10: SerializeShapeContext, c11: SerializeShapeContext, c12: SerializeShapeContext, c13: SerializeShapeContext, c14: SerializeShapeContext| T0::emits(before, c1, items@[0]) && T1::emits(c1, c2, items@[1]) && T2::emits(c2, c3, items@[2]) && T3::emits(c3, c4, items@[3]) && T4::emits(c4, c5, items@[4]) && T5::emits(c5, c6, items@[5]) && T6::emits(c6, c7, items@[6]) && T7::emits(c7, c8, items@[7]) && T8::emits(c8, c9, items@[8]) && T9::emits(c9, c10, items@[9]) && T10::emits(c10, c11, items@[10]) && T11::emits(c11, c12, items@[11]) && T12::emits(c12, c13, items@[12]) && T13::emits(c13, c14, items@[13]) && T14::emits(c14, after, items@[14]))),
        <(T0, T1, T2, T3, T4, T5, T6, T7, T8, T9, T10, T11, T12, T13, T14, T15,) as SerializeShape>::emits(before, after, r) ==> (r matches ShapeRef::Tuple(items) && items@.len() == 16 && (exists|c1: SerializeShapeContext, c2: SerializeShapeContext, c3: SerializeShapeContext, c4: SerializeShapeContext, c5: SerializeShapeContext, c6: SerializeShapeContext, c7: SerializeShapeContext, c8: SerializeShapeContext, c9: SerializeShapeContext, c10: SerializeShapeContext, c11: SerializeShapeContext, c12: SerializeShapeContext, c13: SerializeShapeContext, c14: SerializeShapeContext, c15: SerializeShapeContext| T0::emits(before, c1, items@[0]) && T1::emits(c1, c2, items@[1]) && T2::emits(c2, c3, items@[2]) && T3::emits(c3, c4, items@[3]) && T4::emits(c4, c5, items@[4]) && T5::emits(c5, c6, items@[5]) && T6::emits(c6, c7, items@[6]) && T7::emits(c7, c8, items@[7]) && T8::emits(c8, c9, items@[8]) && T9::emits(c9, c10, items@[9]) && T10::emits(c10, c11, items@[10]) && T11::emits(c11, c12, items@[11]) && T12::emits(c12, c13, items@[12]) && T13::emits(c13, c14, items@[13]) && T14::emits(c14, c15, items@[14]) && T15::emits(c15, after, items@[15]))),
{
}

/// The deserialized shape of a tuple is a tuple of as many shapes, the `i`-th the shape of the
/// `i`-th element type, built one after the other.
pub proof fn law_tuples_hold_their_element_types_in_order_in<T0: DeserializeShape, T1: DeserializeShape, T2: DeserializeShape, T3: DeserializeShape, T4: DeserializeShape, T5: DeserializeShape, T6: DeserializeShape, T7: DeserializeShape, T8: DeserializeShape, T9: DeserializeShape, T10: DeserializeShape, T11: DeserializeShape, T12: DeserializeShape, T13: DeserializeShape, T14: DeserializeShape, T15: DeserializeShape>(before: DeserializeShapeContext, after: DeserializeShapeContext, r: ShapeRef)
    ensures
        <(T0,) as DeserializeShape>::accepts(before, after, r) ==> (r matches ShapeRef::Tuple(items) && items@.len() == 1 && (T0::accepts(before, after, items@[0]))),
        <(T0, T1,) as DeserializeShape>::accepts(before, after, r) ==> (r matches ShapeRef::Tuple(items) && items@.len() == 2 && (exists|c1: DeserializeShapeContext| T0::accepts(before, c1, items@[0]) && T1::accepts(c1, after, items@[1]))),
        <(T0, T1, T2,) as DeserializeShape>::accepts(before, after, r) ==> (r matches ShapeRef::Tuple(items) && items@.len() == 3 && (exists|c1: DeserializeShapeContext, c2: DeserializeShapeContext| T0::accepts(before, c1, items@[0]) && T1::accepts(c1, c2, items@[1]) && T2::accepts(c2, after, items@[2]))),
        <(T0, T1, T2, T3,) as DeserializeShape>::accepts(before, after, r) ==> (r matches ShapeRef::Tuple(items) && items@.len() == 4 && (exists|c1: DeserializeShapeContext, c2: DeserializeShapeContext, c3: DeserializeShapeContext| T0::accepts(before, c1, items@[0]) && T1::accepts(c1, c2, items@[1]) && T2::accepts(c2, c3, items@[2]) && T3::accepts(c3, after, items@[3]))),
        <(T0, T1, T2, T3, T4,) as DeserializeShape>::accepts(before, after, r) ==> (r matches ShapeRef::Tuple(items) && items@.len() == 5 && (exists|c1: DeserializeShapeContext, c2: DeserializeShapeContext, c3: DeserializeShapeContext, c4: DeserializeShapeContext| T0::accepts(before, c1, items@[0]) && T1::accepts(c1, c2, items@[1]) && T2::accepts(c2, c3, items@[2]) && T3::accepts(c3, c4, items@[3]) && T4::accepts(c4, after, items@[4]))),
        <(T0, T1, T2, T3, T4, T5,) as DeserializeShape>::accepts(before, after, r) ==> (r matches ShapeRef::Tuple(items) && items@.len() == 6 && (exists|c1: DeserializeShapeContext, c2: DeserializeShapeContext, c3: DeserializeShapeContext, c4: DeserializeShapeContext, c5: DeserializeShapeContext| T0::accepts(before, c1, items@[0]) && T1::accepts(c1, c2, items@[1]) && T2::accepts(c2, c3, items@[2]) && T3::accepts(c3, c4, items@[3]) && T4::accepts(c4, c5, items@[4]) && T5::accepts(c5, after, items@[5]))),
        <(T0, T1, T2, T3, T4, T5, T6,) as DeserializeShape>::accepts(before, after, r) ==> (r matches ShapeRef::Tuple(items) && items@.len() == 7 && (exists|c1: DeserializeShapeContext, c2: DeserializeShapeContext, c3: DeserializeShapeContext, c4: DeserializeShapeContext, c5: DeserializeShapeContext, c6: DeserializeShapeContext| T0::accepts(before, c1, items@[0]) && T1::accepts(c1, c2, items@[1]) && T2::accepts(c2, c3, items@[2]) && T3::accepts(c3, c4, items@[3]) && T4::accepts(c4, c5, items@[4]) && T5::accepts(c5, c6, items@[5]) && T6::accepts(c6, after, items@[6]))),
        <(T0, T1, T2, T3, T4, T5, T6, T7,) as DeserializeShape>::accepts(before, after, r) ==> (r matches ShapeRef::Tuple(items) && items@.len() == 8 && (exists|c1: DeserializeShapeContext, c2: DeserializeShapeContext, c3: DeserializeShapeContext, c4: DeserializeShapeContext, c5: DeserializeShapeContext, c6: DeserializeShapeContext, c7: DeserializeShapeContext| T0::accepts(before, c1, items@[0]) && T1::accepts(c1, c2, items@[1]) && T2::accepts(c2, c3, items@[2]) && T3::accepts(c3, c4, items@[3]) && T4::accepts(c4, c5, items@[4]) && T5::accepts(c5, c6, items@[5]) && T6::accepts(c6, c7, items@[6]) && T7::accepts(c7, after, items@[7]))),
        <(T0, T1, T2, T3, T4, T5, T6, T7, T8,) as DeserializeShape>::accepts(before, after, r) ==> (r matches ShapeRef::Tuple(items) && items@.len() == 9 && (exists|c1: DeserializeShapeContext, c2: DeserializeShapeContext, c3: DeserializeShapeContext, c4: DeserializeShapeContext, c5: DeserializeShapeContext, c6: DeserializeShapeContext, c7: DeserializeShapeContext, c8: DeserializeShapeContext| T0::accepts(before, c1, items@[0]) && T1::accepts(c1, c2, items@[1]) && T2::accepts(c2, c3, items@[2]) && T3::accepts(c3, c4, items@[3]) && T4::accepts(c4, c5, items@[4]) && T5::accepts(c5, c6, items@[5]) && T6::accepts(c6, c7, items@[6]) && T7::accepts(c7, c8, items@[7]) && T8::accepts(c8, after, items@[8]))),
        <(T0, T1, T2, T3, T4, T5, T6, T7, T8, T9,) as DeserializeShape>::accepts(before, after, r) ==> (r matches ShapeRef::Tuple(items) && items@.len() == 10 && (exists|c1: DeserializeShapeContext, c2: DeserializeShapeContext, c3: DeserializeShapeContext, c4: DeserializeShapeContext, c5: DeserializeShapeContext, c6: DeserializeShapeContext, c7: DeserializeShapeContext, c8: DeserializeShapeContext, c9: DeserializeShapeContext| T0::accepts(before, c1, items@[0]) && T1::accepts(c1, c2, items@[1]) && T2::accepts(c2, c3, items@[2]) && T3::accepts(c3, c4, items@[3]) && T4::accepts(c4, c5, items@[4]) && T5::accepts(c5, c6, items@[5]) && T6::accepts(c6, c7, items@[6]) && T7::accepts(c7, c8, items@[7]) && T8::accepts(c8, c9, items@[8]) && T9::accepts(c9, after, items@[9]))),
        <(T0, T1, T2, T3, T4, T5, T6, T7, T8, T9, T10,) as DeserializeShape>::accepts(before, after, r) ==> (r matches ShapeRef::Tuple(items) && items@.len() == 11 && (exists|c1: DeserializeShapeContext, c2: DeserializeShapeContext, c3: DeserializeShapeContext, c4: DeserializeShapeContext, c5: DeserializeShapeContext, c6: DeserializeShapeContext, c7: DeserializeShapeContext, c8: DeserializeShapeContext, c9: DeserializeShapeContext, c10: DeserializeShapeContext| T0::accepts(before, c1, items@[0]) && T1::accepts(c1, c2, items@[1]) && T2::accepts(c2, c3, items@[2]) && T3::accepts(c3, c4, items@[3]) && T4::accepts(c4, c5, items@[4]) && T5::accepts(c5, c6, items@[5]) && T6::accepts(c6, c7, items@[6]) && T7::accepts(c7, c8, items@[7]) && T8::accepts(c8, c9, items@[8]) && T9::accepts(c9, c10, items@[9]) && T10::accepts(c10, after, items@[10]))),
        <(T0, T1, T2, T3, T4, T5, T6, T7, T8, T9, T10, T11,) as DeserializeShape>::accepts(before, after, r) ==> (r matches ShapeRef::Tuple(items) && items@.len() == 12 && (exists|c1: DeserializeShapeContext, c2: DeserializeShapeContext, c3: DeserializeShapeContext, c4: DeserializeShapeContext, c5: DeserializeShapeContext, c6: DeserializeShapeContext, c7: DeserializeShapeContext, c8: DeserializeShapeContext, c9: DeserializeShapeContext, c10: DeserializeShapeContext, c11: DeserializeShapeContext| T0::accepts(before, c1, items@[0]) && T1::accepts(c1, c2, items@[1]) && T2::accepts(c2, c3, items@[2]) && T3::accepts(c3, c4, items@[3]) && T4::accepts(c4, c5, items@[4]) && T5::accepts(c5, c6, items@[5]) && T6::accepts(c6, c7, items@[6]) && T7::accepts(c7, c8, items@[7]) && T8::accepts(c8, c9, items@[8]) && T9::accepts(c9, c10, items@[9]) && T10::accepts(c10, c11, items@[10]) && T11::accepts(c11, after, items@[11]))),
        <(T0, T1, T2, T3, T4, T5, T6, T7, T8, T9, T10, T11, T12,) as DeserializeShape>::accepts(before, after, r) ==> (r matches ShapeRef::Tuple(items) && items@.len() == 13 && (exists|c1: DeserializeShapeContext, c2: DeserializeShapeContext, c3: DeserializeShapeContext, c4: DeserializeShapeContext, c5: DeserializeShapeContext, c6: DeserializeShapeContext, c7: DeserializeShapeContext, c8: DeserializeShapeContext, c9: DeserializeShapeContext, c10: DeserializeShapeContext, c11: DeserializeShapeContext, c12: DeserializeShapeContext| T0::accepts(before, c1, items@[0]) && T1::accepts(c1, c2, items@[1]) && T2::accepts(c2, c3, items@[2]) && T3::accepts(c3, c4, items@[3]) && T4::accepts(c4, c5, items@[4]) && T5::accepts(c5, c6, items@[5]) && T6::accepts(c6, c7, items@[6]) && T7::accepts(c7, c8, items@[7]) && T8::accepts(c8, c9, items@[8]) && T9::accepts(c9, c10, items@[9]) && T10::accepts(c10, c11, items@[10]) && T11::accepts(c11, c12, items@[11]) && T12::accepts(c12, after, items@[12]))),
        <(T0, T1, T2, T3, T4, T5, T6, T7, T8, T9, T10, T11, T12, T13,) as DeserializeShape>::accepts(before, after, r) ==> (r matches ShapeRef::Tuple(items) && items@.len() == 14 && (exists|c1: DeserializeShapeContext, c2: DeserializeShapeContext, c3: DeserializeShapeContext, c4: DeserializeShapeContext, c5: DeserializeShapeContext, c6: DeserializeShapeContext, c7: DeserializeShapeContext, c8: DeserializeShapeContext, c9: DeserializeShapeContext, c10: DeserializeShapeContext, c11: DeserializeShapeContext, c12: DeserializeShapeContext, c13: DeserializeShapeContext| T0::accepts(before, c1, items@[0]) && T1::accepts(c1, c2, items@[1]) && T2::accepts(c2, c3, items@[2]) && T3::accepts(c3, c4, items@[3]) && T4::accepts(c4, c5, items@[4]) && T5::accepts(c5, c6, items@[5]) && T6::accepts(c6, c7, items@[6]) && T7::accepts(c7, c8, items@[7]) && T8::accepts(c8, c9, items@[8]) && T9::accepts(c9, c10, items@[9]) && T10::accepts(c10, c11, items@[10]) && T11::accepts(c11, c12, items@[11]) && T12::accepts(c12, c13, items@[12]) && T13::accepts(c13, after, items@[13]))),
        <(T0, T1, T2, T3, T4, T5, T6, T7, T8, T9, T10, T11, T12, T13, T14,) as DeserializeShape>::accepts(before, after, r) ==> (r matches ShapeRef::Tuple(items) && items@.len() == 15 && (exists|c1: DeserializeShapeContext, c2: DeserializeShapeContext, c3: DeserializeShapeContext, c4: DeserializeShapeContext, c5: DeserializeShapeContext, c6: DeserializeShapeContext, c7: DeserializeShapeContext, c8: DeserializeShapeContext, c9: DeserializeShapeContext, c10: DeserializeShapeContext, c11: DeserializeShapeContext, c12: DeserializeShapeContext, c13: DeserializeShapeContext, c14: DeserializeShapeContext| T0::accepts(before, c1, items@[0]) && T1::accepts(c1, c2, items@[1]) && T2::accepts(c2, c3, items@[2]) && T3::accepts(c3, c4, items@[3]) && T4::accepts(c4, c5, items@[4]) && T5::accepts(c5, c6, items@[5]) && T6::accepts(c6, c7, items@[6]) && T7::accepts(c7, c8, items@[7]) && T8::accepts(c8, c9, items@[8]) && T9::accepts(c9, c10, items@[9]) && T10::accepts(c10, c11, items@[10]) && T11::accepts(c11, c12, items@[11]) && T12::accepts(c12, c13, items@[12]) && T13::accepts(c13, c14, items@[13]) && T14::accepts(c14, after, items@[14]))),
        <(T0, T1, T2, T3, T4, T5, T6, T7, T8, T9, T10, T11, T12, T13, T14, T15,) as DeserializeShape>::accepts(before, after, r) ==> (r matches ShapeRef::Tuple(items) && items@.len() == 16 && (exists|c1: DeserializeShapeContext, c2: DeserializeShapeContext, c3: DeserializeShapeContext, c4: DeserializeShapeContext, c5: DeserializeShapeContext, c6: DeserializeShapeContext, c7: DeserializeShapeContext, c8: DeserializeShapeContext, c9: DeserializeShapeContext, c10: DeserializeShapeContext, c11: DeserializeShapeContext, c12: DeserializeShapeContext, c13: DeserializeShapeContext, c14: DeserializeShapeContext, c15: DeserializeShapeContext| T0::accepts(before, c1, items@[0]) && T1::accepts(c1, c2, items@[1]) && T2::accepts(c2, c3, items@[2]) && T3::accepts(c3, c4, items@[3]) && T4::accepts(c4, c5, items@[4]) && T5::accepts(c5, c6, items@[5]) && T6::accepts(c6, c7, items@[6]) && T7::accepts(c7, c8, items@[7]) && T8::accepts(c8, c9, items@[8]) && T9::accepts(c9, c10, items@[9]) && T10::accepts(c10, c11, items@[10]) && T11::accepts(c11, c12, items@[11]) && T12::accepts(c12, c13, items@[12]) && T13::accepts(c13, c14, items@[13]) && T14::accepts(c14, c15, items@[14]) && T15::accepts(c15, after, items@[15]))),
{
}


/// Building the serialized shape of `Result<T, E>` in a context that has registered nothing defines
/// a new externally tagged enum at the next index and refers to it: its first variant is `Ok`,
/// carrying a value of `T`'s shape, and its second is `Err`, carrying a value of `E`'s shape,
/// `T`'s built before `E`'s.
pub proof fn law_result_is_ok_of_t_then_err_of_e_out<T: SerializeShape, E: SerializeShape>(before: SerializeShapeContext, after: SerializeShapeContext, r: ShapeRef)
    requires
        <Result<T, E> as SerializeShape>::emits(before, after, r),
        before.identities_view().len() == 0,
    ensures
        ({
            let n = before.definitions_view().len();
            &&& r@ == Shape::Definition(n as usize)
            &&& n < after.definitions_view().len()
            &&& after.definitions_view()[n as int].kind matches SerializeDefinitionKind::Enum(e)
            &&& e.repr == Tagging::External
            &&& e.variants@.len() == 2
            &&& e.variants@[0].name == "Ok"
            &&& e.variants@[1].name == "Err"
            &&& exists|during: SerializeShapeContext, middle: SerializeShapeContext, built: SerializeShapeContext, ok: ShapeRef, err: ShapeRef|
                {
                    &&& T::emits(during, middle, ok)
                    &&& E::emits(middle, built, err)
                    &&& e.variants@[0].content matches SerializeVariantContent::Fields(fields) && fields@.len() == 1
                        && fields@[0].wire_shape == FieldWireShape::Value(ok)
                    &&& e.variants@[1].content matches SerializeVariantContent::Fields(fields) && fields@.len() == 1
                        && fields@[0].wire_shape == FieldWireShape::Value(err)
                }
        }),
{
    let identity = choose|identity: core::any::TypeId| SerializeShapeContext::defines_with(
        before, after, identity, TypeName { rust_name: "Result", name: "Result" }, None, crate::impls::result::result_run_out::<T, E>(), r);
    let key = (identity, "Result"@);
    assert(!before.identities_view().contains(key));
    let n = before.definitions_view().len();
    let (during, built, kind) = choose|during: SerializeShapeContext, built: SerializeShapeContext, kind: SerializeDefinitionKind| {
        &&& SerializeShapeContext::reserves(before, during, key)
        &&& SerializeShapeContext::extends(during, built)
        &&& #[trigger] crate::impls::result::result_run_out::<T, E>()(during, built, kind)
        &&& SerializeShapeContext::stores(built, after, n as int, TypeName { rust_name: "Result", name: "Result" }, None, kind)
    };
    let (middle, ok, err) = choose|middle: SerializeShapeContext, ok: ShapeRef, err: ShapeRef|
        #[trigger] T::emits(during, middle, ok) && #[trigger] E::emits(middle, built, err) && crate::impls::result::is_result_body_out(kind, ok, err);
    assert(after.definitions_view()[n as int].kind == kind);
}

/// Building the deserialized shape of `Result<T, E>` in a context that has registered nothing defines
/// a new externally tagged enum at the next index and refers to it: its first variant is `Ok`,
/// carrying a value of `T`'s shape, and its second is `Err`, carrying a value of `E`'s shape,
/// `T`'s built before `E`'s.
pub proof fn law_result_is_ok_of_t_then_err_of_e_in<T: DeserializeShape, E: DeserializeShape>(before: DeserializeShapeContext, after: DeserializeShapeContext, r: ShapeRef)
    requires
        <Result<T, E> as DeserializeShape>::accepts(before, after, r),
        before.identities_view().len() == 0,
    ensures
        ({
            let n = before.definitions_view().len();
            &&& r@ == Shape::Definition(n as usize)
            &&& n < after.definitions_view().len()
            &&& after.definitions_view()[n as int].kind matches DeserializeDefinitionKind::Enum(e)
            &&& e.repr == Tagging::External
            &&& e.variants@.len() == 2
            &&& e.variants@[0].name == "Ok"
            &&& e.variants@[1].name == "Err"
            &&& exists|during: DeserializeShapeContext, middle: DeserializeShapeContext, built: DeserializeShapeContext, ok: ShapeRef, err: ShapeRef|
                {
                    &&& T::accepts(during, middle, ok)
                    &&& E::accepts(middle, built, err)
                    &&& e.variants@[0].content matches DeserializeVariantContent::Fields(fields) && fields@.len() == 1
                        && fields@[0].wire_shape == FieldWireShape::Value(ok)
                    &&& e.variants@[1].content matches DeserializeVariantContent::Fields(fields) && fields@.len() == 1
                        && fields@[0].wire_shape == FieldWireShape::Value(err)
                }
        }),
{
    let identity = choose|identity: core::any::TypeId| DeserializeShapeContext::defines_with(
        before, after, identity, TypeName { rust_name: "Result", name: "Result" }, None, crate::impls::result::result_run_in::<T, E>(), r);
    let key = (identity, "Result"@);
    assert(!before.identities_view().contains(key));
    let n = before.definitions_view().len();
    let (during, built, kind) = choose|during: DeserializeShapeContext, built: DeserializeShapeContext, kind: DeserializeDefinitionKind| {
        &&& DeserializeShapeContext::reserves(before, during, key)
        &&& DeserializeShapeContext::extends(during, built)
        &&& #[trigger] crate::impls::result::result_run_in::<T, E>()(during, built, kind)
        &&& DeserializeShapeContext::stores(built, after, n as int, TypeName { rust_name: "Result", name: "Result" }, None, kind)
    };
    let (middle, ok, err) = choose|middle: DeserializeShapeContext, ok: ShapeRef, err: ShapeRef|
        #[trigger] T::accepts(during, middle, ok) && #[trigger] E::accepts(middle, built, err) && crate::impls::result::is_result_body_in(kind, ok, err);
    assert(after.definitions_view()[n as int].kind == kind);
}

/// Building the serialized shape of `Bound<T>` in a context that has registered nothing defines a
/// new externally tagged enum at the next index and refers to it: `Unbounded` with no value,
/// then `Included` and `Excluded`, each carrying a value of `T`'s shape.
pub proof fn law_bound_is_unbounded_included_excluded_out<T: SerializeShape>(before: SerializeShapeContext, after: SerializeShapeContext, r: ShapeRef)
    requires
        <core::ops::Bound<T> as SerializeShape>::emits(before, after, r),
        before.identities_view().len() == 0,
    ensures
        ({
            let n = before.definitions_view().len();
            &&& r@ == Shape::Definition(n as usize)
            &&& n < after.definitions_view().len()
            &&& after.definitions_view()[n as int].kind matches SerializeDefinitionKind::Enum(e)
            &&& e.repr == Tagging::External
            &&& e.variants@.len() == 3
            &&& e.variants@[0].name == "Unbounded"
            &&& e.variants@[1].name == "Included"
            &&& e.variants@[2].name == "Excluded"
            &&& e.variants@[0].content matches SerializeVariantContent::Fields(fields) && fields@.len() == 0
            &&& exists|during: SerializeShapeContext, middle: SerializeShapeContext, built: SerializeShapeContext, included: ShapeRef, excluded: ShapeRef|
                {
                    &&& T::emits(during, middle, included)
                    &&& T::emits(middle, built, excluded)
                    &&& e.variants@[1].content matches SerializeVariantContent::Fields(fields) && fields@.len() == 1
                        && fields@[0].wire_shape == FieldWireShape::Value(included)
                    &&& e.variants@[2].content matches SerializeVariantContent::Fields(fields) && fields@.len() == 1
                        && fields@[0].wire_shape == FieldWireShape::Value(excluded)
                }
        }),
{
    let names = TypeName { rust_name: "Bound", name: "Bound" };
    let identity = choose|identity: core::any::TypeId| SerializeShapeContext::defines_with(
        before, after, identity, names, None, crate::impls::bound::bound_run_out::<T>(), r);
    let key = (identity, "Bound"@);
    assert(!before.identities_view().contains(key));
    let n = before.definitions_view().len();
    let (during, built, kind) = choose|during: SerializeShapeContext, built: SerializeShapeContext, kind: SerializeDefinitionKind| {
        &&& SerializeShapeContext::reserves(before, during, key)
        &&& SerializeShapeContext::extends(during, built)
        &&& #[trigger] crate::impls::bound::bound_run_out::<T>()(during, built, kind)
        &&& SerializeShapeContext::stores(built, after, n as int, names, None, kind)
    };
    let (middle, a, b) = choose|middle: SerializeShapeContext, a: ShapeRef, b: ShapeRef|
        #[trigger] T::emits(during, middle, a) && #[trigger] T::emits(middle, built, b) && crate::impls::bound::is_bound_body_out(kind, a, b);
    assert(after.definitions_view()[n as int].kind == kind);
}

/// Building the deserialized shape of `Bound<T>` in a context that has registered nothing defines a
/// new externally tagged enum at the next index and refers to it: `Unbounded` with no value,
/// then `Included` and `Excluded`, each carrying a value of `T`'s shape.
pub proof fn law_bound_is_unbounded_included_excluded_in<T: DeserializeShape>(before: DeserializeShapeContext, after: DeserializeShapeContext, r: ShapeRef)
    requires
        <core::ops::Bound<T> as DeserializeShape>::accepts(before, after, r),
        before.identities_view().len() == 0,
    ensures
        ({
            let n = before.definitions_view().len();
            &&& r@ == Shape::Definition(n as usize)
            &&& n < after.definitions_view().len()
            &&& after.definitions_view()[n as int].kind matches DeserializeDefinitionKind::Enum(e)
            &&& e.repr == Tagging::External
            &&& e.variants@.len() == 3
            &&& e.variants@[0].name == "Unbounded"
            &&& e.variants@[1].name == "Included"
            &&& e.variants@[2].name == "Excluded"
            &&& e.variants@[0].content matches DeserializeVariantContent::Fields(fields) && fields@.len() == 0
            &&& exists|during: DeserializeShapeContext, middle: DeserializeShapeContext, built: DeserializeShapeContext, included: ShapeRef, excluded: ShapeRef|
                {
                    &&& T::accepts(during, middle, included)
                    &&& T::accepts(middle, built, excluded)
                    &&& e.variants@[1].content matches DeserializeVariantContent::Fields(fields) && fields@.len() == 1
                        && fields@[0].wire_shape == FieldWireShape::Value(included)
                    &&& e.variants@[2].content matches DeserializeVariantContent::Fields(fields) && fields@.len() == 1
                        && fields@[0].wire_shape == FieldWireShape::Value(excluded)
                }
        }),
{
    let names = TypeName { rust_name: "Bound", name: "Bound" };
    let identity = choose|identity: core::any::TypeId| DeserializeShapeContext::defines_with(
        before, after, identity, names, None, crate::impls::bound::bound_run_in::<T>(), r);
    let key = (identity, "Bound"@);
    assert(!before.identities_view().contains(key));
    let n = before.definitions_view().len();
    let (during, built, kind) = choose|during: DeserializeShapeContext, built: DeserializeShapeContext, kind: DeserializeDefinitionKind| {
        &&& DeserializeShapeContext::reserves(before, during, key)
        &&& DeserializeShapeContext::extends(during, built)
        &&& #[trigger] crate::impls::bound::bound_run_in::<T>()(during, built, kind)
        &&& DeserializeShapeContext::stores(built, after, n as int, names, None, kind)
    };
    let (middle, a, b) = choose|middle: DeserializeShapeContext, a: ShapeRef, b: ShapeRef|
        #[trigger] T::accepts(during, middle, a) && #[trigger] T::accepts(middle, built, b) && crate::impls::bound::is_bound_body_in(kind, a, b);
    assert(after.definitions_view()[n as int].kind == kind);
}

/// Building the serialized shape of `Range<T>` in a context that has registered nothing defines a
/// new struct at the next index and refers to it: its fields are `start` and then `end`, each
/// holding a value of `T`'s shape, built in that order.
pub proof fn law_range_is_start_then_end_out<T: SerializeShape>(before: SerializeShapeContext, after: SerializeShapeContext, r: ShapeRef)
    requires
        <core::ops::Range<T> as SerializeShape>::emits(before, after, r),
        before.identities_view().len() == 0,
    ensures
        ({
            let n = before.definitions_view().len();
            &&& r@ == Shape::Definition(n as usize)
            &&& n < after.definitions_view().len()
            &&& after.definitions_view()[n as int].kind matches SerializeDefinitionKind::Struct(body)
            &&& body.fields@.len() == 2
            &&& body.fields@[0].name == "start"
            &&& body.fields@[1].name == "end"
            &&& exists|during: SerializeShapeContext, middle: SerializeShapeContext, built: SerializeShapeContext, start: ShapeRef, end: ShapeRef|
                {
                    &&& T::emits(during, middle, start)
                    &&& T::emits(middle, built, end)
                    &&& body.fields@[0].wire_shape == FieldWireShape::Value(start)
                    &&& body.fields@[1].wire_shape == FieldWireShape::Value(end)
                }
        }),
{
    let names = TypeName { rust_name: "Range", name: "Range" };
    let identity = choose|identity: core::any::TypeId| SerializeShapeContext::defines_with(
        before, after, identity, names, None, crate::impls::range::bounds_run_out::<T>("start", "end"), r);
    let key = (identity, "Range"@);
    assert(!before.identities_view().contains(key));
    let n = before.definitions_view().len();
    let (during, built, kind) = choose|during: SerializeShapeContext, built: SerializeShapeContext, kind: SerializeDefinitionKind| {
        &&& SerializeShapeContext::reserves(before, during, key)
        &&& SerializeShapeContext::extends(during, built)
        &&& #[trigger] crate::impls::range::bounds_run_out::<T>("start", "end")(during, built, kind)
        &&& SerializeShapeContext::stores(built, after, n as int, names, None, kind)
    };
    let (middle, a, b) = choose|middle: SerializeShapeContext, a: ShapeRef, b: ShapeRef|
        #[trigger] T::emits(during, middle, a) && #[trigger] T::emits(middle, built, b) && crate::impls::variant::is_struct_body_out(kind, seq!["start", "end"], seq![a, b]);
    assert(after.definitions_view()[n as int].kind == kind);
    if let SerializeDefinitionKind::Struct(body) = kind {
        assert(seq!["start", "end"][0] == "start");
        assert(seq!["start", "end"][1] == "end");
        assert(seq![a, b][0] == a);
        assert(seq![a, b][1] == b);
        assert(crate::impls::variant::is_named_field_out(body.fields@[0], "start", a));
        assert(crate::impls::variant::is_named_field_out(body.fields@[1], "end", b));
    }
}

/// Building the deserialized shape of `Range<T>` in a context that has registered nothing defines a
/// new struct at the next index and refers to it: its fields are `start` and then `end`, each
/// holding a value of `T`'s shape, built in that order.
pub proof fn law_range_is_start_then_end_in<T: DeserializeShape>(before: DeserializeShapeContext, after: DeserializeShapeContext, r: ShapeRef)
    requires
        <core::ops::Range<T> as DeserializeShape>::accepts(before, after, r),
        before.identities_view().len() == 0,
    ensures
        ({
            let n = before.definitions_view().len();
            &&& r@ == Shape::Definition(n as usize)
            &&& n < after.definitions_view().len()
            &&& after.definitions_view()[n as int].kind matches DeserializeDefinitionKind::Struct(body)
            &&& body.fields@.len() == 2
            &&& body.fields@[0].name == "start"
            &&& body.fields@[1].name == "end"
            &&& exists|during: DeserializeShapeContext, middle: DeserializeShapeContext, built: DeserializeShapeContext, start: ShapeRef, end: ShapeRef|
                {
                    &&& T::accepts(during, middle, start)
                    &&& T::accepts(middle, built, end)
                    &&& body.fields@[0].wire_shape == FieldWireShape::Value(start)
                    &&& body.fields@[1].wire_shape == FieldWireShape::Value(end)
                }
        }),
{
    let names = TypeName { rust_name: "Range", name: "Range" };
    let identity = choose|identity: core::any::TypeId| DeserializeShapeContext::defines_with(
        before, after, identity, names, None, crate::impls::range::bounds_run_in::<T>("start", "end"), r);
    let key = (identity, "Range"@);
    assert(!before.identities_view().contains(key));
    let n = before.definitions_view().len();
    let (during, built, kind) = choose|during: DeserializeShapeContext, built: DeserializeShapeContext, kind: DeserializeDefinitionKind| {
        &&& DeserializeShapeContext::reserves(before, during, key)
        &&& DeserializeShapeContext::extends(during, built)
        &&& #[trigger] crate::impls::range::bounds_run_in::<T>("start", "end")(during, built, kind)
        &&& DeserializeShapeContext::stores(built, after, n as int, names, None, kind)
    };
    let (middle, a, b) = choose|middle: DeserializeShapeContext, a: ShapeRef, b: ShapeRef|
        #[trigger] T::accepts(during, middle, a) && #[trigger] T::accepts(middle, built, b) && crate::impls::variant::is_struct_body_in(kind, seq!["start", "end"], seq![a, b]);
    assert(after.definitions_view()[n as int].kind == kind);
    if let DeserializeDefinitionKind::Struct(body) = kind {
        assert(seq!["start", "end"][0] == "start");
        assert(seq!["start", "end"][1] == "end");
        assert(seq![a, b][0] == a);
        assert(seq![a, b][1] == b);
        assert(crate::impls::variant::is_named_field_in(body.fields@[0], "start", a));
        assert(crate::impls::variant::is_named_field_in(body.fields@[1], "end", b));
    }
}

/// Building the serialized shape of `RangeInclusive<T>` in a context that has registered nothing defines a
/// new struct at the next index and refers to it: its fields are `start` and then `end`, each
/// holding a value of `T`'s shape, built in that order.
pub proof fn law_range_inclusive_is_start_then_end_out<T: SerializeShape>(before: SerializeShapeContext, after: SerializeShapeContext, r: ShapeRef)
    requires
        <core::ops::RangeInclusive<T> as SerializeShape>::emits(before, after, r),
        before.identities_view().len() == 0,
    ensures
        ({
            let n = before.definitions_view().len();
            &&& r@ == Shape::Definition(n as usize)
            &&& n < after.definitions_view().len()
            &&& after.definitions_view()[n as int].kind matches SerializeDefinitionKind::Struct(body)
            &&& body.fields@.len() == 2
            &&& body.fields@[0].name == "start"
            &&& body.fields@[1].name == "end"
            &&& exists|during: SerializeShapeContext, middle: SerializeShapeContext, built: SerializeShapeContext, start: ShapeRef, end: ShapeRef|
                {
                    &&& T::emits(during, middle, start)
                    &&& T::emits(middle, built, end)
                    &&& body.fields@[0].wire_shape == FieldWireShape::Value(start)
                    &&& body.fields@[1].wire_shape == FieldWireShape::Value(end)
                }
        }),
{
    let names = TypeName { rust_name: "RangeInclusive", name: "RangeInclusive" };
    let identity = choose|identity: core::any::TypeId| SerializeShapeContext::defines_with(
        before, after, identity, names, None, crate::impls::range::bounds_run_out::<T>("start", "end"), r);
    let key = (identity, "RangeInclusive"@);
    assert(!before.identities_view().contains(key));
    let n = before.definitions_view().len();
    let (during, built, kind) = choose|during: SerializeShapeContext, built: SerializeShapeContext, kind: SerializeDefinitionKind| {
        &&& SerializeShapeContext::reserves(before, during, key)
        &&& SerializeShapeContext::extends(during, built)
        &&& #[trigger] crate::impls::range::bounds_run_out::<T>("start", "end")(during, built, kind)
        &&& SerializeShapeContext::stores(built, after, n as int, names, None, kind)
    };
    let (middle, a, b) = choose|middle: SerializeShapeContext, a: ShapeRef, b: ShapeRef|
        #[trigger] T::emits(during, middle, a) && #[trigger] T::emits(middle, built, b) && crate::impls::variant::is_struct_body_out(kind, seq!["start", "end"], seq![a, b]);
    assert(after.definitions_view()[n as int].kind == kind);
    if let SerializeDefinitionKind::Struct(body) = kind {
        assert(seq!["start", "end"][0] == "start");
        assert(seq!["start", "end"][1] == "end");
        assert(seq![a, b][0] == a);
        assert(seq![a, b][1] == b);
        assert(crate::impls::variant::is_named_field_out(body.fields@[0], "start", a));
        assert(crate::impls::variant::is_named_field_out(body.fields@[1], "end", b));
    }
}

/// Building the deserialized shape of `RangeInclusive<T>` in a context that has registered nothing defines a
/// new struct at the next index and refers to it: its fields are `start` and then `end`, each
/// holding a value of `T`'s shape, built in that order.
pub proof fn law_range_inclusive_is_start_then_end_in<T: DeserializeShape>(before: DeserializeShapeContext, after: DeserializeShapeContext, r: ShapeRef)
    requires
        <core::ops::RangeInclusive<T> as DeserializeShape>::accepts(before, after, r),
        before.identities_view().len() == 0,
    ensures
        ({
            let n = before.definitions_view().len();
            &&& r@ == Shape::Definition(n as usize)
            &&& n < after.definitions_view().len()
            &&& after.definitions_view()[n as int].kind matches DeserializeDefinitionKind::Struct(body)
            &&& body.fields@.len() == 2
            &&& body.fields@[0].name == "start"
            &&& body.fields@[1].name == "end"
            &&& exists|during: DeserializeShapeContext, middle: DeserializeShapeContext, built: DeserializeShapeContext, start: ShapeRef, end: ShapeRef|
                {
                    &&& T::accepts(during, middle, start)
                    &&& T::accepts(middle, built, end)
                    &&& body.fields@[0].wire_shape == FieldWireShape::Value(start)
                    &&& body.fields@[1].wire_shape == FieldWireShape::Value(end)
                }
        }),
{
    let names = TypeName { rust_name: "RangeInclusive", name: "RangeInclusive" };
    let identity = choose|identity: core::any::TypeId| DeserializeShapeContext::defines_with(
        before, after, identity, names, None, crate::impls::range::bounds_run_in::<T>("start", "end"), r);
    let key = (identity, "RangeInclusive"@);
    assert(!before.identities_view().contains(key));
    let n = before.definitions_view().len();
    let (during, built, kind) = choose|during: DeserializeShapeContext, built: DeserializeShapeContext, kind: DeserializeDefinitionKind| {
        &&& DeserializeShapeContext::reserves(before, during, key)
        &&& DeserializeShapeContext::extends(during, built)
        &&& #[trigger] crate::impls::range::bounds_run_in::<T>("start", "end")(during, built, kind)
        &&& DeserializeShapeContext::stores(built, after, n as int, names, None, kind)
    };
    let (middle, a, b) = choose|middle: DeserializeShapeContext, a: ShapeRef, b: ShapeRef|
        #[trigger] T::accepts(during, middle, a) && #[trigger] T::accepts(middle, built, b) && crate::impls::variant::is_struct_body_in(kind, seq!["start", "end"], seq![a, b]);
    assert(after.definitions_view()[n as int].kind == kind);
    if let DeserializeDefinitionKind::Struct(body) = kind {
        assert(seq!["start", "end"][0] == "start");
        assert(seq!["start", "end"][1] == "end");
        assert(seq![a, b][0] == a);
        assert(seq![a, b][1] == b);
        assert(crate::impls::variant::is_named_field_in(body.fields@[0], "start", a));
        assert(crate::impls::variant::is_named_field_in(body.fields@[1], "end", b));
    }
}

/// Building the serialized shape of `RangeFrom<T>` in a context that has registered nothing defines a
/// new struct at the next index and refers to it: its one field is `start`, holding a value of
/// `T`'s shape.
pub proof fn law_range_from_is_its_start_out<T: SerializeShape>(before: SerializeShapeContext, after: SerializeShapeContext, r: ShapeRef)
    requires
        <core::ops::RangeFrom<T> as SerializeShape>::emits(before, after, r),
        before.identities_view().len() == 0,
    ensures
        ({
            let n = before.definitions_view().len();
            &&& r@ == Shape::Definition(n as usize)
            &&& n < after.definitions_view().len()
            &&& after.definitions_view()[n as int].kind matches SerializeDefinitionKind::Struct(body)
            &&& body.fields@.len() == 1
            &&& body.fields@[0].name == "start"
            &&& exists|during: SerializeShapeContext, built: SerializeShapeContext, bound: ShapeRef|
                T::emits(during, built, bound) && body.fields@[0].wire_shape == FieldWireShape::Value(bound)
        }),
{
    let names = TypeName { rust_name: "RangeFrom", name: "RangeFrom" };
    let identity = choose|identity: core::any::TypeId| SerializeShapeContext::defines_with(
        before, after, identity, names, None, crate::impls::range::bound_field_run_out::<T>("start"), r);
    let key = (identity, "RangeFrom"@);
    assert(!before.identities_view().contains(key));
    let n = before.definitions_view().len();
    let (during, built, kind) = choose|during: SerializeShapeContext, built: SerializeShapeContext, kind: SerializeDefinitionKind| {
        &&& SerializeShapeContext::reserves(before, during, key)
        &&& SerializeShapeContext::extends(during, built)
        &&& #[trigger] crate::impls::range::bound_field_run_out::<T>("start")(during, built, kind)
        &&& SerializeShapeContext::stores(built, after, n as int, names, None, kind)
    };
    let a = choose|a: ShapeRef| #[trigger] T::emits(during, built, a) && crate::impls::variant::is_struct_body_out(kind, seq!["start"], seq![a]);
    assert(after.definitions_view()[n as int].kind == kind);
    if let SerializeDefinitionKind::Struct(body) = kind {
        assert(seq!["start"][0] == "start");
        assert(seq![a][0] == a);
        assert(crate::impls::variant::is_named_field_out(body.fields@[0], "start", a));
    }
}

/// Building the deserialized shape of `RangeFrom<T>` in a context that has registered nothing defines a
/// new struct at the next index and refers to it: its one field is `start`, holding a value of
/// `T`'s shape.
pub proof fn law_range_from_is_its_start_in<T: DeserializeShape>(before: DeserializeShapeContext, after: DeserializeShapeContext, r: ShapeRef)
    requires
        <core::ops::RangeFrom<T> as DeserializeShape>::accepts(before, after, r),
        before.identities_view().len() == 0,
    ensures
        ({
            let n = before.definitions_view().len();
            &&& r@ == Shape::Definition(n as usize)
            &&& n < after.definitions_view().len()
            &&& after.definitions_view()[n as int].kind matches DeserializeDefinitionKind::Struct(body)
            &&& body.fields@.len() == 1
            &&& body.fields@[0].name == "start"
            &&& exists|during: DeserializeShapeContext, built: DeserializeShapeContext, bound: ShapeRef|
                T::accepts(during, built, bound) && body.fields@[0].wire_shape == FieldWireShape::Value(bound)
        }),
{
    let names = TypeName { rust_name: "RangeFrom", name: "RangeFrom" };
    let identity = choose|identity: core::any::TypeId| DeserializeShapeContext::defines_with(
        before, after, identity, names, None, crate::impls::range::bound_field_run_in::<T>("start"), r);
    let key = (identity, "RangeFrom"@);
    assert(!before.identities_view().contains(key));
    let n = before.definitions_view().len();
    let (during, built, kind) = choose|during: DeserializeShapeContext, built: DeserializeShapeContext, kind: DeserializeDefinitionKind| {
        &&& DeserializeShapeContext::reserves(before, during, key)
        &&& DeserializeShapeContext::extends(during, built)
        &&& #[trigger] crate::impls::range::bound_field_run_in::<T>("start")(during, built, kind)
        &&& DeserializeShapeContext::stores(built, after, n as int, names, None, kind)
    };
    let a = choose|a: ShapeRef| #[trigger] T::accepts(during, built, a) && crate::impls::variant::is_struct_body_in(kind, seq!["start"], seq![a]);
    assert(after.definitions_view()[n as int].kind == kind);
    if let DeserializeDefinitionKind::Struct(body) = kind {
        assert(seq!["start"][0] == "start");
        assert(seq![a][0] == a);
        assert(crate::impls::variant::is_named_field_in(body.fields@[0], "start", a));
    }
}

/// Building the serialized shape of `RangeTo<T>` in a context that has registered nothing defines a
/// new struct at the next index and refers to it: its one field is `end`, holding a value of
/// `T`'s shape.
pub proof fn law_range_to_is_its_end_out<T: SerializeShape>(before: SerializeShapeContext, after: SerializeShapeContext, r: ShapeRef)
    requires
        <core::ops::RangeTo<T> as SerializeShape>::emits(before, after, r),
        before.identities_view().len() == 0,
    ensures
        ({
            let n = before.definitions_view().len();
            &&& r@ == Shape::Definition(n as usize)
            &&& n < after.definitions_view().len()
            &&& after.definitions_view()[n as int].kind matches SerializeDefinitionKind::Struct(body)
            &&& body.fields@.len() == 1
            &&& body.fields@[0].name == "end"
            &&& exists|during: SerializeShapeContext, built: SerializeShapeContext, bound: ShapeRef|
                T::emits(during, built, bound) && body.fields@[0].wire_shape == FieldWireShape::Value(bound)
        }),
{
    let names = TypeName { rust_name: "RangeTo", name: "RangeTo" };
    let identity = choose|identity: core::any::TypeId| SerializeShapeContext::defines_with(
        before, after, identity, names, None, crate::impls::range::bound_field_run_out::<T>("end"), r);
    let key = (identity, "RangeTo"@);
    assert(!before.identities_view().contains(key));
    let n = before.definitions_view().len();
    let (during, built, kind) = choose|during: SerializeShapeContext, built: SerializeShapeContext, kind: SerializeDefinitionKind| {
        &&& SerializeShapeContext::reserves(before, during, key)
        &&& SerializeShapeContext::extends(during, built)
        &&& #[trigger] crate::impls::range::bound_field_run_out::<T>("end")(during, built, kind)
        &&& SerializeShapeContext::stores(built, after, n as int, names, None, kind)
    };
    let a = choose|a: ShapeRef| #[trigger] T::emits(during, built, a) && crate::impls::variant::is_struct_body_out(kind, seq!["end"], seq![a]);
    assert(after.definitions_view()[n as int].kind == kind);
    if let SerializeDefinitionKind::Struct(body) = kind {
        assert(seq!["end"][0] == "end");
        assert(seq![a][0] == a);
        assert(crate::impls::variant::is_named_field_out(body.fields@[0], "end", a));
    }
}

/// Building the deserialized shape of `RangeTo<T>` in a context that has registered nothing defines a
/// new struct at the next index and refers to it: its one field is `end`, holding a value of
/// `T`'s shape.
pub proof fn law_range_to_is_its_end_in<T: DeserializeShape>(before: DeserializeShapeContext, after: DeserializeShapeContext, r: ShapeRef)
    requires
        <core::ops::RangeTo<T> as DeserializeShape>::accepts(before, after, r),
        before.identities_view().len() == 0,
    ensures
        ({
            let n = before.definitions_view().len();
            &&& r@ == Shape::Definition(n as usize)
            &&& n < after.definitions_view().len()
            &&& after.definitions_view()[n as int].kind matches DeserializeDefinitionKind::Struct(body)
            &&& body.fields@.len() == 1
            &&& body.fields@[0].name == "end"
            &&& exists|during: DeserializeShapeContext, built: DeserializeShapeContext, bound: ShapeRef|
                T::accepts(during, built, bound) && body.fields@[0].wire_shape == FieldWireShape::Value(bound)
        }),
{
    let names = TypeName { rust_name: "RangeTo", name: "RangeTo" };
    let identity = choose|identity: core::any::TypeId| DeserializeShapeContext::defines_with(
        before, after, identity, names, None, crate::impls::range::bound_field_run_in::<T>("end"), r);
    let key = (identity, "RangeTo"@);
    assert(!before.identities_view().contains(key));
    let n = before.definitions_view().len();
    let (during, built, kind) = choose|during: DeserializeShapeContext, built: DeserializeShapeContext, kind: DeserializeDefinitionKind| {
        &&& DeserializeShapeContext::reserves(before, during, key)
        &&& DeserializeShapeContext::extends(during, built)
        &&& #[trigger] crate::impls::range::bound_field_run_in::<T>("end")(during, built, kind)
        &&& DeserializeShapeContext::stores(built, after, n as int, names, None, kind)
    };
    let a = choose|a: ShapeRef| #[trigger] T::accepts(during, built, a) && crate::impls::variant::is_struct_body_in(kind, seq!["end"], seq![a]);
    assert(after.definitions_view()[n as int].kind == kind);
    if let DeserializeDefinitionKind::Struct(body) = kind {
        assert(seq!["end"][0] == "end");
        assert(seq![a][0] == a);
        assert(crate::impls::variant::is_named_field_in(body.fields@[0], "end", a));
    }
}

/// Building the serialized shape of `Duration` in a context that has registered nothing defines a new
/// struct named `Duration` at the next index and refers to it: its fields are `secs`, a `u64`
/// count of whole seconds, and then `nanos`, a `u32` count of nanoseconds. It builds nothing else.
pub proof fn law_duration_is_seconds_then_nanoseconds_out(before: SerializeShapeContext, after: SerializeShapeContext, r: ShapeRef)
    requires
        <core::time::Duration as SerializeShape>::emits(before, after, r),
        before.identities_view().len() == 0,
    ensures
        ({
            let n = before.definitions_view().len();
            &&& r@ == Shape::Definition(n as usize)
            &&& after.definitions_view().len() == n + 1
            &&& after.definitions_view()[n as int].type_names.name == "Duration"
            &&& after.definitions_view()[n as int].kind matches SerializeDefinitionKind::Struct(body)
            &&& body.fields@.len() == 2
            &&& body.fields@[0].name == "secs"
            &&& body.fields@[1].name == "nanos"
            &&& integer_range(body.fields@[0].wire_shape->Value_0@) == Some((u64::MIN as int, u64::MAX as int))
            &&& integer_range(body.fields@[1].wire_shape->Value_0@) == Some((u32::MIN as int, u32::MAX as int))
            &&& body.fields@[0].wire_shape is Value
            &&& body.fields@[1].wire_shape is Value
        }),
{
    let names = TypeName { rust_name: "core::time::Duration", name: "Duration" };
    let fnames = seq!["secs", "nanos"];
    let shapes = seq![ShapeRef::U64, ShapeRef::U32];
    let identity = choose|identity: core::any::TypeId| SerializeShapeContext::defines_with(
        before, after, identity, names, None, crate::impls::time::fixed_struct_run_out(fnames, shapes), r);
    let key = (identity, "core::time::Duration"@);
    assert(!before.identities_view().contains(key));
    let n = before.definitions_view().len();
    let (during, built, kind) = choose|during: SerializeShapeContext, built: SerializeShapeContext, kind: SerializeDefinitionKind| {
        &&& SerializeShapeContext::reserves(before, during, key)
        &&& SerializeShapeContext::extends(during, built)
        &&& #[trigger] crate::impls::time::fixed_struct_run_out(fnames, shapes)(during, built, kind)
        &&& SerializeShapeContext::stores(built, after, n as int, names, None, kind)
    };
    assert(after.definitions_view()[n as int].kind == kind);
    if let SerializeDefinitionKind::Struct(body) = kind {
        assert(fnames[0] == "secs");
        assert(fnames[1] == "nanos");
        assert(crate::impls::variant::is_named_field_out(body.fields@[0], "secs", ShapeRef::U64));
        assert(crate::impls::variant::is_named_field_out(body.fields@[1], "nanos", ShapeRef::U32));
    }
}

/// Building the deserialized shape of `Duration` in a context that has registered nothing defines a new
/// struct named `Duration` at the next index and refers to it: its fields are `secs`, a `u64`
/// count of whole seconds, and then `nanos`, a `u32` count of nanoseconds. It builds nothing else.
pub proof fn law_duration_is_seconds_then_nanoseconds_in(before: DeserializeShapeContext, after: DeserializeShapeContext, r: ShapeRef)
    requires
        <core::time::Duration as DeserializeShape>::accepts(before, after, r),
        before.identities_view().len() == 0,
    ensures
        ({
            let n = before.definitions_view().len();
            &&& r@ == Shape::Definition(n as usize)
            &&& after.definitions_view().len() == n + 1
            &&& after.definitions_view()[n as int].type_names.name == "Duration"
            &&& after.definitions_view()[n as int].kind matches DeserializeDefinitionKind::Struct(body)
            &&& body.fields@.len() == 2
            &&& body.fields@[0].name == "secs"
            &&& body.fields@[1].name == "nanos"
            &&& integer_range(body.fields@[0].wire_shape->Value_0@) == Some((u64::MIN as int, u64::MAX as int))
            &&& integer_range(body.fields@[1].wire_shape->Value_0@) == Some((u32::MIN as int, u32::MAX as int))
            &&& body.fields@[0].wire_shape is Value
            &&& body.fields@[1].wire_shape is Value
        }),
{
    let names = TypeName { rust_name: "core::time::Duration", name: "Duration" };
    let fnames = seq!["secs", "nanos"];
    let shapes = seq![ShapeRef::U64, ShapeRef::U32];
    let identity = choose|identity: core::any::TypeId| DeserializeShapeContext::defines_with(
        before, after, identity, names, None, crate::impls::time::fixed_struct_run_in(fnames, shapes), r);
    let key = (identity, "core::time::Duration"@);
    assert(!before.identities_view().contains(key));
    let n = before.definitions_view().len();
    let (during, built, kind) = choose|during: DeserializeShapeContext, built: DeserializeShapeContext, kind: DeserializeDefinitionKind| {
        &&& DeserializeShapeContext::reserves(before, during, key)
        &&& DeserializeShapeContext::extends(during, built)
        &&& #[trigger] crate::impls::time::fixed_struct_run_in(fnames, shapes)(during, built, kind)
        &&& DeserializeShapeContext::stores(built, after, n as int, names, None, kind)
    };
    assert(after.definitions_view()[n as int].kind == kind);
    if let DeserializeDefinitionKind::Struct(body) = kind {
        assert(fnames[0] == "secs");
        assert(fnames[1] == "nanos");
        assert(crate::impls::variant::is_named_field_in(body.fields@[0], "secs", ShapeRef::U64));
        assert(crate::impls::variant::is_named_field_in(body.fields@[1], "nanos", ShapeRef::U32));
    }
}

/// Building the serialized shape of `SystemTime` in a context that has registered nothing defines a new
/// struct named `SystemTime` at the next index and refers to it: its fields are `secs_since_epoch`, a `u64`
/// count of whole seconds, and then `nanos_since_epoch`, a `u32` count of nanoseconds. It builds nothing else.
pub proof fn law_system_time_is_seconds_then_nanoseconds_out(before: SerializeShapeContext, after: SerializeShapeContext, r: ShapeRef)
    requires
        <std::time::SystemTime as SerializeShape>::emits(before, after, r),
        before.identities_view().len() == 0,
    ensures
        ({
            let n = before.definitions_view().len();
            &&& r@ == Shape::Definition(n as usize)
            &&& after.definitions_view().len() == n + 1
            &&& after.definitions_view()[n as int].type_names.name == "SystemTime"
            &&& after.definitions_view()[n as int].kind matches SerializeDefinitionKind::Struct(body)
            &&& body.fields@.len() == 2
            &&& body.fields@[0].name == "secs_since_epoch"
            &&& body.fields@[1].name == "nanos_since_epoch"
            &&& integer_range(body.fields@[0].wire_shape->Value_0@) == Some((u64::MIN as int, u64::MAX as int))
            &&& integer_range(body.fields@[1].wire_shape->Value_0@) == Some((u32::MIN as int, u32::MAX as int))
            &&& body.fields@[0].wire_shape is Value
            &&& body.fields@[1].wire_shape is Value
        }),
{
    let names = TypeName { rust_name: "std::time::SystemTime", name: "SystemTime" };
    let fnames = seq!["secs_since_epoch", "nanos_since_epoch"];
    let shapes = seq![ShapeRef::U64, ShapeRef::U32];
    let identity = choose|identity: core::any::TypeId| SerializeShapeContext::defines_with(
        before, after, identity, names, None, crate::impls::time::fixed_struct_run_out(fnames, shapes), r);
    let key = (identity, "std::time::SystemTime"@);
    assert(!before.identities_view().contains(key));
    let n = before.definitions_view().len();
    let (during, built, kind) = choose|during: SerializeShapeContext, built: SerializeShapeContext, kind: SerializeDefinitionKind| {
        &&& SerializeShapeContext::reserves(before, during, key)
        &&& SerializeShapeContext::extends(during, built)
        &&& #[trigger] crate::impls::time::fixed_struct_run_out(fnames, shapes)(during, built, kind)
        &&& SerializeShapeContext::stores(built, after, n as int, names, None, kind)
    };
    assert(after.definitions_view()[n as int].kind == kind);
    if let SerializeDefinitionKind::Struct(body) = kind {
        assert(fnames[0] == "secs_since_epoch");
        assert(fnames[1] == "nanos_since_epoch");
        assert(crate::impls::variant::is_named_field_out(body.fields@[0], "secs_since_epoch", ShapeRef::U64));
        assert(crate::impls::variant::is_named_field_out(body.fields@[1], "nanos_since_epoch", ShapeRef::U32));
    }
}

/// Building the deserialized shape of `SystemTime` in a context that has registered nothing defines a new
/// struct named `SystemTime` at the next index and refers to it: its fields are `secs_since_epoch`, a `u64`
/// count of whole seconds, and then `nanos_since_epoch`, a `u32` count of nanoseconds. It builds nothing else.
pub proof fn law_system_time_is_seconds_then_nanoseconds_in(before: DeserializeShapeContext, after: DeserializeShapeContext, r: ShapeRef)
    requires
        <std::time::SystemTime as DeserializeShape>::accepts(before, after, r),
        before.identities_view().len() == 0,
    ensures
        ({
            let n = before.definitions_view().len();
            &&& r@ == Shape::Definition(n as usize)
            &&& after.definitions_view().len() == n + 1
            &&& after.definitions_view()[n as int].type_names.name == "SystemTime"
            &&& after.definitions_view()[n as int].kind matches DeserializeDefinitionKind::Struct(body)
            &&& body.fields@.len() == 2
            &&& body.fields@[0].name == "secs_since_epoch"
            &&& body.fields@[1].name == "nanos_since_epoch"
            &&& integer_range(body.fields@[0].wire_shape->Value_0@) == Some((u64::MIN as int, u64::MAX as int))
            &&& integer_range(body.fields@[1].wire_shape->Value_0@) == Some((u32::MIN as int, u32::MAX as int))
            &&& body.fields@[0].wire_shape is Value
            &&& body.fields@[1].wire_shape is Value
        }),
{
    let names = TypeName { rust_name: "std::time::SystemTime", name: "SystemTime" };
    let fnames = seq!["secs_since_epoch", "nanos_since_epoch"];
    let shapes = seq![ShapeRef::U64, ShapeRef::U32];
    let identity = choose|identity: core::any::TypeId| DeserializeShapeContext::defines_with(
        before, after, identity, names, None, crate::impls::time::fixed_struct_run_in(fnames, shapes), r);
    let key = (identity, "std::time::SystemTime"@);
    assert(!before.identities_view().contains(key));
    let n = before.definitions_view().len();
    let (during, built, kind) = choose|during: DeserializeShapeContext, built: DeserializeShapeContext, kind: DeserializeDefinitionKind| {
        &&& DeserializeShapeContext::reserves(before, during, key)
        &&& DeserializeShapeContext::extends(during, built)
        &&& #[trigger] crate::impls::time::fixed_struct_run_in(fnames, shapes)(during, built, kind)
        &&& DeserializeShapeContext::stores(built, after, n as int, names, None, kind)
    };
    assert(after.definitions_view()[n as int].kind == kind);
    if let DeserializeDefinitionKind::Struct(body) = kind {
        assert(fnames[0] == "secs_since_epoch");
        assert(fnames[1] == "nanos_since_epoch");
        assert(crate::impls::variant::is_named_field_in(body.fields@[0], "secs_since_epoch", ShapeRef::U64));
        assert(crate::impls::variant::is_named_field_in(body.fields@[1], "nanos_since_epoch", ShapeRef::U32));
    }
}

/// Pointers, cells, locks and numeric wrappers are transparent when serialized: their shape is
/// the shape of what they hold, built the same way.
pub proof fn law_serialized_wrappers_are_transparent<T: SerializeShape + ?Sized>(before: SerializeShapeContext, after: SerializeShapeContext, r: ShapeRef)
    ensures
        <Box<T> as SerializeShape>::emits(before, after, r) == T::emits(before, after, r),
        <core::cell::RefCell<T> as SerializeShape>::emits(before, after, r) == T::emits(before, after, r),
        <std::sync::Mutex<T> as SerializeShape>::emits(before, after, r) == T::emits(before, after, r),
        <std::sync::RwLock<T> as SerializeShape>::emits(before, after, r) == T::emits(before, after, r),
        <&T as SerializeShape>::emits(before, after, r) == T::emits(before, after, r),
        <&mut T as SerializeShape>::emits(before, after, r) == T::emits(before, after, r),
        <std::rc::Rc<T> as SerializeShape>::emits(before, after, r) == T::emits(before, after, r),
        <std::sync::Arc<T> as SerializeShape>::emits(before, after, r) == T::emits(before, after, r),
{
}

/// Numeric and ordering wrappers are transparent when serialized: their shape is the shape of
/// what they hold, built the same way.
pub proof fn law_serialized_value_wrappers_are_transparent<T: SerializeShape>(before: SerializeShapeContext, after: SerializeShapeContext, r: ShapeRef)
    ensures
        <core::num::Wrapping<T> as SerializeShape>::emits(before, after, r) == T::emits(before, after, r),
        <core::num::Saturating<T> as SerializeShape>::emits(before, after, r) == T::emits(before, after, r),
        <core::marker::PhantomData<T> as SerializeShape>::emits(before, after, r) ==> r@ == Shape::Unit && after == before,
{
}

/// Boxes, shared pointers, cells, locks and numeric wrappers are transparent when deserialized:
/// their shape is the shape of what they hold, built the same way.
pub proof fn law_deserialized_wrappers_are_transparent<T: DeserializeShape>(before: DeserializeShapeContext, after: DeserializeShapeContext, r: ShapeRef)
    ensures
        <Box<T> as DeserializeShape>::accepts(before, after, r) == T::accepts(before, after, r),
        <core::cell::RefCell<T> as DeserializeShape>::accepts(before, after, r) == T::accepts(before, after, r),
        <std::sync::Mutex<T> as DeserializeShape>::accepts(before, after, r) == T::accepts(before, after, r),
        <std::sync::RwLock<T> as DeserializeShape>::accepts(before, after, r) == T::accepts(before, after, r),
        <core::num::Wrapping<T> as DeserializeShape>::accepts(before, after, r) == T::accepts(before, after, r),
        <std::rc::Rc<T> as DeserializeShape>::accepts(before, after, r) == T::accepts(before, after, r),
        <std::sync::Arc<T> as DeserializeShape>::accepts(before, after, r) == T::accepts(before, after, r),
        <core::marker::PhantomData<T> as DeserializeShape>::accepts(before, after, r) ==> r@ == Shape::Unit && after == before,
{
}

/// A saturating integer is deserialized as the integer type it wraps, with the same least and
/// greatest value.
pub proof fn law_saturating_integers_keep_their_range(before: DeserializeShapeContext, after: DeserializeShapeContext, r: ShapeRef)
    ensures
        <core::num::Saturating<i8> as DeserializeShape>::accepts(before, after, r) ==> integer_range(r@) == Some((i8::MIN as int, i8::MAX as int)) && after == before,
        <core::num::Saturating<i16> as DeserializeShape>::accepts(before, after, r) ==> integer_range(r@) == Some((i16::MIN as int, i16::MAX as int)) && after == before,
        <core::num::Saturating<i32> as DeserializeShape>::accepts(before, after, r) ==> integer_range(r@) == Some((i32::MIN as int, i32::MAX as int)) && after == before,
        <core::num::Saturating<i64> as DeserializeShape>::accepts(before, after, r) ==> integer_range(r@) == Some((i64::MIN as int, i64::MAX as int)) && after == before,
        <core::num::Saturating<i128> as DeserializeShape>::accepts(before, after, r) ==> integer_range(r@) == Some((i128::MIN as int, i128::MAX as int)) && after == before,
        <core::num::Saturating<isize> as DeserializeShape>::accepts(before, after, r) ==> integer_range(r@) == Some((isize::MIN as int, isize::MAX as int)) && after == before,
        <core::num::Saturating<u8> as DeserializeShape>::accepts(before, after, r) ==> integer_range(r@) == Some((u8::MIN as int, u8::MAX as int)) && after == before,
        <core::num::Saturating<u16> as DeserializeShape>::accepts(before, after, r) ==> integer_range(r@) == Some((u16::MIN as int, u16::MAX as int)) && after == before,
        <core::num::Saturating<u32> as DeserializeShape>::accepts(before, after, r) ==> integer_range(r@) == Some((u32::MIN as int, u32::MAX as int)) && after == before,
        <core::num::Saturating<u64> as DeserializeShape>::accepts(before, after, r) ==> integer_range(r@) == Some((u64::MIN as int, u64::MAX as int)) && after == before,
        <core::num::Saturating<u128> as DeserializeShape>::accepts(before, after, r) ==> integer_range(r@) == Some((u128::MIN as int, u128::MAX as int)) && after == before,
        <core::num::Saturating<usize> as DeserializeShape>::accepts(before, after, r) ==> integer_range(r@) == Some((usize::MIN as int, usize::MAX as int)) && after == before,
{
}

/// Borrowed input is deserialized as the owned form it stands for: `&str` and `Box<str>` as a
/// string, `&[u8]` as bytes, and `Box<[T]>` as a sequence of `T`'s shape.
pub proof fn law_borrowed_input_shapes<T: DeserializeShape>(before: DeserializeShapeContext, after: DeserializeShapeContext, r: ShapeRef)
    ensures
        <&str as DeserializeShape>::accepts(before, after, r) ==> r@ == Shape::String && after == before,
        <Box<str> as DeserializeShape>::accepts(before, after, r) ==> r@ == Shape::String && after == before,
        <&[u8] as DeserializeShape>::accepts(before, after, r) ==> r@ == Shape::Bytes && after == before,
        <Box<[T]> as DeserializeShape>::accepts(before, after, r) ==> (r matches ShapeRef::Sequence(item)
            && T::accepts(before, after, *item)),
{
}

/// Reversing the order of a value does not change its shape in either direction.
pub proof fn law_reversed_values_are_transparent<T: SerializeShape + DeserializeShape>(
    before: SerializeShapeContext,
    after: SerializeShapeContext,
    r: ShapeRef,
    input_before: DeserializeShapeContext,
    input_after: DeserializeShapeContext,
)
    ensures
        core::cmp::Reverse::<T>::emits(before, after, r) == T::emits(before, after, r),
        core::cmp::Reverse::<T>::accepts(input_before, input_after, r) == T::accepts(input_before, input_after, r),
{
}

/// The shape of a value that a string or a binary form `binary` may stand for is a union of
/// exactly those two.
proof fn lemma_readable_or_binary(binary: Shape, r: Shape)
    requires
        crate::impls::net::is_readable_or_binary(binary, r),
        !is_union_shape(binary),
        binary != Shape::String,
    ensures
        r matches Shape::Union(xs) && xs.to_set() == set![Shape::String, binary],
{
    let pair = seq![Shape::String, binary];
    assert(pair.drop_last() =~= seq![Shape::String]);
    assert(seq![Shape::String].drop_last() =~= Seq::<Shape>::empty());
    assert(seq![Shape::String].last() == Shape::String);
    assert(pair.last() == binary);
    assert(flattened(Seq::<Shape>::empty()) == Seq::<Shape>::empty());
    assert(alternatives_of(Shape::String) =~= seq![Shape::String]);
    assert(alternatives_of(binary) =~= seq![binary]);
    assert(flattened(seq![Shape::String]) == flattened(Seq::<Shape>::empty()) + alternatives_of(Shape::String));
    assert(flattened(seq![Shape::String]) =~= seq![Shape::String]);
    assert(flattened(pair) == flattened(seq![Shape::String]) + alternatives_of(binary));
    assert(flattened(pair) =~= seq![Shape::String, binary]);
    assert(seq![Shape::String, binary].to_set() =~= set![Shape::String, binary]) by {
        assert forall|x: Shape| seq![Shape::String, binary].contains(x) <==> set![Shape::String, binary].contains(x) by {
            if x == binary {
                assert(seq![Shape::String, binary][1] == x);
            }
            if x == Shape::String {
                assert(seq![Shape::String, binary][0] == x);
            }
        }
    }
    if !is_union_shape(r) {
        assert(alternatives_of(r) =~= seq![r]);
        assert(seq![r].to_set().contains(Shape::String));
        assert(seq![r].to_set().contains(binary));
        assert(seq![r].contains(Shape::String));
        assert(seq![r].contains(binary));
        assert(false);
    }
}

/// The shape of an IPv4 address is, in both directions, a union of exactly a string and its
/// binary form, four bytes; it defines nothing.
pub proof fn law_ipv4_address_is_a_string_or_its_bytes(
    before: SerializeShapeContext,
    after: SerializeShapeContext,
    input_before: DeserializeShapeContext,
    input_after: DeserializeShapeContext,
    r: ShapeRef,
)
    ensures
        <core::net::Ipv4Addr as SerializeShape>::emits(before, after, r) ==> (r@ matches Shape::Union(xs) && xs.to_set() == set![Shape::String, Shape::Array { item: Box::new(Shape::U8), len: 4 }] && after == before),
        <core::net::Ipv4Addr as DeserializeShape>::accepts(input_before, input_after, r) ==> (r@ matches Shape::Union(xs) && xs.to_set() == set![Shape::String, Shape::Array { item: Box::new(Shape::U8), len: 4 }] && input_after == input_before),
{
    let binary = Shape::Array { item: Box::new(Shape::U8), len: 4 };
    if <core::net::Ipv4Addr as SerializeShape>::emits(before, after, r) || <core::net::Ipv4Addr as DeserializeShape>::accepts(input_before, input_after, r) {
        lemma_readable_or_binary(binary, r@);
    }
}

/// The shape of an IPv6 address is, in both directions, a union of exactly a string and its
/// binary form, sixteen bytes; it defines nothing.
pub proof fn law_ipv6_address_is_a_string_or_its_bytes(
    before: SerializeShapeContext,
    after: SerializeShapeContext,
    input_before: DeserializeShapeContext,
    input_after: DeserializeShapeContext,
    r: ShapeRef,
)
    ensures
        <core::net::Ipv6Addr as SerializeShape>::emits(before, after, r) ==> (r@ matches Shape::Union(xs) && xs.to_set() == set![Shape::String, Shape::Array { item: Box::new(Shape::U8), len: 16 }] && after == before),
        <core::net::Ipv6Addr as DeserializeShape>::accepts(input_before, input_after, r) ==> (r@ matches Shape::Union(xs) && xs.to_set() == set![Shape::String, Shape::Array { item: Box::new(Shape::U8), len: 16 }] && input_after == input_before),
{
    let binary = Shape::Array { item: Box::new(Shape::U8), len: 16 };
    if <core::net::Ipv6Addr as SerializeShape>::emits(before, after, r) || <core::net::Ipv6Addr as DeserializeShape>::accepts(input_before, input_after, r) {
        lemma_readable_or_binary(binary, r@);
    }
}

/// The shape of an IPv4 socket address is, in both directions, a union of exactly a string and its
/// binary form, the four bytes of the address, then a `u16` port; it defines nothing.
pub proof fn law_socket_v4_address_is_a_string_or_its_bytes(
    before: SerializeShapeContext,
    after: SerializeShapeContext,
    input_before: DeserializeShapeContext,
    input_after: DeserializeShapeContext,
    r: ShapeRef,
)
    ensures
        <core::net::SocketAddrV4 as SerializeShape>::emits(before, after, r) ==> (r@ matches Shape::Union(xs) && xs.to_set() == set![Shape::String, Shape::Tuple(seq![Shape::Array { item: Box::new(Shape::U8), len: 4 }, Shape::U16])] && after == before),
        <core::net::SocketAddrV4 as DeserializeShape>::accepts(input_before, input_after, r) ==> (r@ matches Shape::Union(xs) && xs.to_set() == set![Shape::String, Shape::Tuple(seq![Shape::Array { item: Box::new(Shape::U8), len: 4 }, Shape::U16])] && input_after == input_before),
{
    let binary = Shape::Tuple(seq![Shape::Array { item: Box::new(Shape::U8), len: 4 }, Shape::U16]);
    if <core::net::SocketAddrV4 as SerializeShape>::emits(before, after, r) || <core::net::SocketAddrV4 as DeserializeShape>::accepts(input_before, input_after, r) {
        lemma_readable_or_binary(binary, r@);
    }
}

/// The shape of an IPv6 socket address is, in both directions, a union of exactly a string and its
/// binary form, the sixteen bytes of the address, then a `u16` port; it defines nothing.
pub proof fn law_socket_v6_address_is_a_string_or_its_bytes(
    before: SerializeShapeContext,
    after: SerializeShapeContext,
    input_before: DeserializeShapeContext,
    input_after: DeserializeShapeContext,
    r: ShapeRef,
)
    ensures
        <core::net::SocketAddrV6 as SerializeShape>::emits(before, after, r) ==> (r@ matches Shape::Union(xs) && xs.to_set() == set![Shape::String, Shape::Tuple(seq![Shape::Array { item: Box::new(Shape::U8), len: 16 }, Shape::U16])] && after == before),
        <core::net::SocketAddrV6 as DeserializeShape>::accepts(input_before, input_after, r) ==> (r@ matches Shape::Union(xs) && xs.to_set() == set![Shape::String, Shape::Tuple(seq![Shape::Array { item: Box::new(Shape::U8), len: 16 }, Shape::U16])] && input_after == input_before),
{
    let binary = Shape::Tuple(seq![Shape::Array { item: Box::new(Shape::U8), len: 16 }, Shape::U16]);
    if <core::net::SocketAddrV6 as SerializeShape>::emits(before, after, r) || <core::net::SocketAddrV6 as DeserializeShape>::accepts(input_before, input_after, r) {
        lemma_readable_or_binary(binary, r@);
    }
}

/// Jiff's dates, times, durations, spans, timestamps and zoned datetimes are strings in both
/// directions, and define nothing.
pub proof fn law_jiff_values_are_strings(
    before: SerializeShapeContext,
    after: SerializeShapeContext,
    input_before: DeserializeShapeContext,
    input_after: DeserializeShapeContext,
    r: ShapeRef,
)
    ensures
        <jiff::civil::Date as SerializeShape>::emits(before, after, r) ==> r@ == Shape::String && after == before,
        <jiff::civil::Date as DeserializeShape>::accepts(input_before, input_after, r) ==> r@ == Shape::String && input_after == input_before,
        <jiff::civil::DateTime as SerializeShape>::emits(before, after, r) ==> r@ == Shape::String && after == before,
        <jiff::civil::DateTime as DeserializeShape>::accepts(input_before, input_after, r) ==> r@ == Shape::String && input_after == input_before,
        <jiff::civil::ISOWeekDate as SerializeShape>::emits(before, after, r) ==> r@ == Shape::String && after == before,
        <jiff::civil::ISOWeekDate as DeserializeShape>::accepts(input_before, input_after, r) ==> r@ == Shape::String && input_after == input_before,
        <jiff::SignedDuration as SerializeShape>::emits(before, after, r) ==> r@ == Shape::String && after == before,
        <jiff::SignedDuration as DeserializeShape>::accepts(input_before, input_after, r) ==> r@ == Shape::String && input_after == input_before,
        <jiff::Span as SerializeShape>::emits(before, after, r) ==> r@ == Shape::String && after == before,
        <jiff::Span as DeserializeShape>::accepts(input_before, input_after, r) ==> r@ == Shape::String && input_after == input_before,
        <jiff::civil::Time as SerializeShape>::emits(before, after, r) ==> r@ == Shape::String && after == before,
        <jiff::civil::Time as DeserializeShape>::accepts(input_before, input_after, r) ==> r@ == Shape::String && input_after == input_before,
        <jiff::Timestamp as SerializeShape>::emits(before, after, r) ==> r@ == Shape::String && after == before,
        <jiff::Timestamp as DeserializeShape>::accepts(input_before, input_after, r) ==> r@ == Shape::String && input_after == input_before,
        <jiff::Zoned as SerializeShape>::emits(before, after, r) ==> r@ == Shape::String && after == before,
        <jiff::Zoned as DeserializeShape>::accepts(input_before, input_after, r) ==> r@ == Shape::String && input_after == input_before,
{
}

/// Building the serialized shape of `IpAddr` in a context that has registered nothing defines a new
/// externally tagged enum at the next index, `V4` carrying the four bytes of an IPv4 address and then `V6` carrying the sixteen bytes of an IPv6 address, and
/// gives a union of exactly a string and a reference to that enum.
pub proof fn law_ip_address_is_a_string_or_a_tagged_binary_form_out(before: SerializeShapeContext, after: SerializeShapeContext, r: ShapeRef)
    requires
        <core::net::IpAddr as SerializeShape>::emits(before, after, r),
        before.identities_view().len() == 0,
    ensures
        ({
            let n = before.definitions_view().len();
            &&& r@ matches Shape::Union(xs) && xs.to_set() == set![Shape::String, Shape::Definition(n as usize)]
            &&& n < after.definitions_view().len()
            &&& after.definitions_view()[n as int].kind matches SerializeDefinitionKind::Enum(e)
            &&& e.repr == Tagging::External
            &&& e.variants@.len() == 2
            &&& e.variants@[0].name == "V4"
            &&& e.variants@[1].name == "V6"
            &&& e.variants@[0].content matches SerializeVariantContent::Fields(fields) && fields@.len() == 1
                && (fields@[0].wire_shape matches FieldWireShape::Value(v4) && v4@ == Shape::Array { item: Box::new(Shape::U8), len: 4 })
            &&& e.variants@[1].content matches SerializeVariantContent::Fields(fields) && fields@.len() == 1
                && (fields@[0].wire_shape matches FieldWireShape::Value(v6) && v6@ == Shape::Array { item: Box::new(Shape::U8), len: 16 })
        }),
{
    let names = TypeName { rust_name: "IpAddr", name: "IpAddr" };
    let body = crate::impls::net::address_run_out(crate::impls::net::ipv4_binary_model(), crate::impls::net::ipv6_binary_model());
    let (identity, binary) = choose|identity: core::any::TypeId, binary: ShapeRef|
        #[trigger] SerializeShapeContext::defines_with(before, after, identity, names, None, body, binary)
            && crate::impls::net::is_readable_or_binary(binary@, r@);
    let key = (identity, "IpAddr"@);
    assert(!before.identities_view().contains(key));
    let n = before.definitions_view().len();
    let (during, built, kind) = choose|during: SerializeShapeContext, built: SerializeShapeContext, kind: SerializeDefinitionKind| {
        &&& SerializeShapeContext::reserves(before, during, key)
        &&& SerializeShapeContext::extends(during, built)
        &&& #[trigger] body(during, built, kind)
        &&& SerializeShapeContext::stores(built, after, n as int, names, None, kind)
    };
    assert(after.definitions_view()[n as int].kind == kind);
    lemma_readable_or_binary(binary@, r@);
    if let SerializeDefinitionKind::Enum(e) = kind {
        let s4 = choose|shape: ShapeRef| shape@ == crate::impls::net::ipv4_binary_model() && #[trigger] crate::impls::variant::is_newtype_variant_out(e.variants@[0], "V4", shape);
        let s6 = choose|shape: ShapeRef| shape@ == crate::impls::net::ipv6_binary_model() && #[trigger] crate::impls::variant::is_newtype_variant_out(e.variants@[1], "V6", shape);
    }
}

/// Building the deserialized shape of `IpAddr` in a context that has registered nothing defines a new
/// externally tagged enum at the next index, `V4` carrying the four bytes of an IPv4 address and then `V6` carrying the sixteen bytes of an IPv6 address, and
/// gives a union of exactly a string and a reference to that enum.
pub proof fn law_ip_address_is_a_string_or_a_tagged_binary_form_in(before: DeserializeShapeContext, after: DeserializeShapeContext, r: ShapeRef)
    requires
        <core::net::IpAddr as DeserializeShape>::accepts(before, after, r),
        before.identities_view().len() == 0,
    ensures
        ({
            let n = before.definitions_view().len();
            &&& r@ matches Shape::Union(xs) && xs.to_set() == set![Shape::String, Shape::Definition(n as usize)]
            &&& n < after.definitions_view().len()
            &&& after.definitions_view()[n as int].kind matches DeserializeDefinitionKind::Enum(e)
            &&& e.repr == Tagging::External
            &&& e.variants@.len() == 2
            &&& e.variants@[0].name == "V4"
            &&& e.variants@[1].name == "V6"
            &&& e.variants@[0].content matches DeserializeVariantContent::Fields(fields) && fields@.len() == 1
                && (fields@[0].wire_shape matches FieldWireShape::Value(v4) && v4@ == Shape::Array { item: Box::new(Shape::U8), len: 4 })
            &&& e.variants@[1].content matches DeserializeVariantContent::Fields(fields) && fields@.len() == 1
                && (fields@[0].wire_shape matches FieldWireShape::Value(v6) && v6@ == Shape::Array { item: Box::new(Shape::U8), len: 16 })
        }),
{
    let names = TypeName { rust_name: "IpAddr", name: "IpAddr" };
    let body = crate::impls::net::address_run_in(crate::impls::net::ipv4_binary_model(), crate::impls::net::ipv6_binary_model());
    let (identity, binary) = choose|identity: core::any::TypeId, binary: ShapeRef|
        #[trigger] DeserializeShapeContext::defines_with(before, after, identity, names, None, body, binary)
            && crate::impls::net::is_readable_or_binary(binary@, r@);
    let key = (identity, "IpAddr"@);
    assert(!before.identities_view().contains(key));
    let n = before.definitions_view().len();
    let (during, built, kind) = choose|during: DeserializeShapeContext, built: DeserializeShapeContext, kind: DeserializeDefinitionKind| {
        &&& DeserializeShapeContext::reserves(before, during, key)
        &&& DeserializeShapeContext::extends(during, built)
        &&& #[trigger] body(during, built, kind)
        &&& DeserializeShapeContext::stores(built, after, n as int, names, None, kind)
    };
    assert(after.definitions_view()[n as int].kind == kind);
    lemma_readable_or_binary(binary@, r@);
    if let DeserializeDefinitionKind::Enum(e) = kind {
        let s4 = choose|shape: ShapeRef| shape@ == crate::impls::net::ipv4_binary_model() && #[trigger] crate::impls::variant::is_newtype_variant_in(e.variants@[0], "V4", shape);
        let s6 = choose|shape: ShapeRef| shape@ == crate::impls::net::ipv6_binary_model() && #[trigger] crate::impls::variant::is_newtype_variant_in(e.variants@[1], "V6", shape);
    }
}

/// Building the serialized shape of `SocketAddr` in a context that has registered nothing defines a new
/// externally tagged enum at the next index, `V4` carrying the four address bytes and the port of an IPv4 socket address and then `V6` carrying the sixteen address bytes and the port of an IPv6 socket address, and
/// gives a union of exactly a string and a reference to that enum.
pub proof fn law_socket_address_is_a_string_or_a_tagged_binary_form_out(before: SerializeShapeContext, after: SerializeShapeContext, r: ShapeRef)
    requires
        <core::net::SocketAddr as SerializeShape>::emits(before, after, r),
        before.identities_view().len() == 0,
    ensures
        ({
            let n = before.definitions_view().len();
            &&& r@ matches Shape::Union(xs) && xs.to_set() == set![Shape::String, Shape::Definition(n as usize)]
            &&& n < after.definitions_view().len()
            &&& after.definitions_view()[n as int].kind matches SerializeDefinitionKind::Enum(e)
            &&& e.repr == Tagging::External
            &&& e.variants@.len() == 2
            &&& e.variants@[0].name == "V4"
            &&& e.variants@[1].name == "V6"
            &&& e.variants@[0].content matches SerializeVariantContent::Fields(fields) && fields@.len() == 1
                && (fields@[0].wire_shape matches FieldWireShape::Value(v4) && v4@ == Shape::Tuple(seq![Shape::Array { item: Box::new(Shape::U8), len: 4 }, Shape::U16]))
            &&& e.variants@[1].content matches SerializeVariantContent::Fields(fields) && fields@.len() == 1
                && (fields@[0].wire_shape matches FieldWireShape::Value(v6) && v6@ == Shape::Tuple(seq![Shape::Array { item: Box::new(Shape::U8), len: 16 }, Shape::U16]))
        }),
{
    let names = TypeName { rust_name: "SocketAddr", name: "SocketAddr" };
    let body = crate::impls::net::address_run_out(crate::impls::net::socket_v4_binary_model(), crate::impls::net::socket_v6_binary_model());
    let (identity, binary) = choose|identity: core::any::TypeId, binary: ShapeRef|
        #[trigger] SerializeShapeContext::defines_with(before, after, identity, names, None, body, binary)
            && crate::impls::net::is_readable_or_binary(binary@, r@);
    let key = (identity, "SocketAddr"@);
    assert(!before.identities_view().contains(key));
    let n = before.definitions_view().len();
    let (during, built, kind) = choose|during: SerializeShapeContext, built: SerializeShapeContext, kind: SerializeDefinitionKind| {
        &&& SerializeShapeContext::reserves(before, during, key)
        &&& SerializeShapeContext::extends(during, built)
        &&& #[trigger] body(during, built, kind)
        &&& SerializeShapeContext::stores(built, after, n as int, names, None, kind)
    };
    assert(after.definitions_view()[n as int].kind == kind);
    lemma_readable_or_binary(binary@, r@);
    if let SerializeDefinitionKind::Enum(e) = kind {
        let s4 = choose|shape: ShapeRef| shape@ == crate::impls::net::socket_v4_binary_model() && #[trigger] crate::impls::variant::is_newtype_variant_out(e.variants@[0], "V4", shape);
        let s6 = choose|shape: ShapeRef| shape@ == crate::impls::net::socket_v6_binary_model() && #[trigger] crate::impls::variant::is_newtype_variant_out(e.variants@[1], "V6", shape);
    }
}

/// Building the deserialized shape of `SocketAddr` in a context that has registered nothing defines a new
/// externally tagged enum at the next index, `V4` carrying the four address bytes and the port of an IPv4 socket address and then `V6` carrying the sixteen address bytes and the port of an IPv6 socket address, and
/// gives a union of exactly a string and a reference to that enum.
pub proof fn law_socket_address_is_a_string_or_a_tagged_binary_form_in(before: DeserializeShapeContext, after: DeserializeShapeContext, r: ShapeRef)
    requires
        <core::net::SocketAddr as DeserializeShape>::accepts(before, after, r),
        before.identities_view().len() == 0,
    ensures
        ({
            let n = before.definitions_view().len();
            &&& r@ matches Shape::Union(xs) && xs.to_set() == set![Shape::String, Shape::Definition(n as usize)]
            &&& n < after.definitions_view().len()
            &&& after.definitions_view()[n as int].kind matches DeserializeDefinitionKind::Enum(e)
            &&& e.repr == Tagging::External
            &&& e.variants@.len() == 2
            &&& e.variants@[0].name == "V4"
            &&& e.variants@[1].name == "V6"
            &&& e.variants@[0].content matches DeserializeVariantContent::Fields(fields) && fields@.len() == 1
                && (fields@[0].wire_shape matches FieldWireShape::Value(v4) && v4@ == Shape::Tuple(seq![Shape::Array { item: Box::new(Shape::U8), len: 4 }, Shape::U16]))
            &&& e.variants@[1].content matches DeserializeVariantContent::Fields(fields) && fields@.len() == 1
                && (fields@[0].wire_shape matches FieldWireShape::Value(v6) && v6@ == Shape::Tuple(seq![Shape::Array { item: Box::new(Shape::U8), len: 16 }, Shape::U16]))
        }),
{
    let names = TypeName { rust_name: "SocketAddr", name: "SocketAddr" };
    let body = crate::impls::net::address_run_in(crate::impls::net::socket_v4_binary_model(), crate::impls::net::socket_v6_binary_model());
    let (identity, binary) = choose|identity: core::any::TypeId, binary: ShapeRef|
        #[trigger] DeserializeShapeContext::defines_with(before, after, identity, names, None, body, binary)
            && crate::impls::net::is_readable_or_binary(binary@, r@);
    let key = (identity, "SocketAddr"@);
    assert(!before.identities_view().contains(key));
    let n = before.definitions_view().len();
    let (during, built, kind) = choose|during: DeserializeShapeContext, built: DeserializeShapeContext, kind: DeserializeDefinitionKind| {
        &&& DeserializeShapeContext::reserves(before, during, key)
        &&& DeserializeShapeContext::extends(during, built)
        &&& #[trigger] body(during, built, kind)
        &&& DeserializeShapeContext::stores(built, after, n as int, names, None, kind)
    };
    assert(after.definitions_view()[n as int].kind == kind);
    lemma_readable_or_binary(binary@, r@);
    if let DeserializeDefinitionKind::Enum(e) = kind {
        let s4 = choose|shape: ShapeRef| shape@ == crate::impls::net::socket_v4_binary_model() && #[trigger] crate::impls::variant::is_newtype_variant_in(e.variants@[0], "V4", shape);
        let s6 = choose|shape: ShapeRef| shape@ == crate::impls::net::socket_v6_binary_model() && #[trigger] crate::impls::variant::is_newtype_variant_in(e.variants@[1], "V6", shape);
    }
}

/// The serialized body of an OS string is an externally tagged enum with one variant, named
/// `Unix` on Unix-like platforms, where it carries a sequence of bytes, and `Windows` on Windows,
/// where it carries a sequence of UTF-16 code units.
pub proof fn law_os_strings_carry_the_platform_code_units_out(k: SerializeDefinitionKind)
    ensures
        crate::impls::os_string::is_os_string_body_out(k, crate::impls::os_string::OsPlatform::Unix) ==> (k matches SerializeDefinitionKind::Enum(e)
            && e.repr == Tagging::External && e.variants@.len() == 1 && e.variants@[0].name == "Unix"
            && (e.variants@[0].content matches SerializeVariantContent::Fields(fields) && fields@.len() == 1
            && (fields@[0].wire_shape matches FieldWireShape::Value(units) && units@ == Shape::Sequence(Box::new(Shape::U8))))),
        crate::impls::os_string::is_os_string_body_out(k, crate::impls::os_string::OsPlatform::Windows) ==> (k matches SerializeDefinitionKind::Enum(e)
            && e.repr == Tagging::External && e.variants@.len() == 1 && e.variants@[0].name == "Windows"
            && (e.variants@[0].content matches SerializeVariantContent::Fields(fields) && fields@.len() == 1
            && (fields@[0].wire_shape matches FieldWireShape::Value(units) && (units@ matches Shape::Sequence(unit)
            && integer_range(*unit) == Some((u16::MIN as int, u16::MAX as int)))))),
{
    if let SerializeDefinitionKind::Enum(e) = k {
        if crate::impls::os_string::is_os_string_body_out(k, crate::impls::os_string::OsPlatform::Unix) {
            let s = choose|shape: ShapeRef| shape@ == Shape::Sequence(Box::new(Shape::U8)) && #[trigger] crate::impls::variant::is_newtype_variant_out(e.variants@[0], "Unix", shape);
        }
        if crate::impls::os_string::is_os_string_body_out(k, crate::impls::os_string::OsPlatform::Windows) {
            let s = choose|shape: ShapeRef| shape@ == Shape::Sequence(Box::new(Shape::U16)) && #[trigger] crate::impls::variant::is_newtype_variant_out(e.variants@[0], "Windows", shape);
        }
    }
}

/// The deserialized body of an OS string is an externally tagged enum with one variant, named
/// `Unix` on Unix-like platforms, where it carries a sequence of bytes, and `Windows` on Windows,
/// where it carries a sequence of UTF-16 code units.
pub proof fn law_os_strings_carry_the_platform_code_units_in(k: DeserializeDefinitionKind)
    ensures
        crate::impls::os_string::is_os_string_body_in(k, crate::impls::os_string::OsPlatform::Unix) ==> (k matches DeserializeDefinitionKind::Enum(e)
            && e.repr == Tagging::External && e.variants@.len() == 1 && e.variants@[0].name == "Unix"
            && (e.variants@[0].content matches DeserializeVariantContent::Fields(fields) && fields@.len() == 1
            && (fields@[0].wire_shape matches FieldWireShape::Value(units) && units@ == Shape::Sequence(Box::new(Shape::U8))))),
        crate::impls::os_string::is_os_string_body_in(k, crate::impls::os_string::OsPlatform::Windows) ==> (k matches DeserializeDefinitionKind::Enum(e)
            && e.repr == Tagging::External && e.variants@.len() == 1 && e.variants@[0].name == "Windows"
            && (e.variants@[0].content matches DeserializeVariantContent::Fields(fields) && fields@.len() == 1
            && (fields@[0].wire_shape matches FieldWireShape::Value(units) && (units@ matches Shape::Sequence(unit)
            && integer_range(*unit) == Some((u16::MIN as int, u16::MAX as int)))))),
{
    if let DeserializeDefinitionKind::Enum(e) = k {
        if crate::impls::os_string::is_os_string_body_in(k, crate::impls::os_string::OsPlatform::Unix) {
            let s = choose|shape: ShapeRef| shape@ == Shape::Sequence(Box::new(Shape::U8)) && #[trigger] crate::impls::variant::is_newtype_variant_in(e.variants@[0], "Unix", shape);
        }
        if crate::impls::os_string::is_os_string_body_in(k, crate::impls::os_string::OsPlatform::Windows) {
            let s = choose|shape: ShapeRef| shape@ == Shape::Sequence(Box::new(Shape::U16)) && #[trigger] crate::impls::variant::is_newtype_variant_in(e.variants@[0], "Windows", shape);
        }
    }
}
} // verus!
