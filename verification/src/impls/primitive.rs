//! Shapes of primitives, strings, paths and atomics.
use vstd::prelude::*;

use crate::graph::{DeserializeShape, DeserializeShapeContext, SerializeShape, SerializeShapeContext};
use crate::model::Shape;
use crate::shape::ShapeRef;

verus! {

impl SerializeShape for () {
    open spec fn emits(before: SerializeShapeContext, after: SerializeShapeContext, r: ShapeRef) -> bool {
        r@ == Shape::Unit && after == before
    }

    fn serialize_shape_in(_context: &mut SerializeShapeContext) -> (r: ShapeRef) {
        ShapeRef::Unit
    }
}

impl DeserializeShape for () {
    open spec fn accepts(before: DeserializeShapeContext, after: DeserializeShapeContext, r: ShapeRef) -> bool {
        r@ == Shape::Unit && after == before
    }

    fn deserialize_shape_in(_context: &mut DeserializeShapeContext) -> (r: ShapeRef) {
        ShapeRef::Unit
    }
}

impl SerializeShape for bool {
    open spec fn emits(before: SerializeShapeContext, after: SerializeShapeContext, r: ShapeRef) -> bool {
        r@ == Shape::Bool && after == before
    }

    fn serialize_shape_in(_context: &mut SerializeShapeContext) -> (r: ShapeRef) {
        ShapeRef::Bool
    }
}

impl DeserializeShape for bool {
    open spec fn accepts(before: DeserializeShapeContext, after: DeserializeShapeContext, r: ShapeRef) -> bool {
        r@ == Shape::Bool && after == before
    }

    fn deserialize_shape_in(_context: &mut DeserializeShapeContext) -> (r: ShapeRef) {
        ShapeRef::Bool
    }
}

impl SerializeShape for char {
    open spec fn emits(before: SerializeShapeContext, after: SerializeShapeContext, r: ShapeRef) -> bool {
        r@ == Shape::Char && after == before
    }

    fn serialize_shape_in(_context: &mut SerializeShapeContext) -> (r: ShapeRef) {
        ShapeRef::Char
    }
}

impl DeserializeShape for char {
    open spec fn accepts(before: DeserializeShapeContext, after: DeserializeShapeContext, r: ShapeRef) -> bool {
        r@ == Shape::Char && after == before
    }

    fn deserialize_shape_in(_context: &mut DeserializeShapeContext) -> (r: ShapeRef) {
        ShapeRef::Char
    }
}

impl SerializeShape for i8 {
    open spec fn emits(before: SerializeShapeContext, after: SerializeShapeContext, r: ShapeRef) -> bool {
        r@ == Shape::I8 && after == before
    }

    fn serialize_shape_in(_context: &mut SerializeShapeContext) -> (r: ShapeRef) {
        ShapeRef::I8
    }
}

impl DeserializeShape for i8 {
    open spec fn accepts(before: DeserializeShapeContext, after: DeserializeShapeContext, r: ShapeRef) -> bool {
        r@ == Shape::I8 && after == before
    }

    fn deserialize_shape_in(_context: &mut DeserializeShapeContext) -> (r: ShapeRef) {
        ShapeRef::I8
    }
}

impl SerializeShape for i16 {
    open spec fn emits(before: SerializeShapeContext, after: SerializeShapeContext, r: ShapeRef) -> bool {
        r@ == Shape::I16 && after == before
    }

    fn serialize_shape_in(_context: &mut SerializeShapeContext) -> (r: ShapeRef) {
        ShapeRef::I16
    }
}

impl DeserializeShape for i16 {
    open spec fn accepts(before: DeserializeShapeContext, after: DeserializeShapeContext, r: ShapeRef) -> bool {
        r@ == Shape::I16 && after == before
    }

    fn deserialize_shape_in(_context: &mut DeserializeShapeContext) -> (r: ShapeRef) {
        ShapeRef::I16
    }
}

impl SerializeShape for i32 {
    open spec fn emits(before: SerializeShapeContext, after: SerializeShapeContext, r: ShapeRef) -> bool {
        r@ == Shape::I32 && after == before
    }

    fn serialize_shape_in(_context: &mut SerializeShapeContext) -> (r: ShapeRef) {
        ShapeRef::I32
    }
}

impl DeserializeShape for i32 {
    open spec fn accepts(before: DeserializeShapeContext, after: DeserializeShapeContext, r: ShapeRef) -> bool {
        r@ == Shape::I32 && after == before
    }

    fn deserialize_shape_in(_context: &mut DeserializeShapeContext) -> (r: ShapeRef) {
        ShapeRef::I32
    }
}

impl SerializeShape for i64 {
    open spec fn emits(before: SerializeShapeContext, after: SerializeShapeContext, r: ShapeRef) -> bool {
        r@ == Shape::I64 && after == before
    }

    fn serialize_shape_in(_context: &mut SerializeShapeContext) -> (r: ShapeRef) {
        ShapeRef::I64
    }
}

impl DeserializeShape for i64 {
    open spec fn accepts(before: DeserializeShapeContext, after: DeserializeShapeContext, r: ShapeRef) -> bool {
        r@ == Shape::I64 && after == before
    }

    fn deserialize_shape_in(_context: &mut DeserializeShapeContext) -> (r: ShapeRef) {
        ShapeRef::I64
    }
}

impl SerializeShape for i128 {
    open spec fn emits(before: SerializeShapeContext, after: SerializeShapeContext, r: ShapeRef) -> bool {
        r@ == Shape::I128 && after == before
    }

    fn serialize_shape_in(_context: &mut SerializeShapeContext) -> (r: ShapeRef) {
        ShapeRef::I128
    }
}

impl DeserializeShape for i128 {
    open spec fn accepts(before: DeserializeShapeContext, after: DeserializeShapeContext, r: ShapeRef) -> bool {
        r@ == Shape::I128 && after == before
    }

    fn deserialize_shape_in(_context: &mut DeserializeShapeContext) -> (r: ShapeRef) {
        ShapeRef::I128
    }
}

impl SerializeShape for isize {
    open spec fn emits(before: SerializeShapeContext, after: SerializeShapeContext, r: ShapeRef) -> bool {
        r@ == Shape::Isize && after == before
    }

    fn serialize_shape_in(_context: &mut SerializeShapeContext) -> (r: ShapeRef) {
        ShapeRef::Isize
    }
}

impl DeserializeShape for isize {
    open spec fn accepts(before: DeserializeShapeContext, after: DeserializeShapeContext, r: ShapeRef) -> bool {
        r@ == Shape::Isize && after == before
    }

    fn deserialize_shape_in(_context: &mut DeserializeShapeContext) -> (r: ShapeRef) {
        ShapeRef::Isize
    }
}

impl SerializeShape for u8 {
    open spec fn emits(before: SerializeShapeContext, after: SerializeShapeContext, r: ShapeRef) -> bool {
        r@ == Shape::U8 && after == before
    }

    fn serialize_shape_in(_context: &mut SerializeShapeContext) -> (r: ShapeRef) {
        ShapeRef::U8
    }
}

impl DeserializeShape for u8 {
    open spec fn accepts(before: DeserializeShapeContext, after: DeserializeShapeContext, r: ShapeRef) -> bool {
        r@ == Shape::U8 && after == before
    }

    fn deserialize_shape_in(_context: &mut DeserializeShapeContext) -> (r: ShapeRef) {
        ShapeRef::U8
    }
}

impl SerializeShape for u16 {
    open spec fn emits(before: SerializeShapeContext, after: SerializeShapeContext, r: ShapeRef) -> bool {
        r@ == Shape::U16 && after == before
    }

    fn serialize_shape_in(_context: &mut SerializeShapeContext) -> (r: ShapeRef) {
        ShapeRef::U16
    }
}

impl DeserializeShape for u16 {
    open spec fn accepts(before: DeserializeShapeContext, after: DeserializeShapeContext, r: ShapeRef) -> bool {
        r@ == Shape::U16 && after == before
    }

    fn deserialize_shape_in(_context: &mut DeserializeShapeContext) -> (r: ShapeRef) {
        ShapeRef::U16
    }
}

impl SerializeShape for u32 {
    open spec fn emits(before: SerializeShapeContext, after: SerializeShapeContext, r: ShapeRef) -> bool {
        r@ == Shape::U32 && after == before
    }

    fn serialize_shape_in(_context: &mut SerializeShapeContext) -> (r: ShapeRef) {
        ShapeRef::U32
    }
}

impl DeserializeShape for u32 {
    open spec fn accepts(before: DeserializeShapeContext, after: DeserializeShapeContext, r: ShapeRef) -> bool {
        r@ == Shape::U32 && after == before
    }

    fn deserialize_shape_in(_context: &mut DeserializeShapeContext) -> (r: ShapeRef) {
        ShapeRef::U32
    }
}

impl SerializeShape for u64 {
    open spec fn emits(before: SerializeShapeContext, after: SerializeShapeContext, r: ShapeRef) -> bool {
        r@ == Shape::U64 && after == before
    }

    fn serialize_shape_in(_context: &mut SerializeShapeContext) -> (r: ShapeRef) {
        ShapeRef::U64
    }
}

impl DeserializeShape for u64 {
    open spec fn accepts(before: DeserializeShapeContext, after: DeserializeShapeContext, r: ShapeRef) -> bool {
        r@ == Shape::U64 && after == before
    }

    fn deserialize_shape_in(_context: &mut DeserializeShapeContext) -> (r: ShapeRef) {
        ShapeRef::U64
    }
}

impl SerializeShape for u128 {
    open spec fn emits(before: SerializeShapeContext, after: SerializeShapeContext, r: ShapeRef) -> bool {
        r@ == Shape::U128 && after == before
    }

    fn serialize_shape_in(_context: &mut SerializeShapeContext) -> (r: ShapeRef) {
        ShapeRef::U128
    }
}

impl DeserializeShape for u128 {
    open spec fn accepts(before: DeserializeShapeContext, after: DeserializeShapeContext, r: ShapeRef) -> bool {
        r@ == Shape::U128 && after == before
    }

    fn deserialize_shape_in(_context: &mut DeserializeShapeContext) -> (r: ShapeRef) {
        ShapeRef::U128
    }
}

impl SerializeShape for usize {
    open spec fn emits(before: SerializeShapeContext, after: SerializeShapeContext, r: ShapeRef) -> bool {
        r@ == Shape::Usize && after == before
    }

    fn serialize_shape_in(_context: &mut SerializeShapeContext) -> (r: ShapeRef) {
        ShapeRef::Usize
    }
}

impl DeserializeShape for usize {
    open spec fn accepts(before: DeserializeShapeContext, after: DeserializeShapeContext, r: ShapeRef) -> bool {
        r@ == Shape::Usize && after == before
    }

    fn deserialize_shape_in(_context: &mut DeserializeShapeContext) -> (r: ShapeRef) {
        ShapeRef::Usize
    }
}

impl SerializeShape for String {
    open spec fn emits(before: SerializeShapeContext, after: SerializeShapeContext, r: ShapeRef) -> bool {
        r@ == Shape::String && after == before
    }

    fn serialize_shape_in(_context: &mut SerializeShapeContext) -> (r: ShapeRef) {
        ShapeRef::String
    }
}

impl DeserializeShape for String {
    open spec fn accepts(before: DeserializeShapeContext, after: DeserializeShapeContext, r: ShapeRef) -> bool {
        r@ == Shape::String && after == before
    }

    fn deserialize_shape_in(_context: &mut DeserializeShapeContext) -> (r: ShapeRef) {
        ShapeRef::String
    }
}

impl SerializeShape for std::path::PathBuf {
    open spec fn emits(before: SerializeShapeContext, after: SerializeShapeContext, r: ShapeRef) -> bool {
        r@ == Shape::String && after == before
    }

    fn serialize_shape_in(_context: &mut SerializeShapeContext) -> (r: ShapeRef) {
        ShapeRef::String
    }
}

impl DeserializeShape for std::path::PathBuf {
    open spec fn accepts(before: DeserializeShapeContext, after: DeserializeShapeContext, r: ShapeRef) -> bool {
        r@ == Shape::String && after == before
    }

    fn deserialize_shape_in(_context: &mut DeserializeShapeContext) -> (r: ShapeRef) {
        ShapeRef::String
    }
}

impl SerializeShape for core::sync::atomic::AtomicBool {
    open spec fn emits(before: SerializeShapeContext, after: SerializeShapeContext, r: ShapeRef) -> bool {
        r@ == Shape::Bool && after == before
    }

    fn serialize_shape_in(_context: &mut SerializeShapeContext) -> (r: ShapeRef) {
        ShapeRef::Bool
    }
}

impl DeserializeShape for core::sync::atomic::AtomicBool {
    open spec fn accepts(before: DeserializeShapeContext, after: DeserializeShapeContext, r: ShapeRef) -> bool {
        r@ == Shape::Bool && after == before
    }

    fn deserialize_shape_in(_context: &mut DeserializeShapeContext) -> (r: ShapeRef) {
        ShapeRef::Bool
    }
}

impl SerializeShape for core::sync::atomic::AtomicI8 {
    open spec fn emits(before: SerializeShapeContext, after: SerializeShapeContext, r: ShapeRef) -> bool {
        r@ == Shape::I8 && after == before
    }

    fn serialize_shape_in(_context: &mut SerializeShapeContext) -> (r: ShapeRef) {
        ShapeRef::I8
    }
}

impl DeserializeShape for core::sync::atomic::AtomicI8 {
    open spec fn accepts(before: DeserializeShapeContext, after: DeserializeShapeContext, r: ShapeRef) -> bool {
        r@ == Shape::I8 && after == before
    }

    fn deserialize_shape_in(_context: &mut DeserializeShapeContext) -> (r: ShapeRef) {
        ShapeRef::I8
    }
}

impl SerializeShape for core::sync::atomic::AtomicU8 {
    open spec fn emits(before: SerializeShapeContext, after: SerializeShapeContext, r: ShapeRef) -> bool {
        r@ == Shape::U8 && after == before
    }

    fn serialize_shape_in(_context: &mut SerializeShapeContext) -> (r: ShapeRef) {
        ShapeRef::U8
    }
}

impl DeserializeShape for core::sync::atomic::AtomicU8 {
    open spec fn accepts(before: DeserializeShapeContext, after: DeserializeShapeContext, r: ShapeRef) -> bool {
        r@ == Shape::U8 && after == before
    }

    fn deserialize_shape_in(_context: &mut DeserializeShapeContext) -> (r: ShapeRef) {
        ShapeRef::U8
    }
}

impl SerializeShape for core::sync::atomic::AtomicI16 {
    open spec fn emits(before: SerializeShapeContext, after: SerializeShapeContext, r: ShapeRef) -> bool {
        r@ == Shape::I16 && after == before
    }

    fn serialize_shape_in(_context: &mut SerializeShapeContext) -> (r: ShapeRef) {
        ShapeRef::I16
    }
}

impl DeserializeShape for core::sync::atomic::AtomicI16 {
    open spec fn accepts(before: DeserializeShapeContext, after: DeserializeShapeContext, r: ShapeRef) -> bool {
        r@ == Shape::I16 && after == before
    }

    fn deserialize_shape_in(_context: &mut DeserializeShapeContext) -> (r: ShapeRef) {
        ShapeRef::I16
    }
}

impl SerializeShape for core::sync::atomic::AtomicU16 {
    open spec fn emits(before: SerializeShapeContext, after: SerializeShapeContext, r: ShapeRef) -> bool {
        r@ == Shape::U16 && after == before
    }

    fn serialize_shape_in(_context: &mut SerializeShapeContext) -> (r: ShapeRef) {
        ShapeRef::U16
    }
}

impl DeserializeShape for core::sync::atomic::AtomicU16 {
    open spec fn accepts(before: DeserializeShapeContext, after: DeserializeShapeContext, r: ShapeRef) -> bool {
        r@ == Shape::U16 && after == before
    }

    fn deserialize_shape_in(_context: &mut DeserializeShapeContext) -> (r: ShapeRef) {
        ShapeRef::U16
    }
}

impl SerializeShape for core::sync::atomic::AtomicI32 {
    open spec fn emits(before: SerializeShapeContext, after: SerializeShapeContext, r: ShapeRef) -> bool {
        r@ == Shape::I32 && after == before
    }

    fn serialize_shape_in(_context: &mut SerializeShapeContext) -> (r: ShapeRef) {
        ShapeRef::I32
    }
}

impl DeserializeShape for core::sync::atomic::AtomicI32 {
    open spec fn accepts(before: DeserializeShapeContext, after: DeserializeShapeContext, r: ShapeRef) -> bool {
        r@ == Shape::I32 && after == before
    }

    fn deserialize_shape_in(_context: &mut DeserializeShapeContext) -> (r: ShapeRef) {
        ShapeRef::I32
    }
}

impl SerializeShape for core::sync::atomic::AtomicU32 {
    open spec fn emits(before: SerializeShapeContext, after: SerializeShapeContext, r: ShapeRef) -> bool {
        r@ == Shape::U32 && after == before
    }

    fn serialize_shape_in(_context: &mut SerializeShapeContext) -> (r: ShapeRef) {
        ShapeRef::U32
    }
}

impl DeserializeShape for core::sync::atomic::AtomicU32 {
    open spec fn accepts(before: DeserializeShapeContext, after: DeserializeShapeContext, r: ShapeRef) -> bool {
        r@ == Shape::U32 && after == before
    }

    fn deserialize_shape_in(_context: &mut DeserializeShapeContext) -> (r: ShapeRef) {
        ShapeRef::U32
    }
}

impl SerializeShape for core::sync::atomic::AtomicI64 {
    open spec fn emits(before: SerializeShapeContext, after: SerializeShapeContext, r: ShapeRef) -> bool {
        r@ == Shape::I64 && after == before
    }

    fn serialize_shape_in(_context: &mut SerializeShapeContext) -> (r: ShapeRef) {
        ShapeRef::I64
    }
}

impl DeserializeShape for core::sync::atomic::AtomicI64 {
    open spec fn accepts(before: DeserializeShapeContext, after: DeserializeShapeContext, r: ShapeRef) -> bool {
        r@ == Shape::I64 && after == before
    }

    fn deserialize_shape_in(_context: &mut DeserializeShapeContext) -> (r: ShapeRef) {
        ShapeRef::I64
    }
}

impl SerializeShape for core::sync::atomic::AtomicU64 {
    open spec fn emits(before: SerializeShapeContext, after: SerializeShapeContext, r: ShapeRef) -> bool {
        r@ == Shape::U64 && after == before
    }

    fn serialize_shape_in(_context: &mut SerializeShapeContext) -> (r: ShapeRef) {
        ShapeRef::U64
    }
}

impl DeserializeShape for core::sync::atomic::AtomicU64 {
    open spec fn accepts(before: DeserializeShapeContext, after: DeserializeShapeContext, r: ShapeRef) -> bool {
        r@ == Shape::U64 && after == before
    }

    fn deserialize_shape_in(_context: &mut DeserializeShapeContext) -> (r: ShapeRef) {
        ShapeRef::U64
    }
}

impl SerializeShape for core::sync::atomic::AtomicIsize {
    open spec fn emits(before: SerializeShapeContext, after: SerializeShapeContext, r: ShapeRef) -> bool {
        r@ == Shape::Isize && after == before
    }

    fn serialize_shape_in(_context: &mut SerializeShapeContext) -> (r: ShapeRef) {
        ShapeRef::Isize
    }
}

impl DeserializeShape for core::sync::atomic::AtomicIsize {
    open spec fn accepts(before: DeserializeShapeContext, after: DeserializeShapeContext, r: ShapeRef) -> bool {
        r@ == Shape::Isize && after == before
    }

    fn deserialize_shape_in(_context: &mut DeserializeShapeContext) -> (r: ShapeRef) {
        ShapeRef::Isize
    }
}

impl SerializeShape for core::sync::atomic::AtomicUsize {
    open spec fn emits(before: SerializeShapeContext, after: SerializeShapeContext, r: ShapeRef) -> bool {
        r@ == Shape::Usize && after == before
    }

    fn serialize_shape_in(_context: &mut SerializeShapeContext) -> (r: ShapeRef) {
        ShapeRef::Usize
    }
}

impl DeserializeShape for core::sync::atomic::AtomicUsize {
    open spec fn accepts(before: DeserializeShapeContext, after: DeserializeShapeContext, r: ShapeRef) -> bool {
        r@ == Shape::Usize && after == before
    }

    fn deserialize_shape_in(_context: &mut DeserializeShapeContext) -> (r: ShapeRef) {
        ShapeRef::Usize
    }
}

impl SerializeShape for str {
    open spec fn emits(before: SerializeShapeContext, after: SerializeShapeContext, r: ShapeRef) -> bool {
        r@ == Shape::String && after == before
    }

    fn serialize_shape_in(_context: &mut SerializeShapeContext) -> (r: ShapeRef) {
        ShapeRef::String
    }
}

impl SerializeShape for std::path::Path {
    open spec fn emits(before: SerializeShapeContext, after: SerializeShapeContext, r: ShapeRef) -> bool {
        r@ == Shape::String && after == before
    }

    fn serialize_shape_in(_context: &mut SerializeShapeContext) -> (r: ShapeRef) {
        ShapeRef::String
    }
}

impl SerializeShape for core::fmt::Arguments<'_> {
    open spec fn emits(before: SerializeShapeContext, after: SerializeShapeContext, r: ShapeRef) -> bool {
        r@ == Shape::String && after == before
    }

    fn serialize_shape_in(_context: &mut SerializeShapeContext) -> (r: ShapeRef) {
        ShapeRef::String
    }
}

} // verus!
