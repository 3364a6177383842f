//! Shapes of pointers, cells, locks and other transparent wrappers.
use vstd::prelude::*;

use crate::graph::{DeserializeShape, DeserializeShapeContext, SerializeShape, SerializeShapeContext};
use crate::model::Shape;
use crate::shape::ShapeRef;

verus! {

impl<T> SerializeShape for Box<T> where T: SerializeShape + ?Sized {
    open spec fn emits(before: SerializeShapeContext, after: SerializeShapeContext, r: ShapeRef) -> bool {
        T::emits(before, after, r)
    }

    fn serialize_shape_in(context: &mut SerializeShapeContext) -> (r: ShapeRef) {
        T::serialize_shape_in(context)
    }
}

impl<T> DeserializeShape for Box<T> where T: DeserializeShape {
    open spec fn accepts(before: DeserializeShapeContext, after: DeserializeShapeContext, r: ShapeRef) -> bool {
        T::accepts(before, after, r)
    }

    fn deserialize_shape_in(context: &mut DeserializeShapeContext) -> (r: ShapeRef) {
        T::deserialize_shape_in(context)
    }
}

impl<T> SerializeShape for core::cell::Cell<T> where T: Copy + SerializeShape {
    open spec fn emits(before: SerializeShapeContext, after: SerializeShapeContext, r: ShapeRef) -> bool {
        T::emits(before, after, r)
    }

    fn serialize_shape_in(context: &mut SerializeShapeContext) -> (r: ShapeRef) {
        T::serialize_shape_in(context)
    }
}

impl<T> DeserializeShape for core::cell::Cell<T> where T: Copy + DeserializeShape {
    open spec fn accepts(before: DeserializeShapeContext, after: DeserializeShapeContext, r: ShapeRef) -> bool {
        T::accepts(before, after, r)
    }

    fn deserialize_shape_in(context: &mut DeserializeShapeContext) -> (r: ShapeRef) {
        T::deserialize_shape_in(context)
    }
}

impl<T> SerializeShape for core::cell::RefCell<T> where T: SerializeShape + ?Sized {
    open spec fn emits(before: SerializeShapeContext, after: SerializeShapeContext, r: ShapeRef) -> bool {
        T::emits(before, after, r)
    }

    fn serialize_shape_in(context: &mut SerializeShapeContext) -> (r: ShapeRef) {
        T::serialize_shape_in(context)
    }
}

impl<T> DeserializeShape for core::cell::RefCell<T> where T: DeserializeShape {
    open spec fn accepts(before: DeserializeShapeContext, after: DeserializeShapeContext, r: ShapeRef) -> bool {
        T::accepts(before, after, r)
    }

    fn deserialize_shape_in(context: &mut DeserializeShapeContext) -> (r: ShapeRef) {
        T::deserialize_shape_in(context)
    }
}

impl<T> SerializeShape for core::num::Wrapping<T> where T: SerializeShape {
    open spec fn emits(before: SerializeShapeContext, after: SerializeShapeContext, r: ShapeRef) -> bool {
        T::emits(before, after, r)
    }

    fn serialize_shape_in(context: &mut SerializeShapeContext) -> (r: ShapeRef) {
        T::serialize_shape_in(context)
    }
}

impl<T> DeserializeShape for core::num::Wrapping<T> where T: DeserializeShape {
    open spec fn accepts(before: DeserializeShapeContext, after: DeserializeShapeContext, r: ShapeRef) -> bool {
        T::accepts(before, after, r)
    }

    fn deserialize_shape_in(context: &mut DeserializeShapeContext) -> (r: ShapeRef) {
        T::deserialize_shape_in(context)
    }
}

impl<T> SerializeShape for core::cmp::Reverse<T> where T: SerializeShape {
    open spec fn emits(before: SerializeShapeContext, after: SerializeShapeContext, r: ShapeRef) -> bool {
        T::emits(before, after, r)
    }

    fn serialize_shape_in(context: &mut SerializeShapeContext) -> (r: ShapeRef) {
        T::serialize_shape_in(context)
    }
}

impl<T> DeserializeShape for core::cmp::Reverse<T> where T: DeserializeShape {
    open spec fn accepts(before: DeserializeShapeContext, after: DeserializeShapeContext, r: ShapeRef) -> bool {
        T::accepts(before, after, r)
    }

    fn deserialize_shape_in(context: &mut DeserializeShapeContext) -> (r: ShapeRef) {
        T::deserialize_shape_in(context)
    }
}

impl<T> SerializeShape for std::sync::Mutex<T> where T: SerializeShape + ?Sized {
    open spec fn emits(before: SerializeShapeContext, after: SerializeShapeContext, r: ShapeRef) -> bool {
        T::emits(before, after, r)
    }

    fn serialize_shape_in(context: &mut SerializeShapeContext) -> (r: ShapeRef) {
        T::serialize_shape_in(context)
    }
}

impl<T> DeserializeShape for std::sync::Mutex<T> where T: DeserializeShape {
    open spec fn accepts(before: DeserializeShapeContext, after: DeserializeShapeContext, r: ShapeRef) -> bool {
        T::accepts(before, after, r)
    }

    fn deserialize_shape_in(context: &mut DeserializeShapeContext) -> (r: ShapeRef) {
        T::deserialize_shape_in(context)
    }
}

impl<T> SerializeShape for std::sync::RwLock<T> where T: SerializeShape + ?Sized {
    open spec fn emits(before: SerializeShapeContext, after: SerializeShapeContext, r: ShapeRef) -> bool {
        T::emits(before, after, r)
    }

    fn serialize_shape_in(context: &mut SerializeShapeContext) -> (r: ShapeRef) {
        T::serialize_shape_in(context)
    }
}

impl<T> DeserializeShape for std::sync::RwLock<T> where T: DeserializeShape {
    open spec fn accepts(before: DeserializeShapeContext, after: DeserializeShapeContext, r: ShapeRef) -> bool {
        T::accepts(before, after, r)
    }

    fn deserialize_shape_in(context: &mut DeserializeShapeContext) -> (r: ShapeRef) {
        T::deserialize_shape_in(context)
    }
}

impl<T> SerializeShape for &T where T: SerializeShape + ?Sized {
    open spec fn emits(before: SerializeShapeContext, after: SerializeShapeContext, r: ShapeRef) -> bool {
        T::emits(before, after, r)
    }

    fn serialize_shape_in(context: &mut SerializeShapeContext) -> (r: ShapeRef) {
        T::serialize_shape_in(context)
    }
}

impl<T> SerializeShape for &mut T where T: SerializeShape + ?Sized {
    open spec fn emits(before: SerializeShapeContext, after: SerializeShapeContext, r: ShapeRef) -> bool {
        T::emits(before, after, r)
    }

    fn serialize_shape_in(context: &mut SerializeShapeContext) -> (r: ShapeRef) {
        T::serialize_shape_in(context)
    }
}

impl DeserializeShape for &str {
    open spec fn accepts(before: DeserializeShapeContext, after: DeserializeShapeContext, r: ShapeRef) -> bool {
        r@ == Shape::String && after == before
    }

    fn deserialize_shape_in(_context: &mut DeserializeShapeContext) -> (r: ShapeRef) {
        ShapeRef::String
    }
}

impl DeserializeShape for &[u8] {
    open spec fn accepts(before: DeserializeShapeContext, after: DeserializeShapeContext, r: ShapeRef) -> bool {
        r@ == Shape::Bytes && after == before
    }

    fn deserialize_shape_in(_context: &mut DeserializeShapeContext) -> (r: ShapeRef) {
        ShapeRef::Bytes
    }
}

impl DeserializeShape for &std::path::Path {
    open spec fn accepts(before: DeserializeShapeContext, after: DeserializeShapeContext, r: ShapeRef) -> bool {
        r@ == Shape::String && after == before
    }

    fn deserialize_shape_in(_context: &mut DeserializeShapeContext) -> (r: ShapeRef) {
        ShapeRef::String
    }
}

impl DeserializeShape for Box<str> {
    open spec fn accepts(before: DeserializeShapeContext, after: DeserializeShapeContext, r: ShapeRef) -> bool {
        r@ == Shape::String && after == before
    }

    fn deserialize_shape_in(_context: &mut DeserializeShapeContext) -> (r: ShapeRef) {
        ShapeRef::String
    }
}

impl DeserializeShape for Box<std::path::Path> {
    open spec fn accepts(before: DeserializeShapeContext, after: DeserializeShapeContext, r: ShapeRef) -> bool {
        r@ == Shape::String && after == before
    }

    fn deserialize_shape_in(_context: &mut DeserializeShapeContext) -> (r: ShapeRef) {
        ShapeRef::String
    }
}

impl<T> DeserializeShape for Box<[T]> where T: DeserializeShape {
    open spec fn accepts(before: DeserializeShapeContext, after: DeserializeShapeContext, r: ShapeRef) -> bool {
        match r {
            ShapeRef::Sequence(item) => T::accepts(before, after, *item),
            _ => false,
        }
    }

    fn deserialize_shape_in(context: &mut DeserializeShapeContext) -> (r: ShapeRef) {
        ShapeRef::Sequence(Box::new(T::deserialize_shape_in(context)))
    }
}

impl<T> SerializeShape for core::num::Saturating<T> where T: SerializeShape {
    open spec fn emits(before: SerializeShapeContext, after: SerializeShapeContext, r: ShapeRef) -> bool {
        T::emits(before, after, r)
    }

    fn serialize_shape_in(context: &mut SerializeShapeContext) -> (r: ShapeRef) {
        T::serialize_shape_in(context)
    }
}

impl DeserializeShape for core::num::Saturating<i8> {
    open spec fn accepts(before: DeserializeShapeContext, after: DeserializeShapeContext, r: ShapeRef) -> bool {
        <i8 as DeserializeShape>::accepts(before, after, r)
    }

    fn deserialize_shape_in(context: &mut DeserializeShapeContext) -> (r: ShapeRef) {
        <i8 as DeserializeShape>::deserialize_shape_in(context)
    }
}

impl DeserializeShape for core::num::Saturating<i16> {
    open spec fn accepts(before: DeserializeShapeContext, after: DeserializeShapeContext, r: ShapeRef) -> bool {
        <i16 as DeserializeShape>::accepts(before, after, r)
    }

    fn deserialize_shape_in(context: &mut DeserializeShapeContext) -> (r: ShapeRef) {
        <i16 as DeserializeShape>::deserialize_shape_in(context)
    }
}

impl DeserializeShape for core::num::Saturating<i32> {
    open spec fn accepts(before: DeserializeShapeContext, after: DeserializeShapeContext, r: ShapeRef) -> bool {
        <i32 as DeserializeShape>::accepts(before, after, r)
    }

    fn deserialize_shape_in(context: &mut DeserializeShapeContext) -> (r: ShapeRef) {
        <i32 as DeserializeShape>::deserialize_shape_in(context)
    }
}

impl DeserializeShape for core::num::Saturating<i64> {
    open spec fn accepts(before: DeserializeShapeContext, after: DeserializeShapeContext, r: ShapeRef) -> bool {
        <i64 as DeserializeShape>::accepts(before, after, r)
    }

    fn deserialize_shape_in(context: &mut DeserializeShapeContext) -> (r: ShapeRef) {
        <i64 as DeserializeShape>::deserialize_shape_in(context)
    }
}

impl DeserializeShape for core::num::Saturating<i128> {
    open spec fn accepts(before: DeserializeShapeContext, after: DeserializeShapeContext, r: ShapeRef) -> bool {
        <i128 as DeserializeShape>::accepts(before, after, r)
    }

    fn deserialize_shape_in(context: &mut DeserializeShapeContext) -> (r: ShapeRef) {
        <i128 as DeserializeShape>::deserialize_shape_in(context)
    }
}

impl DeserializeShape for core::num::Saturating<isize> {
    open spec fn accepts(before: DeserializeShapeContext, after: DeserializeShapeContext, r: ShapeRef) -> bool {
        <isize as DeserializeShape>::accepts(before, after, r)
    }

    fn deserialize_shape_in(context: &mut DeserializeShapeContext) -> (r: ShapeRef) {
        <isize as DeserializeShape>::deserialize_shape_in(context)
    }
}

impl DeserializeShape for core::num::Saturating<u8> {
    open spec fn accepts(before: DeserializeShapeContext, after: DeserializeShapeContext, r: ShapeRef) -> bool {
        <u8 as DeserializeShape>::accepts(before, after, r)
    }

    fn deserialize_shape_in(context: &mut DeserializeShapeContext) -> (r: ShapeRef) {
        <u8 as DeserializeShape>::deserialize_shape_in(context)
    }
}

impl DeserializeShape for core::num::Saturating<u16> {
    open spec fn accepts(before: DeserializeShapeContext, after: DeserializeShapeContext, r: ShapeRef) -> bool {
        <u16 as DeserializeShape>::accepts(before, after, r)
    }

    fn deserialize_shape_in(context: &mut DeserializeShapeContext) -> (r: ShapeRef) {
        <u16 as DeserializeShape>::deserialize_shape_in(context)
    }
}

impl DeserializeShape for core::num::Saturating<u32> {
    open spec fn accepts(before: DeserializeShapeContext, after: DeserializeShapeContext, r: ShapeRef) -> bool {
        <u32 as DeserializeShape>::accepts(before, after, r)
    }

    fn deserialize_shape_in(context: &mut DeserializeShapeContext) -> (r: ShapeRef) {
        <u32 as DeserializeShape>::deserialize_shape_in(context)
    }
}

impl DeserializeShape for core::num::Saturating<u64> {
    open spec fn accepts(before: DeserializeShapeContext, after: DeserializeShapeContext, r: ShapeRef) -> bool {
        <u64 as DeserializeShape>::accepts(before, after, r)
    }

    fn deserialize_shape_in(context: &mut DeserializeShapeContext) -> (r: ShapeRef) {
        <u64 as DeserializeShape>::deserialize_shape_in(context)
    }
}

impl DeserializeShape for core::num::Saturating<u128> {
    open spec fn accepts(before: DeserializeShapeContext, after: DeserializeShapeContext, r: ShapeRef) -> bool {
        <u128 as DeserializeShape>::accepts(before, after, r)
    }

    fn deserialize_shape_in(context: &mut DeserializeShapeContext) -> (r: ShapeRef) {
        <u128 as DeserializeShape>::deserialize_shape_in(context)
    }
}

impl DeserializeShape for core::num::Saturating<usize> {
    open spec fn accepts(before: DeserializeShapeContext, after: DeserializeShapeContext, r: ShapeRef) -> bool {
        <usize as DeserializeShape>::accepts(before, after, r)
    }

    fn deserialize_shape_in(context: &mut DeserializeShapeContext) -> (r: ShapeRef) {
        <usize as DeserializeShape>::deserialize_shape_in(context)
    }
}

impl<T> SerializeShape for std::rc::Rc<T> where T: SerializeShape + ?Sized {
    open spec fn emits(before: SerializeShapeContext, after: SerializeShapeContext, r: ShapeRef) -> bool {
        T::emits(before, after, r)
    }

    fn serialize_shape_in(context: &mut SerializeShapeContext) -> (r: ShapeRef) {
        T::serialize_shape_in(context)
    }
}

impl<T> DeserializeShape for std::rc::Rc<T> where T: ?Sized, Box<T>: DeserializeShape {
    open spec fn accepts(before: DeserializeShapeContext, after: DeserializeShapeContext, r: ShapeRef) -> bool {
        <Box<T> as DeserializeShape>::accepts(before, after, r)
    }

    fn deserialize_shape_in(context: &mut DeserializeShapeContext) -> (r: ShapeRef) {
        <Box<T> as DeserializeShape>::deserialize_shape_in(context)
    }
}

impl<T> SerializeShape for std::sync::Arc<T> where T: SerializeShape + ?Sized {
    open spec fn emits(before: SerializeShapeContext, after: SerializeShapeContext, r: ShapeRef) -> bool {
        T::emits(before, after, r)
    }

    fn serialize_shape_in(context: &mut SerializeShapeContext) -> (r: ShapeRef) {
        T::serialize_shape_in(context)
    }
}

impl<T> DeserializeShape for std::sync::Arc<T> where T: ?Sized, Box<T>: DeserializeShape {
    open spec fn accepts(before: DeserializeShapeContext, after: DeserializeShapeContext, r: ShapeRef) -> bool {
        <Box<T> as DeserializeShape>::accepts(before, after, r)
    }

    fn deserialize_shape_in(context: &mut DeserializeShapeContext) -> (r: ShapeRef) {
        <Box<T> as DeserializeShape>::deserialize_shape_in(context)
    }
}

impl<T> SerializeShape for std::borrow::Cow<'_, T> where T: std::borrow::ToOwned + SerializeShape + ?Sized {
    open spec fn emits(before: SerializeShapeContext, after: SerializeShapeContext, r: ShapeRef) -> bool {
        T::emits(before, after, r)
    }

    fn serialize_shape_in(context: &mut SerializeShapeContext) -> (r: ShapeRef) {
        T::serialize_shape_in(context)
    }
}

impl<T> DeserializeShape for std::borrow::Cow<'_, T> where T: std::borrow::ToOwned + ?Sized, T::Owned: DeserializeShape {
    open spec fn accepts(before: DeserializeShapeContext, after: DeserializeShapeContext, r: ShapeRef) -> bool {
        <T::Owned as DeserializeShape>::accepts(before, after, r)
    }

    fn deserialize_shape_in(context: &mut DeserializeShapeContext) -> (r: ShapeRef) {
        <T::Owned as DeserializeShape>::deserialize_shape_in(context)
    }
}

impl<T> SerializeShape for core::marker::PhantomData<T> {
    open spec fn emits(before: SerializeShapeContext, after: SerializeShapeContext, r: ShapeRef) -> bool {
        r@ == Shape::Unit && after == before
    }

    fn serialize_shape_in(_context: &mut SerializeShapeContext) -> (r: ShapeRef) {
        ShapeRef::Unit
    }
}

impl<T> DeserializeShape for core::marker::PhantomData<T> {
    open spec fn accepts(before: DeserializeShapeContext, after: DeserializeShapeContext, r: ShapeRef) -> bool {
        r@ == Shape::Unit && after == before
    }

    fn deserialize_shape_in(_context: &mut DeserializeShapeContext) -> (r: ShapeRef) {
        ShapeRef::Unit
    }
}

} // verus!
