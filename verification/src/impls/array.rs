//! Shapes of fixed-size arrays of the lengths Serde supports, 0 through 32.
use vstd::prelude::*;

use crate::graph::{DeserializeShape, DeserializeShapeContext, SerializeShape, SerializeShapeContext};
use crate::model::{OpaqueModel, OpaqueReason, Shape};
use crate::shape::{OpaqueShape, ShapeRef};

verus! {

/// The opaque item of a zero-length array, which holds no values to observe.
fn unobserved_empty_array_item<T>() -> (r: ShapeRef)
    ensures
        r@ == Shape::Opaque(OpaqueModel {
            type_label: "zero-length array item"@,
            reason: OpaqueReason::Unobserved,
            detail: Some("zero-length array has no elements"@),
        }),
{
    ShapeRef::Opaque(
        OpaqueShape {
            type_label: "zero-length array item",
            reason: OpaqueReason::Unobserved,
            detail: Some("zero-length array has no elements"),
        },
    )
}

/// The shape of a fixed-size array.
fn array_shape(item: ShapeRef, len: usize) -> (r: ShapeRef)
    ensures
        (r == ShapeRef::Array { item: Box::new(item), len }),
{
    ShapeRef::Array { item: Box::new(item), len }
}

impl<T> SerializeShape for [T; 0] {
    open spec fn emits(before: SerializeShapeContext, after: SerializeShapeContext, r: ShapeRef) -> bool {
        match r {
            ShapeRef::Array { item, len } => len == 0 && (*item)@ == Shape::Opaque(
                OpaqueModel {
                    type_label: "zero-length array item"@,
                    reason: OpaqueReason::Unobserved,
                    detail: Some("zero-length array has no elements"@),
                },
            ) && after == before,
            _ => false,
        }
    }

    fn serialize_shape_in(_context: &mut SerializeShapeContext) -> (r: ShapeRef) {
        array_shape(unobserved_empty_array_item::<T>(), 0)
    }
}

impl<T> DeserializeShape for [T; 0] {
    open spec fn accepts(before: DeserializeShapeContext, after: DeserializeShapeContext, r: ShapeRef) -> bool {
        match r {
            ShapeRef::Array { item, len } => len == 0 && (*item)@ == Shape::Opaque(
                OpaqueModel {
                    type_label: "zero-length array item"@,
                    reason: OpaqueReason::Unobserved,
                    detail: Some("zero-length array has no elements"@),
                },
            ) && after == before,
            _ => false,
        }
    }

    fn deserialize_shape_in(_context: &mut DeserializeShapeContext) -> (r: ShapeRef) {
        array_shape(unobserved_empty_array_item::<T>(), 0)
    }
}

impl<T> SerializeShape for [T; 1] where T: SerializeShape {
    open spec fn emits(before: SerializeShapeContext, after: SerializeShapeContext, r: ShapeRef) -> bool {
        match r {
            ShapeRef::Array { item, len } => len == 1 && T::emits(before, after, *item),
            _ => false,
        }
    }

    fn serialize_shape_in(context: &mut SerializeShapeContext) -> (r: ShapeRef) {
        array_shape(T::serialize_shape_in(context), 1)
    }
}

impl<T> DeserializeShape for [T; 1] where T: DeserializeShape {
    open spec fn accepts(before: DeserializeShapeContext, after: DeserializeShapeContext, r: ShapeRef) -> bool {
        match r {
            ShapeRef::Array { item, len } => len == 1 && T::accepts(before, after, *item),
            _ => false,
        }
    }

    fn deserialize_shape_in(context: &mut DeserializeShapeContext) -> (r: ShapeRef) {
        array_shape(T::deserialize_shape_in(context), 1)
    }
}

impl<T> SerializeShape for [T; 2] where T: SerializeShape {
    open spec fn emits(before: SerializeShapeContext, after: SerializeShapeContext, r: ShapeRef) -> bool {
        match r {
            ShapeRef::Array { item, len } => len == 2 && T::emits(before, after, *item),
            _ => false,
        }
    }

    fn serialize_shape_in(context: &mut SerializeShapeContext) -> (r: ShapeRef) {
        array_shape(T::serialize_shape_in(context), 2)
    }
}

impl<T> DeserializeShape for [T; 2] where T: DeserializeShape {
    open spec fn accepts(before: DeserializeShapeContext, after: DeserializeShapeContext, r: ShapeRef) -> bool {
        match r {
            ShapeRef::Array { item, len } => len == 2 && T::accepts(before, after, *item),
            _ => false,
        }
    }

    fn deserialize_shape_in(context: &mut DeserializeShapeContext) -> (r: ShapeRef) {
        array_shape(T::deserialize_shape_in(context), 2)
    }
}

impl<T> SerializeShape for [T; 3] where T: SerializeShape {
    open spec fn emits(before: SerializeShapeContext, after: SerializeShapeContext, r: ShapeRef) -> bool {
        match r {
            ShapeRef::Array { item, len } => len == 3 && T::emits(before, after, *item),
            _ => false,
        }
    }

    fn serialize_shape_in(context: &mut SerializeShapeContext) -> (r: ShapeRef) {
        array_shape(T::serialize_shape_in(context), 3)
    }
}

impl<T> DeserializeShape for [T; 3] where T: DeserializeShape {
    open spec fn accepts(before: DeserializeShapeContext, after: DeserializeShapeContext, r: ShapeRef) -> bool {
        match r {
            ShapeRef::Array { item, len } => len == 3 && T::accepts(before, after, *item),
            _ => false,
        }
    }

    fn deserialize_shape_in(context: &mut DeserializeShapeContext) -> (r: ShapeRef) {
        array_shape(T::deserialize_shape_in(context), 3)
    }
}

impl<T> SerializeShape for [T; 4] where T: SerializeShape {
    open spec fn emits(before: SerializeShapeContext, after: SerializeShapeContext, r: ShapeRef) -> bool {
        match r {
            ShapeRef::Array { item, len } => len == 4 && T::emits(before, after, *item),
            _ => false,
        }
    }

    fn serialize_shape_in(context: &mut SerializeShapeContext) -> (r: ShapeRef) {
        array_shape(T::serialize_shape_in(context), 4)
    }
}

impl<T> DeserializeShape for [T; 4] where T: DeserializeShape {
    open spec fn accepts(before: DeserializeShapeContext, after: DeserializeShapeContext, r: ShapeRef) -> bool {
        match r {
            ShapeRef::Array { item, len } => len == 4 && T::accepts(before, after, *item),
            _ => false,
        }
    }

    fn deserialize_shape_in(context: &mut DeserializeShapeContext) -> (r: ShapeRef) {
        array_shape(T::deserialize_shape_in(context), 4)
    }
}

impl<T> SerializeShape for [T; 5] where T: SerializeShape {
    open spec fn emits(before: SerializeShapeContext, after: SerializeShapeContext, r: ShapeRef) -> bool {
        match r {
            ShapeRef::Array { item, len } => len == 5 && T::emits(before, after, *item),
            _ => false,
        }
    }

    fn serialize_shape_in(context: &mut SerializeShapeContext) -> (r: ShapeRef) {
        array_shape(T::serialize_shape_in(context), 5)
    }
}

impl<T> DeserializeShape for [T; 5] where T: DeserializeShape {
    open spec fn accepts(before: DeserializeShapeContext, after: DeserializeShapeContext, r: ShapeRef) -> bool {
        match r {
            ShapeRef::Array { item, len } => len == 5 && T::accepts(before, after, *item),
            _ => false,
        }
    }

    fn deserialize_shape_in(context: &mut DeserializeShapeContext) -> (r: ShapeRef) {
        array_shape(T::deserialize_shape_in(context), 5)
    }
}

impl<T> SerializeShape for [T; 6] where T: SerializeShape {
    open spec fn emits(before: SerializeShapeContext, after: SerializeShapeContext, r: ShapeRef) -> bool {
        match r {
            ShapeRef::Array { item, len } => len == 6 && T::emits(before, after, *item),
            _ => false,
        }
    }

    fn serialize_shape_in(context: &mut SerializeShapeContext) -> (r: ShapeRef) {
        array_shape(T::serialize_shape_in(context), 6)
    }
}

impl<T> DeserializeShape for [T; 6] where T: DeserializeShape {
    open spec fn accepts(before: DeserializeShapeContext, after: DeserializeShapeContext, r: ShapeRef) -> bool {
        match r {
            ShapeRef::Array { item, len } => len == 6 && T::accepts(before, after, *item),
            _ => false,
        }
    }

    fn deserialize_shape_in(context: &mut DeserializeShapeContext) -> (r: ShapeRef) {
        array_shape(T::deserialize_shape_in(context), 6)
    }
}

impl<T> SerializeShape for [T; 7] where T: SerializeShape {
    open spec fn emits(before: SerializeShapeContext, after: SerializeShapeContext, r: ShapeRef) -> bool {
        match r {
            ShapeRef::Array { item, len } => len == 7 && T::emits(before, after, *item),
            _ => false,
        }
    }

    fn serialize_shape_in(context: &mut SerializeShapeContext) -> (r: ShapeRef) {
        array_shape(T::serialize_shape_in(context), 7)
    }
}

impl<T> DeserializeShape for [T; 7] where T: DeserializeShape {
    open spec fn accepts(before: DeserializeShapeContext, after: DeserializeShapeContext, r: ShapeRef) -> bool {
        match r {
            ShapeRef::Array { item, len } => len == 7 && T::accepts(before, after, *item),
            _ => false,
        }
    }

    fn deserialize_shape_in(context: &mut DeserializeShapeContext) -> (r: ShapeRef) {
        array_shape(T::deserialize_shape_in(context), 7)
    }
}

impl<T> SerializeShape for [T; 8] where T: SerializeShape {
    open spec fn emits(before: SerializeShapeContext, after: SerializeShapeContext, r: ShapeRef) -> bool {
        match r {
            ShapeRef::Array { item, len } => len == 8 && T::emits(before, after, *item),
            _ => false,
        }
    }

    fn serialize_shape_in(context: &mut SerializeShapeContext) -> (r: ShapeRef) {
        array_shape(T::serialize_shape_in(context), 8)
    }
}

impl<T> DeserializeShape for [T; 8] where T: DeserializeShape {
    open spec fn accepts(before: DeserializeShapeContext, after: DeserializeShapeContext, r: ShapeRef) -> bool {
        match r {
            ShapeRef::Array { item, len } => len == 8 && T::accepts(before, after, *item),
            _ => false,
        }
    }

    fn deserialize_shape_in(context: &mut DeserializeShapeContext) -> (r: ShapeRef) {
        array_shape(T::deserialize_shape_in(context), 8)
    }
}

impl<T> SerializeShape for [T; 9] where T: SerializeShape {
    open spec fn emits(before: SerializeShapeContext, after: SerializeShapeContext, r: ShapeRef) -> bool {
        match r {
            ShapeRef::Array { item, len } => len == 9 && T::emits(before, after, *item),
            _ => false,
        }
    }

    fn serialize_shape_in(context: &mut SerializeShapeContext) -> (r: ShapeRef) {
        array_shape(T::serialize_shape_in(context), 9)
    }
}

impl<T> DeserializeShape for [T; 9] where T: DeserializeShape {
    open spec fn accepts(before: DeserializeShapeContext, after: DeserializeShapeContext, r: ShapeRef) -> bool {
        match r {
            ShapeRef::Array { item, len } => len == 9 && T::accepts(before, after, *item),
            _ => false,
        }
    }

    fn deserialize_shape_in(context: &mut DeserializeShapeContext) -> (r: ShapeRef) {
        array_shape(T::deserialize_shape_in(context), 9)
    }
}

impl<T> SerializeShape for [T; 10] where T: SerializeShape {
    open spec fn emits(before: SerializeShapeContext, after: SerializeShapeContext, r: ShapeRef) -> bool {
        match r {
            ShapeRef::Array { item, len } => len == 10 && T::emits(before, after, *item),
            _ => false,
        }
    }

    fn serialize_shape_in(context: &mut SerializeShapeContext) -> (r: ShapeRef) {
        array_shape(T::serialize_shape_in(context), 10)
    }
}

impl<T> DeserializeShape for [T; 10] where T: DeserializeShape {
    open spec fn accepts(before: DeserializeShapeContext, after: DeserializeShapeContext, r: ShapeRef) -> bool {
        match r {
            ShapeRef::Array { item, len } => len == 10 && T::accepts(before, after, *item),
            _ => false,
        }
    }

    fn deserialize_shape_in(context: &mut DeserializeShapeContext) -> (r: ShapeRef) {
        array_shape(T::deserialize_shape_in(context), 10)
    }
}

impl<T> SerializeShape for [T; 11] where T: SerializeShape {
    open spec fn emits(before: SerializeShapeContext, after: SerializeShapeContext, r: ShapeRef) -> bool {
        match r {
            ShapeRef::Array { item, len } => len == 11 && T::emits(before, after, *item),
            _ => false,
        }
    }

    fn serialize_shape_in(context: &mut SerializeShapeContext) -> (r: ShapeRef) {
        array_shape(T::serialize_shape_in(context), 11)
    }
}

impl<T> DeserializeShape for [T; 11] where T: DeserializeShape {
    open spec fn accepts(before: DeserializeShapeContext, after: DeserializeShapeContext, r: ShapeRef) -> bool {
        match r {
            ShapeRef::Array { item, len } => len == 11 && T::accepts(before, after, *item),
            _ => false,
        }
    }

    fn deserialize_shape_in(context: &mut DeserializeShapeContext) -> (r: ShapeRef) {
        array_shape(T::deserialize_shape_in(context), 11)
    }
}

impl<T> SerializeShape for [T; 12] where T: SerializeShape {
    open spec fn emits(before: SerializeShapeContext, after: SerializeShapeContext, r: ShapeRef) -> bool {
        match r {
            ShapeRef::Array { item, len } => len == 12 && T::emits(before, after, *item),
            _ => false,
        }
    }

    fn serialize_shape_in(context: &mut SerializeShapeContext) -> (r: ShapeRef) {
        array_shape(T::serialize_shape_in(context), 12)
    }
}

impl<T> DeserializeShape for [T; 12] where T: DeserializeShape {
    open spec fn accepts(before: DeserializeShapeContext, after: DeserializeShapeContext, r: ShapeRef) -> bool {
        match r {
            ShapeRef::Array { item, len } => len == 12 && T::accepts(before, after, *item),
            _ => false,
        }
    }

    fn deserialize_shape_in(context: &mut DeserializeShapeContext) -> (r: ShapeRef) {
        array_shape(T::deserialize_shape_in(context), 12)
    }
}

impl<T> SerializeShape for [T; 13] where T: SerializeShape {
    open spec fn emits(before: SerializeShapeContext, after: SerializeShapeContext, r: ShapeRef) -> bool {
        match r {
            ShapeRef::Array { item, len } => len == 13 && T::emits(before, after, *item),
            _ => false,
        }
    }

    fn serialize_shape_in(context: &mut SerializeShapeContext) -> (r: ShapeRef) {
        array_shape(T::serialize_shape_in(context), 13)
    }
}

impl<T> DeserializeShape for [T; 13] where T: DeserializeShape {
    open spec fn accepts(before: DeserializeShapeContext, after: DeserializeShapeContext, r: ShapeRef) -> bool {
        match r {
            ShapeRef::Array { item, len } => len == 13 && T::accepts(before, after, *item),
            _ => false,
        }
    }

    fn deserialize_shape_in(context: &mut DeserializeShapeContext) -> (r: ShapeRef) {
        array_shape(T::deserialize_shape_in(context), 13)
    }
}

impl<T> SerializeShape for [T; 14] where T: SerializeShape {
    open spec fn emits(before: SerializeShapeContext, after: SerializeShapeContext, r: ShapeRef) -> bool {
        match r {
            ShapeRef::Array { item, len } => len == 14 && T::emits(before, after, *item),
            _ => false,
        }
    }

    fn serialize_shape_in(context: &mut SerializeShapeContext) -> (r: ShapeRef) {
        array_shape(T::serialize_shape_in(context), 14)
    }
}

impl<T> DeserializeShape for [T; 14] where T: DeserializeShape {
    open spec fn accepts(before: DeserializeShapeContext, after: DeserializeShapeContext, r: ShapeRef) -> bool {
        match r {
            ShapeRef::Array { item, len } => len == 14 && T::accepts(before, after, *item),
            _ => false,
        }
    }

    fn deserialize_shape_in(context: &mut DeserializeShapeContext) -> (r: ShapeRef) {
        array_shape(T::deserialize_shape_in(context), 14)
    }
}

impl<T> SerializeShape for [T; 15] where T: SerializeShape {
    open spec fn emits(before: SerializeShapeContext, after: SerializeShapeContext, r: ShapeRef) -> bool {
        match r {
            ShapeRef::Array { item, len } => len == 15 && T::emits(before, after, *item),
            _ => false,
        }
    }

    fn serialize_shape_in(context: &mut SerializeShapeContext) -> (r: ShapeRef) {
        array_shape(T::serialize_shape_in(context), 15)
    }
}

impl<T> DeserializeShape for [T; 15] where T: DeserializeShape {
    open spec fn accepts(before: DeserializeShapeContext, after: DeserializeShapeContext, r: ShapeRef) -> bool {
        match r {
            ShapeRef::Array { item, len } => len == 15 && T::accepts(before, after, *item),
            _ => false,
        }
    }

    fn deserialize_shape_in(context: &mut DeserializeShapeContext) -> (r: ShapeRef) {
        array_shape(T::deserialize_shape_in(context), 15)
    }
}

impl<T> SerializeShape for [T; 16] where T: SerializeShape {
    open spec fn emits(before: SerializeShapeContext, after: SerializeShapeContext, r: ShapeRef) -> bool {
        match r {
            ShapeRef::Array { item, len } => len == 16 && T::emits(before, after, *item),
            _ => false,
        }
    }

    fn serialize_shape_in(context: &mut SerializeShapeContext) -> (r: ShapeRef) {
        array_shape(T::serialize_shape_in(context), 16)
    }
}

impl<T> DeserializeShape for [T; 16] where T: DeserializeShape {
    open spec fn accepts(before: DeserializeShapeContext, after: DeserializeShapeContext, r: ShapeRef) -> bool {
        match r {
            ShapeRef::Array { item, len } => len == 16 && T::accepts(before, after, *item),
            _ => false,
        }
    }

    fn deserialize_shape_in(context: &mut DeserializeShapeContext) -> (r: ShapeRef) {
        array_shape(T::deserialize_shape_in(context), 16)
    }
}

impl<T> SerializeShape for [T; 17] where T: SerializeShape {
    open spec fn emits(before: SerializeShapeContext, after: SerializeShapeContext, r: ShapeRef) -> bool {
        match r {
            ShapeRef::Array { item, len } => len == 17 && T::emits(before, after, *item),
            _ => false,
        }
    }

    fn serialize_shape_in(context: &mut SerializeShapeContext) -> (r: ShapeRef) {
        array_shape(T::serialize_shape_in(context), 17)
    }
}

impl<T> DeserializeShape for [T; 17] where T: DeserializeShape {
    open spec fn accepts(before: DeserializeShapeContext, after: DeserializeShapeContext, r: ShapeRef) -> bool {
        match r {
            ShapeRef::Array { item, len } => len == 17 && T::accepts(before, after, *item),
            _ => false,
        }
    }

    fn deserialize_shape_in(context: &mut DeserializeShapeContext) -> (r: ShapeRef) {
        array_shape(T::deserialize_shape_in(context), 17)
    }
}

impl<T> SerializeShape for [T; 18] where T: SerializeShape {
    open spec fn emits(before: SerializeShapeContext, after: SerializeShapeContext, r: ShapeRef) -> bool {
        match r {
            ShapeRef::Array { item, len } => len == 18 && T::emits(before, after, *item),
            _ => false,
        }
    }

    fn serialize_shape_in(context: &mut SerializeShapeContext) -> (r: ShapeRef) {
        array_shape(T::serialize_shape_in(context), 18)
    }
}

impl<T> DeserializeShape for [T; 18] where T: DeserializeShape {
    open spec fn accepts(before: DeserializeShapeContext, after: DeserializeShapeContext, r: ShapeRef) -> bool {
        match r {
            ShapeRef::Array { item, len } => len == 18 && T::accepts(before, after, *item),
            _ => false,
        }
    }

    fn deserialize_shape_in(context: &mut DeserializeShapeContext) -> (r: ShapeRef) {
        array_shape(T::deserialize_shape_in(context), 18)
    }
}

impl<T> SerializeShape for [T; 19] where T: SerializeShape {
    open spec fn emits(before: SerializeShapeContext, after: SerializeShapeContext, r: ShapeRef) -> bool {
        match r {
            ShapeRef::Array { item, len } => len == 19 && T::emits(before, after, *item),
            _ => false,
        }
    }

    fn serialize_shape_in(context: &mut SerializeShapeContext) -> (r: ShapeRef) {
        array_shape(T::serialize_shape_in(context), 19)
    }
}

impl<T> DeserializeShape for [T; 19] where T: DeserializeShape {
    open spec fn accepts(before: DeserializeShapeContext, after: DeserializeShapeContext, r: ShapeRef) -> bool {
        match r {
            ShapeRef::Array { item, len } => len == 19 && T::accepts(before, after, *item),
            _ => false,
        }
    }

    fn deserialize_shape_in(context: &mut DeserializeShapeContext) -> (r: ShapeRef) {
        array_shape(T::deserialize_shape_in(context), 19)
    }
}

impl<T> SerializeShape for [T; 20] where T: SerializeShape {
    open spec fn emits(before: SerializeShapeContext, after: SerializeShapeContext, r: ShapeRef) -> bool {
        match r {
            ShapeRef::Array { item, len } => len == 20 && T::emits(before, after, *item),
            _ => false,
        }
    }

    fn serialize_shape_in(context: &mut SerializeShapeContext) -> (r: ShapeRef) {
        array_shape(T::serialize_shape_in(context), 20)
    }
}

impl<T> DeserializeShape for [T; 20] where T: DeserializeShape {
    open spec fn accepts(before: DeserializeShapeContext, after: DeserializeShapeContext, r: ShapeRef) -> bool {
        match r {
            ShapeRef::Array { item, len } => len == 20 && T::accepts(before, after, *item),
            _ => false,
        }
    }

    fn deserialize_shape_in(context: &mut DeserializeShapeContext) -> (r: ShapeRef) {
        array_shape(T::deserialize_shape_in(context), 20)
    }
}

impl<T> SerializeShape for [T; 21] where T: SerializeShape {
    open spec fn emits(before: SerializeShapeContext, after: SerializeShapeContext, r: ShapeRef) -> bool {
        match r {
            ShapeRef::Array { item, len } => len == 21 && T::emits(before, after, *item),
            _ => false,
        }
    }

    fn serialize_shape_in(context: &mut SerializeShapeContext) -> (r: ShapeRef) {
        array_shape(T::serialize_shape_in(context), 21)
    }
}

impl<T> DeserializeShape for [T; 21] where T: DeserializeShape {
    open spec fn accepts(before: DeserializeShapeContext, after: DeserializeShapeContext, r: ShapeRef) -> bool {
        match r {
            ShapeRef::Array { item, len } => len == 21 && T::accepts(before, after, *item),
            _ => false,
        }
    }

    fn deserialize_shape_in(context: &mut DeserializeShapeContext) -> (r: ShapeRef) {
        array_shape(T::deserialize_shape_in(context), 21)
    }
}

impl<T> SerializeShape for [T; 22] where T: SerializeShape {
    open spec fn emits(before: SerializeShapeContext, after: SerializeShapeContext, r: ShapeRef) -> bool {
        match r {
            ShapeRef::Array { item, len } => len == 22 && T::emits(before, after, *item),
            _ => false,
        }
    }

    fn serialize_shape_in(context: &mut SerializeShapeContext) -> (r: ShapeRef) {
        array_shape(T::serialize_shape_in(context), 22)
    }
}

impl<T> DeserializeShape for [T; 22] where T: DeserializeShape {
    open spec fn accepts(before: DeserializeShapeContext, after: DeserializeShapeContext, r: ShapeRef) -> bool {
        match r {
            ShapeRef::Array { item, len } => len == 22 && T::accepts(before, after, *item),
            _ => false,
        }
    }

    fn deserialize_shape_in(context: &mut DeserializeShapeContext) -> (r: ShapeRef) {
        array_shape(T::deserialize_shape_in(context), 22)
    }
}

impl<T> SerializeShape for [T; 23] where T: SerializeShape {
    open spec fn emits(before: SerializeShapeContext, after: SerializeShapeContext, r: ShapeRef) -> bool {
        match r {
            ShapeRef::Array { item, len } => len == 23 && T::emits(before, after, *item),
            _ => false,
        }
    }

    fn serialize_shape_in(context: &mut SerializeShapeContext) -> (r: ShapeRef) {
        array_shape(T::serialize_shape_in(context), 23)
    }
}

impl<T> DeserializeShape for [T; 23] where T: DeserializeShape {
    open spec fn accepts(before: DeserializeShapeContext, after: DeserializeShapeContext, r: ShapeRef) -> bool {
        match r {
            ShapeRef::Array { item, len } => len == 23 && T::accepts(before, after, *item),
            _ => false,
        }
    }

    fn deserialize_shape_in(context: &mut DeserializeShapeContext) -> (r: ShapeRef) {
        array_shape(T::deserialize_shape_in(context), 23)
    }
}

impl<T> SerializeShape for [T; 24] where T: SerializeShape {
    open spec fn emits(before: SerializeShapeContext, after: SerializeShapeContext, r: ShapeRef) -> bool {
        match r {
            ShapeRef::Array { item, len } => len == 24 && T::emits(before, after, *item),
            _ => false,
        }
    }

    fn serialize_shape_in(context: &mut SerializeShapeContext) -> (r: ShapeRef) {
        array_shape(T::serialize_shape_in(context), 24)
    }
}

impl<T> DeserializeShape for [T; 24] where T: DeserializeShape {
    open spec fn accepts(before: DeserializeShapeContext, after: DeserializeShapeContext, r: ShapeRef) -> bool {
        match r {
            ShapeRef::Array { item, len } => len == 24 && T::accepts(before, after, *item),
            _ => false,
        }
    }

    fn deserialize_shape_in(context: &mut DeserializeShapeContext) -> (r: ShapeRef) {
        array_shape(T::deserialize_shape_in(context), 24)
    }
}

impl<T> SerializeShape for [T; 25] where T: SerializeShape {
    open spec fn emits(before: SerializeShapeContext, after: SerializeShapeContext, r: ShapeRef) -> bool {
        match r {
            ShapeRef::Array { item, len } => len == 25 && T::emits(before, after, *item),
            _ => false,
        }
    }

    fn serialize_shape_in(context: &mut SerializeShapeContext) -> (r: ShapeRef) {
        array_shape(T::serialize_shape_in(context), 25)
    }
}

impl<T> DeserializeShape for [T; 25] where T: DeserializeShape {
    open spec fn accepts(before: DeserializeShapeContext, after: DeserializeShapeContext, r: ShapeRef) -> bool {
        match r {
            ShapeRef::Array { item, len } => len == 25 && T::accepts(before, after, *item),
            _ => false,
        }
    }

    fn deserialize_shape_in(context: &mut DeserializeShapeContext) -> (r: ShapeRef) {
        array_shape(T::deserialize_shape_in(context), 25)
    }
}

impl<T> SerializeShape for [T; 26] where T: SerializeShape {
    open spec fn emits(before: SerializeShapeContext, after: SerializeShapeContext, r: ShapeRef) -> bool {
        match r {
            ShapeRef::Array { item, len } => len == 26 && T::emits(before, after, *item),
            _ => false,
        }
    }

    fn serialize_shape_in(context: &mut SerializeShapeContext) -> (r: ShapeRef) {
        array_shape(T::serialize_shape_in(context), 26)
    }
}

impl<T> DeserializeShape for [T; 26] where T: DeserializeShape {
    open spec fn accepts(before: DeserializeShapeContext, after: DeserializeShapeContext, r: ShapeRef) -> bool {
        match r {
            ShapeRef::Array { item, len } => len == 26 && T::accepts(before, after, *item),
            _ => false,
        }
    }

    fn deserialize_shape_in(context: &mut DeserializeShapeContext) -> (r: ShapeRef) {
        array_shape(T::deserialize_shape_in(context), 26)
    }
}

impl<T> SerializeShape for [T; 27] where T: SerializeShape {
    open spec fn emits(before: SerializeShapeContext, after: SerializeShapeContext, r: ShapeRef) -> bool {
        match r {
            ShapeRef::Array { item, len } => len == 27 && T::emits(before, after, *item),
            _ => false,
        }
    }

    fn serialize_shape_in(context: &mut SerializeShapeContext) -> (r: ShapeRef) {
        array_shape(T::serialize_shape_in(context), 27)
    }
}

impl<T> DeserializeShape for [T; 27] where T: DeserializeShape {
    open spec fn accepts(before: DeserializeShapeContext, after: DeserializeShapeContext, r: ShapeRef) -> bool {
        match r {
            ShapeRef::Array { item, len } => len == 27 && T::accepts(before, after, *item),
            _ => false,
        }
    }

    fn deserialize_shape_in(context: &mut DeserializeShapeContext) -> (r: ShapeRef) {
        array_shape(T::deserialize_shape_in(context), 27)
    }
}

impl<T> SerializeShape for [T; 28] where T: SerializeShape {
    open spec fn emits(before: SerializeShapeContext, after: SerializeShapeContext, r: ShapeRef) -> bool {
        match r {
            ShapeRef::Array { item, len } => len == 28 && T::emits(before, after, *item),
            _ => false,
        }
    }

    fn serialize_shape_in(context: &mut SerializeShapeContext) -> (r: ShapeRef) {
        array_shape(T::serialize_shape_in(context), 28)
    }
}

impl<T> DeserializeShape for [T; 28] where T: DeserializeShape {
    open spec fn accepts(before: DeserializeShapeContext, after: DeserializeShapeContext, r: ShapeRef) -> bool {
        match r {
            ShapeRef::Array { item, len } => len == 28 && T::accepts(before, after, *item),
            _ => false,
        }
    }

    fn deserialize_shape_in(context: &mut DeserializeShapeContext) -> (r: ShapeRef) {
        array_shape(T::deserialize_shape_in(context), 28)
    }
}

impl<T> SerializeShape for [T; 29] where T: SerializeShape {
    open spec fn emits(before: SerializeShapeContext, after: SerializeShapeContext, r: ShapeRef) -> bool {
        match r {
            ShapeRef::Array { item, len } => len == 29 && T::emits(before, after, *item),
            _ => false,
        }
    }

    fn serialize_shape_in(context: &mut SerializeShapeContext) -> (r: ShapeRef) {
        array_shape(T::serialize_shape_in(context), 29)
    }
}

impl<T> DeserializeShape for [T; 29] where T: DeserializeShape {
    open spec fn accepts(before: DeserializeShapeContext, after: DeserializeShapeContext, r: ShapeRef) -> bool {
        match r {
            ShapeRef::Array { item, len } => len == 29 && T::accepts(before, after, *item),
            _ => false,
        }
    }

    fn deserialize_shape_in(context: &mut DeserializeShapeContext) -> (r: ShapeRef) {
        array_shape(T::deserialize_shape_in(context), 29)
    }
}

impl<T> SerializeShape for [T; 30] where T: SerializeShape {
    open spec fn emits(before: SerializeShapeContext, after: SerializeShapeContext, r: ShapeRef) -> bool {
        match r {
            ShapeRef::Array { item, len } => len == 30 && T::emits(before, after, *item),
            _ => false,
        }
    }

    fn serialize_shape_in(context: &mut SerializeShapeContext) -> (r: ShapeRef) {
        array_shape(T::serialize_shape_in(context), 30)
    }
}

impl<T> DeserializeShape for [T; 30] where T: DeserializeShape {
    open spec fn accepts(before: DeserializeShapeContext, after: DeserializeShapeContext, r: ShapeRef) -> bool {
        match r {
            ShapeRef::Array { item, len } => len == 30 && T::accepts(before, after, *item),
            _ => false,
        }
    }

    fn deserialize_shape_in(context: &mut DeserializeShapeContext) -> (r: ShapeRef) {
        array_shape(T::deserialize_shape_in(context), 30)
    }
}

impl<T> SerializeShape for [T; 31] where T: SerializeShape {
    open spec fn emits(before: SerializeShapeContext, after: SerializeShapeContext, r: ShapeRef) -> bool {
        match r {
            ShapeRef::Array { item, len } => len == 31 && T::emits(before, after, *item),
            _ => false,
        }
    }

    fn serialize_shape_in(context: &mut SerializeShapeContext) -> (r: ShapeRef) {
        array_shape(T::serialize_shape_in(context), 31)
    }
}

impl<T> DeserializeShape for [T; 31] where T: DeserializeShape {
    open spec fn accepts(before: DeserializeShapeContext, after: DeserializeShapeContext, r: ShapeRef) -> bool {
        match r {
            ShapeRef::Array { item, len } => len == 31 && T::accepts(before, after, *item),
            _ => false,
        }
    }

    fn deserialize_shape_in(context: &mut DeserializeShapeContext) -> (r: ShapeRef) {
        array_shape(T::deserialize_shape_in(context), 31)
    }
}

impl<T> SerializeShape for [T; 32] where T: SerializeShape {
    open spec fn emits(before: SerializeShapeContext, after: SerializeShapeContext, r: ShapeRef) -> bool {
        match r {
            ShapeRef::Array { item, len } => len == 32 && T::emits(before, after, *item),
            _ => false,
        }
    }

    fn serialize_shape_in(context: &mut SerializeShapeContext) -> (r: ShapeRef) {
        array_shape(T::serialize_shape_in(context), 32)
    }
}

impl<T> DeserializeShape for [T; 32] where T: DeserializeShape {
    open spec fn accepts(before: DeserializeShapeContext, after: DeserializeShapeContext, r: ShapeRef) -> bool {
        match r {
            ShapeRef::Array { item, len } => len == 32 && T::accepts(before, after, *item),
            _ => false,
        }
    }

    fn deserialize_shape_in(context: &mut DeserializeShapeContext) -> (r: ShapeRef) {
        array_shape(T::deserialize_shape_in(context), 32)
    }
}

} // verus!
