//! Jiff 0.2's date and time types, which Serde writes and reads as strings in both directions.
use vstd::prelude::*;

use crate::graph::{DeserializeShape, DeserializeShapeContext, SerializeShape, SerializeShapeContext};
use crate::model::Shape;
use crate::shape::ShapeRef;

verus! {

#[verifier::external_type_specification]
#[verifier::external_body]
pub struct ExDate(jiff::civil::Date);

#[verifier::external_type_specification]
#[verifier::external_body]
pub struct ExDateTime(jiff::civil::DateTime);

#[verifier::external_type_specification]
#[verifier::external_body]
pub struct ExISOWeekDate(jiff::civil::ISOWeekDate);

#[verifier::external_type_specification]
#[verifier::external_body]
pub struct ExSignedDuration(jiff::SignedDuration);

#[verifier::external_type_specification]
#[verifier::external_body]
pub struct ExSpan(jiff::Span);

#[verifier::external_type_specification]
#[verifier::external_body]
pub struct ExTime(jiff::civil::Time);

#[verifier::external_type_specification]
#[verifier::external_body]
pub struct ExTimestamp(jiff::Timestamp);

#[verifier::external_type_specification]
#[verifier::external_body]
pub struct ExZoned(jiff::Zoned);

impl SerializeShape for jiff::civil::Date {
    open spec fn emits(before: SerializeShapeContext, after: SerializeShapeContext, r: ShapeRef) -> bool {
        &&& r@ == Shape::String
        &&& after == before
    }

    fn serialize_shape_in(_context: &mut SerializeShapeContext) -> (r: ShapeRef) {
        ShapeRef::String
    }
}

impl DeserializeShape for jiff::civil::Date {
    open spec fn accepts(before: DeserializeShapeContext, after: DeserializeShapeContext, r: ShapeRef) -> bool {
        &&& r@ == Shape::String
        &&& after == before
    }

    fn deserialize_shape_in(_context: &mut DeserializeShapeContext) -> (r: ShapeRef) {
        ShapeRef::String
    }
}

impl SerializeShape for jiff::civil::DateTime {
    open spec fn emits(before: SerializeShapeContext, after: SerializeShapeContext, r: ShapeRef) -> bool {
        &&& r@ == Shape::String
        &&& after == before
    }

    fn serialize_shape_in(_context: &mut SerializeShapeContext) -> (r: ShapeRef) {
        ShapeRef::String
    }
}

impl DeserializeShape for jiff::civil::DateTime {
    open spec fn accepts(before: DeserializeShapeContext, after: DeserializeShapeContext, r: ShapeRef) -> bool {
        &&& r@ == Shape::String
        &&& after == before
    }

    fn deserialize_shape_in(_context: &mut DeserializeShapeContext) -> (r: ShapeRef) {
        ShapeRef::String
    }
}

impl SerializeShape for jiff::civil::ISOWeekDate {
    open spec fn emits(before: SerializeShapeContext, after: SerializeShapeContext, r: ShapeRef) -> bool {
        &&& r@ == Shape::String
        &&& after == before
    }

    fn serialize_shape_in(_context: &mut SerializeShapeContext) -> (r: ShapeRef) {
        ShapeRef::String
    }
}

impl DeserializeShape for jiff::civil::ISOWeekDate {
    open spec fn accepts(before: DeserializeShapeContext, after: DeserializeShapeContext, r: ShapeRef) -> bool {
        &&& r@ == Shape::String
        &&& after == before
    }

    fn deserialize_shape_in(_context: &mut DeserializeShapeContext) -> (r: ShapeRef) {
        ShapeRef::String
    }
}

impl SerializeShape for jiff::SignedDuration {
    open spec fn emits(before: SerializeShapeContext, after: SerializeShapeContext, r: ShapeRef) -> bool {
        &&& r@ == Shape::String
        &&& after == before
    }

    fn serialize_shape_in(_context: &mut SerializeShapeContext) -> (r: ShapeRef) {
        ShapeRef::String
    }
}

impl DeserializeShape for jiff::SignedDuration {
    open spec fn accepts(before: DeserializeShapeContext, after: DeserializeShapeContext, r: ShapeRef) -> bool {
        &&& r@ == Shape::String
        &&& after == before
    }

    fn deserialize_shape_in(_context: &mut DeserializeShapeContext) -> (r: ShapeRef) {
        ShapeRef::String
    }
}

impl SerializeShape for jiff::Span {
    open spec fn emits(before: SerializeShapeContext, after: SerializeShapeContext, r: ShapeRef) -> bool {
        &&& r@ == Shape::String
        &&& after == before
    }

    fn serialize_shape_in(_context: &mut SerializeShapeContext) -> (r: ShapeRef) {
        ShapeRef::String
    }
}

impl DeserializeShape for jiff::Span {
    open spec fn accepts(before: DeserializeShapeContext, after: DeserializeShapeContext, r: ShapeRef) -> bool {
        &&& r@ == Shape::String
        &&& after == before
    }

    fn deserialize_shape_in(_context: &mut DeserializeShapeContext) -> (r: ShapeRef) {
        ShapeRef::String
    }
}

impl SerializeShape for jiff::civil::Time {
    open spec fn emits(before: SerializeShapeContext, after: SerializeShapeContext, r: ShapeRef) -> bool {
        &&& r@ == Shape::String
        &&& after == before
    }

    fn serialize_shape_in(_context: &mut SerializeShapeContext) -> (r: ShapeRef) {
        ShapeRef::String
    }
}

impl DeserializeShape for jiff::civil::Time {
    open spec fn accepts(before: DeserializeShapeContext, after: DeserializeShapeContext, r: ShapeRef) -> bool {
        &&& r@ == Shape::String
        &&& after == before
    }

    fn deserialize_shape_in(_context: &mut DeserializeShapeContext) -> (r: ShapeRef) {
        ShapeRef::String
    }
}

impl SerializeShape for jiff::Timestamp {
    open spec fn emits(before: SerializeShapeContext, after: SerializeShapeContext, r: ShapeRef) -> bool {
        &&& r@ == Shape::String
        &&& after == before
    }

    fn serialize_shape_in(_context: &mut SerializeShapeContext) -> (r: ShapeRef) {
        ShapeRef::String
    }
}

impl DeserializeShape for jiff::Timestamp {
    open spec fn accepts(before: DeserializeShapeContext, after: DeserializeShapeContext, r: ShapeRef) -> bool {
        &&& r@ == Shape::String
        &&& after == before
    }

    fn deserialize_shape_in(_context: &mut DeserializeShapeContext) -> (r: ShapeRef) {
        ShapeRef::String
    }
}

impl SerializeShape for jiff::Zoned {
    open spec fn emits(before: SerializeShapeContext, after: SerializeShapeContext, r: ShapeRef) -> bool {
        &&& r@ == Shape::String
        &&& after == before
    }

    fn serialize_shape_in(_context: &mut SerializeShapeContext) -> (r: ShapeRef) {
        ShapeRef::String
    }
}

impl DeserializeShape for jiff::Zoned {
    open spec fn accepts(before: DeserializeShapeContext, after: DeserializeShapeContext, r: ShapeRef) -> bool {
        &&& r@ == Shape::String
        &&& after == before
    }

    fn deserialize_shape_in(_context: &mut DeserializeShapeContext) -> (r: ShapeRef) {
        ShapeRef::String
    }
}

} // verus!
