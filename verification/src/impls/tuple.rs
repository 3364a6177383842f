//! Shapes of tuples through arity 16.
use vstd::prelude::*;

use crate::graph::{DeserializeShape, DeserializeShapeContext, SerializeShape, SerializeShapeContext};
use crate::shape::ShapeRef;

verus! {

impl<T0> SerializeShape for (T0,) where T0: SerializeShape {
    open spec fn emits(before: SerializeShapeContext, after: SerializeShapeContext, r: ShapeRef) -> bool {
        match r {
            ShapeRef::Tuple(items) => items@.len() == 1 && (T0::emits(before, after, items@[0])),
            _ => false,
        }
    }

    fn serialize_shape_in(context: &mut SerializeShapeContext) -> (r: ShapeRef) {
        let ghost c0 = *context;
        let mut items: Vec<ShapeRef> = Vec::new();
        let x0 = T0::serialize_shape_in(context);
        let ghost c1 = *context;
        let ghost g0 = x0;
        items.push(x0);
        proof {
            assert(items@ == seq![g0]);
            assert(T0::emits(c0, c1, g0));
        }
        ShapeRef::Tuple(items)
    }
}

impl<T0> DeserializeShape for (T0,) where T0: DeserializeShape {
    open spec fn accepts(before: DeserializeShapeContext, after: DeserializeShapeContext, r: ShapeRef) -> bool {
        match r {
            ShapeRef::Tuple(items) => items@.len() == 1 && (T0::accepts(before, after, items@[0])),
            _ => false,
        }
    }

    fn deserialize_shape_in(context: &mut DeserializeShapeContext) -> (r: ShapeRef) {
        let ghost c0 = *context;
        let mut items: Vec<ShapeRef> = Vec::new();
        let x0 = T0::deserialize_shape_in(context);
        let ghost c1 = *context;
        let ghost g0 = x0;
        items.push(x0);
        proof {
            assert(items@ == seq![g0]);
            assert(T0::accepts(c0, c1, g0));
        }
        ShapeRef::Tuple(items)
    }
}

impl<T0, T1> SerializeShape for (T0, T1,) where T0: SerializeShape, T1: SerializeShape {
    open spec fn emits(before: SerializeShapeContext, after: SerializeShapeContext, r: ShapeRef) -> bool {
        match r {
            ShapeRef::Tuple(items) => items@.len() == 2 && (exists|c1: SerializeShapeContext| T0::emits(before, c1, items@[0]) && T1::emits(c1, after, items@[1])),
            _ => false,
        }
    }

    fn serialize_shape_in(context: &mut SerializeShapeContext) -> (r: ShapeRef) {
        let ghost c0 = *context;
        let mut items: Vec<ShapeRef> = Vec::new();
        let x0 = T0::serialize_shape_in(context);
        let ghost c1 = *context;
        let ghost g0 = x0;
        items.push(x0);
        let x1 = T1::serialize_shape_in(context);
        let ghost c2 = *context;
        let ghost g1 = x1;
        items.push(x1);
        proof {
            assert(items@ == seq![g0, g1]);
            assert(T0::emits(c0, c1, g0) && T1::emits(c1, c2, g1));
        }
        ShapeRef::Tuple(items)
    }
}

impl<T0, T1> DeserializeShape for (T0, T1,) where T0: DeserializeShape, T1: DeserializeShape {
    open spec fn accepts(before: DeserializeShapeContext, after: DeserializeShapeContext, r: ShapeRef) -> bool {
        match r {
            ShapeRef::Tuple(items) => items@.len() == 2 && (exists|c1: DeserializeShapeContext| T0::accepts(before, c1, items@[0]) && T1::accepts(c1, after, items@[1])),
            _ => false,
        }
    }

    fn deserialize_shape_in(context: &mut DeserializeShapeContext) -> (r: ShapeRef) {
        let ghost c0 = *context;
        let mut items: Vec<ShapeRef> = Vec::new();
        let x0 = T0::deserialize_shape_in(context);
        let ghost c1 = *context;
        let ghost g0 = x0;
        items.push(x0);
        let x1 = T1::deserialize_shape_in(context);
        let ghost c2 = *context;
        let ghost g1 = x1;
        items.push(x1);
        proof {
            assert(items@ == seq![g0, g1]);
            assert(T0::accepts(c0, c1, g0) && T1::accepts(c1, c2, g1));
        }
        ShapeRef::Tuple(items)
    }
}

impl<T0, T1, T2> SerializeShape for (T0, T1, T2,) where T0: SerializeShape, T1: SerializeShape, T2: SerializeShape {
    open spec fn emits(before: SerializeShapeContext, after: SerializeShapeContext, r: ShapeRef) -> bool {
        match r {
            ShapeRef::Tuple(items) => items@.len() == 3 && (exists|c1: SerializeShapeContext, c2: SerializeShapeContext| T0::emits(before, c1, items@[0]) && T1::emits(c1, c2, items@[1]) && T2::emits(c2, after, items@[2])),
            _ => false,
        }
    }

    fn serialize_shape_in(context: &mut SerializeShapeContext) -> (r: ShapeRef) {
        let ghost c0 = *context;
        let mut items: Vec<ShapeRef> = Vec::new();
        let x0 = T0::serialize_shape_in(context);
        let ghost c1 = *context;
        let ghost g0 = x0;
        items.push(x0);
        let x1 = T1::serialize_shape_in(context);
        let ghost c2 = *context;
        let ghost g1 = x1;
        items.push(x1);
        let x2 = T2::serialize_shape_in(context);
        let ghost c3 = *context;
        let ghost g2 = x2;
        items.push(x2);
        proof {
            assert(items@ == seq![g0, g1, g2]);
            assert(T0::emits(c0, c1, g0) && T1::emits(c1, c2, g1) && T2::emits(c2, c3, g2));
        }
        ShapeRef::Tuple(items)
    }
}

impl<T0, T1, T2> DeserializeShape for (T0, T1, T2,) where T0: DeserializeShape, T1: DeserializeShape, T2: DeserializeShape {
    open spec fn accepts(before: DeserializeShapeContext, after: DeserializeShapeContext, r: ShapeRef) -> bool {
        match r {
            ShapeRef::Tuple(items) => items@.len() == 3 && (exists|c1: DeserializeShapeContext, c2: DeserializeShapeContext| T0::accepts(before, c1, items@[0]) && T1::accepts(c1, c2, items@[1]) && T2::accepts(c2, after, items@[2])),
            _ => false,
        }
    }

    fn deserialize_shape_in(context: &mut DeserializeShapeContext) -> (r: ShapeRef) {
        let ghost c0 = *context;
        let mut items: Vec<ShapeRef> = Vec::new();
        let x0 = T0::deserialize_shape_in(context);
        let ghost c1 = *context;
        let ghost g0 = x0;
        items.push(x0);
        let x1 = T1::deserialize_shape_in(context);
        let ghost c2 = *context;
        let ghost g1 = x1;
        items.push(x1);
        let x2 = T2::deserialize_shape_in(context);
        let ghost c3 = *context;
        let ghost g2 = x2;
        items.push(x2);
        proof {
            assert(items@ == seq![g0, g1, g2]);
            assert(T0::accepts(c0, c1, g0) && T1::accepts(c1, c2, g1) && T2::accepts(c2, c3, g2));
        }
        ShapeRef::Tuple(items)
    }
}

impl<T0, T1, T2, T3> SerializeShape for (T0, T1, T2, T3,) where T0: SerializeShape, T1: SerializeShape, T2: SerializeShape, T3: SerializeShape {
    open spec fn emits(before: SerializeShapeContext, after: SerializeShapeContext, r: ShapeRef) -> bool {
        match r {
            ShapeRef::Tuple(items) => items@.len() == 4 && (exists|c1: SerializeShapeContext, c2: SerializeShapeContext, c3: SerializeShapeContext| T0::emits(before, c1, items@[0]) && T1::emits(c1, c2, items@[1]) && T2::emits(c2, c3, items@[2]) && T3::emits(c3, after, items@[3])),
            _ => false,
        }
    }

    fn serialize_shape_in(context: &mut SerializeShapeContext) -> (r: ShapeRef) {
        let ghost c0 = *context;
        let mut items: Vec<ShapeRef> = Vec::new();
        let x0 = T0::serialize_shape_in(context);
        let ghost c1 = *context;
        let ghost g0 = x0;
        items.push(x0);
        let x1 = T1::serialize_shape_in(context);
        let ghost c2 = *context;
        let ghost g1 = x1;
        items.push(x1);
        let x2 = T2::serialize_shape_in(context);
        let ghost c3 = *context;
        let ghost g2 = x2;
        items.push(x2);
        let x3 = T3::serialize_shape_in(context);
        let ghost c4 = *context;
        let ghost g3 = x3;
        items.push(x3);
        proof {
            assert(items@ == seq![g0, g1, g2, g3]);
            assert(T0::emits(c0, c1, g0) && T1::emits(c1, c2, g1) && T2::emits(c2, c3, g2) && T3::emits(c3, c4, g3));
        }
        ShapeRef::Tuple(items)
    }
}

impl<T0, T1, T2, T3> DeserializeShape for (T0, T1, T2, T3,) where T0: DeserializeShape, T1: DeserializeShape, T2: DeserializeShape, T3: DeserializeShape {
    open spec fn accepts(before: DeserializeShapeContext, after: DeserializeShapeContext, r: ShapeRef) -> bool {
        match r {
            ShapeRef::Tuple(items) => items@.len() == 4 && (exists|c1: DeserializeShapeContext, c2: DeserializeShapeContext, c3: DeserializeShapeContext| T0::accepts(before, c1, items@[0]) && T1::accepts(c1, c2, items@[1]) && T2::accepts(c2, c3, items@[2]) && T3::accepts(c3, after, items@[3])),
            _ => false,
        }
    }

    fn deserialize_shape_in(context: &mut DeserializeShapeContext) -> (r: ShapeRef) {
        let ghost c0 = *context;
        let mut items: Vec<ShapeRef> = Vec::new();
        let x0 = T0::deserialize_shape_in(context);
        let ghost c1 = *context;
        let ghost g0 = x0;
        items.push(x0);
        let x1 = T1::deserialize_shape_in(context);
        let ghost c2 = *context;
        let ghost g1 = x1;
        items.push(x1);
        let x2 = T2::deserialize_shape_in(context);
        let ghost c3 = *context;
        let ghost g2 = x2;
        items.push(x2);
        let x3 = T3::deserialize_shape_in(context);
        let ghost c4 = *context;
        let ghost g3 = x3;
        items.push(x3);
        proof {
            assert(items@ == seq![g0, g1, g2, g3]);
            assert(T0::accepts(c0, c1, g0) && T1::accepts(c1, c2, g1) && T2::accepts(c2, c3, g2) && T3::accepts(c3, c4, g3));
        }
        ShapeRef::Tuple(items)
    }
}

impl<T0, T1, T2, T3, T4> SerializeShape for (T0, T1, T2, T3, T4,) where T0: SerializeShape, T1: SerializeShape, T2: SerializeShape, T3: SerializeShape, T4: SerializeShape {
    open spec fn emits(before: SerializeShapeContext, after: SerializeShapeContext, r: ShapeRef) -> bool {
        match r {
            ShapeRef::Tuple(items) => items@.len() == 5 && (exists|c1: SerializeShapeContext, c2: SerializeShapeContext, c3: SerializeShapeContext, c4: SerializeShapeContext| T0::emits(before, c1, items@[0]) && T1::emits(c1, c2, items@[1]) && T2::emits(c2, c3, items@[2]) && T3::emits(c3, c4, items@[3]) && T4::emits(c4, after, items@[4])),
            _ => false,
        }
    }

    fn serialize_shape_in(context: &mut SerializeShapeContext) -> (r: ShapeRef) {
        let ghost c0 = *context;
        let mut items: Vec<ShapeRef> = Vec::new();
        let x0 = T0::serialize_shape_in(context);
        let ghost c1 = *context;
        let ghost g0 = x0;
        items.push(x0);
        let x1 = T1::serialize_shape_in(context);
        let ghost c2 = *context;
        let ghost g1 = x1;
        items.push(x1);
        let x2 = T2::serialize_shape_in(context);
        let ghost c3 = *context;
        let ghost g2 = x2;
        items.push(x2);
        let x3 = T3::serialize_shape_in(context);
        let ghost c4 = *context;
        let ghost g3 = x3;
        items.push(x3);
        let x4 = T4::serialize_shape_in(context);
        let ghost c5 = *context;
        let ghost g4 = x4;
        items.push(x4);
        proof {
            assert(items@ == seq![g0, g1, g2, g3, g4]);
            assert(T0::emits(c0, c1, g0) && T1::emits(c1, c2, g1) && T2::emits(c2, c3, g2) && T3::emits(c3, c4, g3) && T4::emits(c4, c5, g4));
        }
        ShapeRef::Tuple(items)
    }
}

impl<T0, T1, T2, T3, T4> DeserializeShape for (T0, T1, T2, T3, T4,) where T0: DeserializeShape, T1: DeserializeShape, T2: DeserializeShape, T3: DeserializeShape, T4: DeserializeShape {
    open spec fn accepts(before: DeserializeShapeContext, after: DeserializeShapeContext, r: ShapeRef) -> bool {
        match r {
            ShapeRef::Tuple(items) => items@.len() == 5 && (exists|c1: DeserializeShapeContext, c2: DeserializeShapeContext, c3: DeserializeShapeContext, c4: DeserializeShapeContext| T0::accepts(before, c1, items@[0]) && T1::accepts(c1, c2, items@[1]) && T2::accepts(c2, c3, items@[2]) && T3::accepts(c3, c4, items@[3]) && T4::accepts(c4, after, items@[4])),
            _ => false,
        }
    }

    fn deserialize_shape_in(context: &mut DeserializeShapeContext) -> (r: ShapeRef) {
        let ghost c0 = *context;
        let mut items: Vec<ShapeRef> = Vec::new();
        let x0 = T0::deserialize_shape_in(context);
        let ghost c1 = *context;
        let ghost g0 = x0;
        items.push(x0);
        let x1 = T1::deserialize_shape_in(context);
        let ghost c2 = *context;
        let ghost g1 = x1;
        items.push(x1);
        let x2 = T2::deserialize_shape_in(context);
        let ghost c3 = *context;
        let ghost g2 = x2;
        items.push(x2);
        let x3 = T3::deserialize_shape_in(context);
        let ghost c4 = *context;
        let ghost g3 = x3;
        items.push(x3);
        let x4 = T4::deserialize_shape_in(context);
        let ghost c5 = *context;
        let ghost g4 = x4;
        items.push(x4);
        proof {
            assert(items@ == seq![g0, g1, g2, g3, g4]);
            assert(T0::accepts(c0, c1, g0) && T1::accepts(c1, c2, g1) && T2::accepts(c2, c3, g2) && T3::accepts(c3, c4, g3) && T4::accepts(c4, c5, g4));
        }
        ShapeRef::Tuple(items)
    }
}

impl<T0, T1, T2, T3, T4, T5> SerializeShape for (T0, T1, T2, T3, T4, T5,) where T0: SerializeShape, T1: SerializeShape, T2: SerializeShape, T3: SerializeShape, T4: SerializeShape, T5: SerializeShape {
    open spec fn emits(before: SerializeShapeContext, after: SerializeShapeContext, r: ShapeRef) -> bool {
        match r {
            ShapeRef::Tuple(items) => items@.len() == 6 && (exists|c1: SerializeShapeContext, c2: SerializeShapeContext, c3: SerializeShapeContext, c4: SerializeShapeContext, c5: SerializeShapeContext| T0::emits(before, c1, items@[0]) && T1::emits(c1, c2, items@[1]) && T2::emits(c2, c3, items@[2]) && T3::emits(c3, c4, items@[3]) && T4::emits(c4, c5, items@[4]) && T5::emits(c5, after, items@[5])),
            _ => false,
        }
    }

    fn serialize_shape_in(context: &mut SerializeShapeContext) -> (r: ShapeRef) {
        let ghost c0 = *context;
        let mut items: Vec<ShapeRef> = Vec::new();
        let x0 = T0::serialize_shape_in(context);
        let ghost c1 = *context;
        let ghost g0 = x0;
        items.push(x0);
        let x1 = T1::serialize_shape_in(context);
        let ghost c2 = *context;
        let ghost g1 = x1;
        items.push(x1);
        let x2 = T2::serialize_shape_in(context);
        let ghost c3 = *context;
        let ghost g2 = x2;
        items.push(x2);
        let x3 = T3::serialize_shape_in(context);
        let ghost c4 = *context;
        let ghost g3 = x3;
        items.push(x3);
        let x4 = T4::serialize_shape_in(context);
        let ghost c5 = *context;
        let ghost g4 = x4;
        items.push(x4);
        let x5 = T5::serialize_shape_in(context);
        let ghost c6 = *context;
        let ghost g5 = x5;
        items.push(x5);
        proof {
            assert(items@ == seq![g0, g1, g2, g3, g4, g5]);
            assert(T0::emits(c0, c1, g0) && T1::emits(c1, c2, g1) && T2::emits(c2, c3, g2) && T3::emits(c3, c4, g3) && T4::emits(c4, c5, g4) && T5::emits(c5, c6, g5));
        }
        ShapeRef::Tuple(items)
    }
}

impl<T0, T1, T2, T3, T4, T5> DeserializeShape for (T0, T1, T2, T3, T4, T5,) where T0: DeserializeShape, T1: DeserializeShape, T2: DeserializeShape, T3: DeserializeShape, T4: DeserializeShape, T5: DeserializeShape {
    open spec fn accepts(before: DeserializeShapeContext, after: DeserializeShapeContext, r: ShapeRef) -> bool {
        match r {
            ShapeRef::Tuple(items) => items@.len() == 6 && (exists|c1: DeserializeShapeContext, c2: DeserializeShapeContext, c3: DeserializeShapeContext, c4: DeserializeShapeContext, c5: DeserializeShapeContext| T0::accepts(before, c1, items@[0]) && T1::accepts(c1, c2, items@[1]) && T2::accepts(c2, c3, items@[2]) && T3::accepts(c3, c4, items@[3]) && T4::accepts(c4, c5, items@[4]) && T5::accepts(c5, after, items@[5])),
            _ => false,
        }
    }

    fn deserialize_shape_in(context: &mut DeserializeShapeContext) -> (r: ShapeRef) {
        let ghost c0 = *context;
        let mut items: Vec<ShapeRef> = Vec::new();
        let x0 = T0::deserialize_shape_in(context);
        let ghost c1 = *context;
        let ghost g0 = x0;
        items.push(x0);
        let x1 = T1::deserialize_shape_in(context);
        let ghost c2 = *context;
        let ghost g1 = x1;
        items.push(x1);
        let x2 = T2::deserialize_shape_in(context);
        let ghost c3 = *context;
        let ghost g2 = x2;
        items.push(x2);
        let x3 = T3::deserialize_shape_in(context);
        let ghost c4 = *context;
        let ghost g3 = x3;
        items.push(x3);
        let x4 = T4::deserialize_shape_in(context);
        let ghost c5 = *context;
        let ghost g4 = x4;
        items.push(x4);
        let x5 = T5::deserialize_shape_in(context);
        let ghost c6 = *context;
        let ghost g5 = x5;
        items.push(x5);
        proof {
            assert(items@ == seq![g0, g1, g2, g3, g4, g5]);
            assert(T0::accepts(c0, c1, g0) && T1::accepts(c1, c2, g1) && T2::accepts(c2, c3, g2) && T3::accepts(c3, c4, g3) && T4::accepts(c4, c5, g4) && T5::accepts(c5, c6, g5));
        }
        ShapeRef::Tuple(items)
    }
}

impl<T0, T1, T2, T3, T4, T5, T6> SerializeShape for (T0, T1, T2, T3, T4, T5, T6,) where T0: SerializeShape, T1: SerializeShape, T2: SerializeShape, T3: SerializeShape, T4: SerializeShape, T5: SerializeShape, T6: SerializeShape {
    open spec fn emits(before: SerializeShapeContext, after: SerializeShapeContext, r: ShapeRef) -> bool {
        match r {
            ShapeRef::Tuple(items) => items@.len() == 7 && (exists|c1: SerializeShapeContext, c2: SerializeShapeContext, c3: SerializeShapeContext, c4: SerializeShapeContext, c5: SerializeShapeContext, c6: SerializeShapeContext| T0::emits(before, c1, items@[0]) && T1::emits(c1, c2, items@[1]) && T2::emits(c2, c3, items@[2]) && T3::emits(c3, c4, items@[3]) && T4::emits(c4, c5, items@[4]) && T5::emits(c5, c6, items@[5]) && T6::emits(c6, after, items@[6])),
            _ => false,
        }
    }

    fn serialize_shape_in(context: &mut SerializeShapeContext) -> (r: ShapeRef) {
        let ghost c0 = *context;
        let mut items: Vec<ShapeRef> = Vec::new();
        let x0 = T0::serialize_shape_in(context);
        let ghost c1 = *context;
        let ghost g0 = x0;
        items.push(x0);
        let x1 = T1::serialize_shape_in(context);
        let ghost c2 = *context;
        let ghost g1 = x1;
        items.push(x1);
        let x2 = T2::serialize_shape_in(context);
        let ghost c3 = *context;
        let ghost g2 = x2;
        items.push(x2);
        let x3 = T3::serialize_shape_in(context);
        let ghost c4 = *context;
        let ghost g3 = x3;
        items.push(x3);
        let x4 = T4::serialize_shape_in(context);
        let ghost c5 = *context;
        let ghost g4 = x4;
        items.push(x4);
        let x5 = T5::serialize_shape_in(context);
        let ghost c6 = *context;
        let ghost g5 = x5;
        items.push(x5);
        let x6 = T6::serialize_shape_in(context);
        let ghost c7 = *context;
        let ghost g6 = x6;
        items.push(x6);
        proof {
            assert(items@ == seq![g0, g1, g2, g3, g4, g5, g6]);
            assert(T0::emits(c0, c1, g0) && T1::emits(c1, c2, g1) && T2::emits(c2, c3, g2) && T3::emits(c3, c4, g3) && T4::emits(c4, c5, g4) && T5::emits(c5, c6, g5) && T6::emits(c6, c7, g6));
        }
        ShapeRef::Tuple(items)
    }
}

impl<T0, T1, T2, T3, T4, T5, T6> DeserializeShape for (T0, T1, T2, T3, T4, T5, T6,) where T0: DeserializeShape, T1: DeserializeShape, T2: DeserializeShape, T3: DeserializeShape, T4: DeserializeShape, T5: DeserializeShape, T6: DeserializeShape {
    open spec fn accepts(before: DeserializeShapeContext, after: DeserializeShapeContext, r: ShapeRef) -> bool {
        match r {
            ShapeRef::Tuple(items) => items@.len() == 7 && (exists|c1: DeserializeShapeContext, c2: DeserializeShapeContext, c3: DeserializeShapeContext, c4: DeserializeShapeContext, c5: DeserializeShapeContext, c6: DeserializeShapeContext| T0::accepts(before, c1, items@[0]) && T1::accepts(c1, c2, items@[1]) && T2::accepts(c2, c3, items@[2]) && T3::accepts(c3, c4, items@[3]) && T4::accepts(c4, c5, items@[4]) && T5::accepts(c5, c6, items@[5]) && T6::accepts(c6, after, items@[6])),
            _ => false,
        }
    }

    fn deserialize_shape_in(context: &mut DeserializeShapeContext) -> (r: ShapeRef) {
        let ghost c0 = *context;
        let mut items: Vec<ShapeRef> = Vec::new();
        let x0 = T0::deserialize_shape_in(context);
        let ghost c1 = *context;
        let ghost g0 = x0;
        items.push(x0);
        let x1 = T1::deserialize_shape_in(context);
        let ghost c2 = *context;
        let ghost g1 = x1;
        items.push(x1);
        let x2 = T2::deserialize_shape_in(context);
        let ghost c3 = *context;
        let ghost g2 = x2;
        items.push(x2);
        let x3 = T3::deserialize_shape_in(context);
        let ghost c4 = *context;
        let ghost g3 = x3;
        items.push(x3);
        let x4 = T4::deserialize_shape_in(context);
        let ghost c5 = *context;
        let ghost g4 = x4;
        items.push(x4);
        let x5 = T5::deserialize_shape_in(context);
        let ghost c6 = *context;
        let ghost g5 = x5;
        items.push(x5);
        let x6 = T6::deserialize_shape_in(context);
        let ghost c7 = *context;
        let ghost g6 = x6;
        items.push(x6);
        proof {
            assert(items@ == seq![g0, g1, g2, g3, g4, g5, g6]);
            assert(T0::accepts(c0, c1, g0) && T1::accepts(c1, c2, g1) && T2::accepts(c2, c3, g2) && T3::accepts(c3, c4, g3) && T4::accepts(c4, c5, g4) && T5::accepts(c5, c6, g5) && T6::accepts(c6, c7, g6));
        }
        ShapeRef::Tuple(items)
    }
}

impl<T0, T1, T2, T3, T4, T5, T6, T7> SerializeShape for (T0, T1, T2, T3, T4, T5, T6, T7,) where T0: SerializeShape, T1: SerializeShape, T2: SerializeShape, T3: SerializeShape, T4: SerializeShape, T5: SerializeShape, T6: SerializeShape, T7: SerializeShape {
    open spec fn emits(before: SerializeShapeContext, after: SerializeShapeContext, r: ShapeRef) -> bool {
        match r {
            ShapeRef::Tuple(items) => items@.len() == 8 && (exists|c1: SerializeShapeContext, c2: SerializeShapeContext, c3: SerializeShapeContext, c4: SerializeShapeContext, c5: SerializeShapeContext, c6: SerializeShapeContext, c7: SerializeShapeContext| T0::emits(before, c1, items@[0]) && T1::emits(c1, c2, items@[1]) && T2::emits(c2, c3, items@[2]) && T3::emits(c3, c4, items@[3]) && T4::emits(c4, c5, items@[4]) && T5::emits(c5, c6, items@[5]) && T6::emits(c6, c7, items@[6]) && T7::emits(c7, after, items@[7])),
            _ => false,
        }
    }

    fn serialize_shape_in(context: &mut SerializeShapeContext) -> (r: ShapeRef) {
        let ghost c0 = *context;
        let mut items: Vec<ShapeRef> = Vec::new();
        let x0 = T0::serialize_shape_in(context);
        let ghost c1 = *context;
        let ghost g0 = x0;
        items.push(x0);
        let x1 = T1::serialize_shape_in(context);
        let ghost c2 = *context;
        let ghost g1 = x1;
        items.push(x1);
        let x2 = T2::serialize_shape_in(context);
        let ghost c3 = *context;
        let ghost g2 = x2;
        items.push(x2);
        let x3 = T3::serialize_shape_in(context);
        let ghost c4 = *context;
        let ghost g3 = x3;
        items.push(x3);
        let x4 = T4::serialize_shape_in(context);
        let ghost c5 = *context;
        let ghost g4 = x4;
        items.push(x4);
        let x5 = T5::serialize_shape_in(context);
        let ghost c6 = *context;
        let ghost g5 = x5;
        items.push(x5);
        let x6 = T6::serialize_shape_in(context);
        let ghost c7 = *context;
        let ghost g6 = x6;
        items.push(x6);
        let x7 = T7::serialize_shape_in(context);
        let ghost c8 = *context;
        let ghost g7 = x7;
        items.push(x7);
        proof {
            assert(items@ == seq![g0, g1, g2, g3, g4, g5, g6, g7]);
            assert(T0::emits(c0, c1, g0) && T1::emits(c1, c2, g1) && T2::emits(c2, c3, g2) && T3::emits(c3, c4, g3) && T4::emits(c4, c5, g4) && T5::emits(c5, c6, g5) && T6::emits(c6, c7, g6) && T7::emits(c7, c8, g7));
        }
        ShapeRef::Tuple(items)
    }
}

impl<T0, T1, T2, T3, T4, T5, T6, T7> DeserializeShape for (T0, T1, T2, T3, T4, T5, T6, T7,) where T0: DeserializeShape, T1: DeserializeShape, T2: DeserializeShape, T3: DeserializeShape, T4: DeserializeShape, T5: DeserializeShape, T6: DeserializeShape, T7: DeserializeShape {
    open spec fn accepts(before: DeserializeShapeContext, after: DeserializeShapeContext, r: ShapeRef) -> bool {
        match r {
            ShapeRef::Tuple(items) => items@.len() == 8 && (exists|c1: DeserializeShapeContext, c2: DeserializeShapeContext, c3: DeserializeShapeContext, c4: DeserializeShapeContext, c5: DeserializeShapeContext, c6: DeserializeShapeContext, c7: DeserializeShapeContext| T0::accepts(before, c1, items@[0]) && T1::accepts(c1, c2, items@[1]) && T2::accepts(c2, c3, items@[2]) && T3::accepts(c3, c4, items@[3]) && T4::accepts(c4, c5, items@[4]) && T5::accepts(c5, c6, items@[5]) && T6::accepts(c6, c7, items@[6]) && T7::accepts(c7, after, items@[7])),
            _ => false,
        }
    }

    fn deserialize_shape_in(context: &mut DeserializeShapeContext) -> (r: ShapeRef) {
        let ghost c0 = *context;
        let mut items: Vec<ShapeRef> = Vec::new();
        let x0 = T0::deserialize_shape_in(context);
        let ghost c1 = *context;
        let ghost g0 = x0;
        items.push(x0);
        let x1 = T1::deserialize_shape_in(context);
        let ghost c2 = *context;
        let ghost g1 = x1;
        items.push(x1);
        let x2 = T2::deserialize_shape_in(context);
        let ghost c3 = *context;
        let ghost g2 = x2;
        items.push(x2);
        let x3 = T3::deserialize_shape_in(context);
        let ghost c4 = *context;
        let ghost g3 = x3;
        items.push(x3);
        let x4 = T4::deserialize_shape_in(context);
        let ghost c5 = *context;
        let ghost g4 = x4;
        items.push(x4);
        let x5 = T5::deserialize_shape_in(context);
        let ghost c6 = *context;
        let ghost g5 = x5;
        items.push(x5);
        let x6 = T6::deserialize_shape_in(context);
        let ghost c7 = *context;
        let ghost g6 = x6;
        items.push(x6);
        let x7 = T7::deserialize_shape_in(context);
        let ghost c8 = *context;
        let ghost g7 = x7;
        items.push(x7);
        proof {
            assert(items@ == seq![g0, g1, g2, g3, g4, g5, g6, g7]);
            assert(T0::accepts(c0, c1, g0) && T1::accepts(c1, c2, g1) && T2::accepts(c2, c3, g2) && T3::accepts(c3, c4, g3) && T4::accepts(c4, c5, g4) && T5::accepts(c5, c6, g5) && T6::accepts(c6, c7, g6) && T7::accepts(c7, c8, g7));
        }
        ShapeRef::Tuple(items)
    }
}

impl<T0, T1, T2, T3, T4, T5, T6, T7, T8> SerializeShape for (T0, T1, T2, T3, T4, T5, T6, T7, T8,) where T0: SerializeShape, T1: SerializeShape, T2: SerializeShape, T3: SerializeShape, T4: SerializeShape, T5: SerializeShape, T6: SerializeShape, T7: SerializeShape, T8: SerializeShape {
    open spec fn emits(before: SerializeShapeContext, after: SerializeShapeContext, r: ShapeRef) -> bool {
        match r {
            ShapeRef::Tuple(items) => items@.len() == 9 && (exists|c1: SerializeShapeContext, c2: SerializeShapeContext, c3: SerializeShapeContext, c4: SerializeShapeContext, c5: SerializeShapeContext, c6: SerializeShapeContext, c7: SerializeShapeContext, c8: SerializeShapeContext| T0::emits(before, c1, items@[0]) && T1::emits(c1, c2, items@[1]) && T2::emits(c2, c3, items@[2]) && T3::emits(c3, c4, items@[3]) && T4::emits(c4, c5, items@[4]) && T5::emits(c5, c6, items@[5]) && T6::emits(c6, c7, items@[6]) && T7::emits(c7, c8, items@[7]) && T8::emits(c8, after, items@[8])),
            _ => false,
        }
    }

    fn serialize_shape_in(context: &mut SerializeShapeContext) -> (r: ShapeRef) {
        let ghost c0 = *context;
        let mut items: Vec<ShapeRef> = Vec::new();
        let x0 = T0::serialize_shape_in(context);
        let ghost c1 = *context;
        let ghost g0 = x0;
        items.push(x0);
        let x1 = T1::serialize_shape_in(context);
        let ghost c2 = *context;
        let ghost g1 = x1;
        items.push(x1);
        let x2 = T2::serialize_shape_in(context);
        let ghost c3 = *context;
        let ghost g2 = x2;
        items.push(x2);
        let x3 = T3::serialize_shape_in(context);
        let ghost c4 = *context;
        let ghost g3 = x3;
        items.push(x3);
        let x4 = T4::serialize_shape_in(context);
        let ghost c5 = *context;
        let ghost g4 = x4;
        items.push(x4);
        let x5 = T5::serialize_shape_in(context);
        let ghost c6 = *context;
        let ghost g5 = x5;
        items.push(x5);
        let x6 = T6::serialize_shape_in(context);
        let ghost c7 = *context;
        let ghost g6 = x6;
        items.push(x6);
        let x7 = T7::serialize_shape_in(context);
        let ghost c8 = *context;
        let ghost g7 = x7;
        items.push(x7);
        let x8 = T8::serialize_shape_in(context);
        let ghost c9 = *context;
        let ghost g8 = x8;
        items.push(x8);
        proof {
            assert(items@ == seq![g0, g1, g2, g3, g4, g5, g6, g7, g8]);
            assert(T0::emits(c0, c1, g0) && T1::emits(c1, c2, g1) && T2::emits(c2, c3, g2) && T3::emits(c3, c4, g3) && T4::emits(c4, c5, g4) && T5::emits(c5, c6, g5) && T6::emits(c6, c7, g6) && T7::emits(c7, c8, g7) && T8::emits(c8, c9, g8));
        }
        ShapeRef::Tuple(items)
    }
}

impl<T0, T1, T2, T3, T4, T5, T6, T7, T8> DeserializeShape for (T0, T1, T2, T3, T4, T5, T6, T7, T8,) where T0: DeserializeShape, T1: DeserializeShape, T2: DeserializeShape, T3: DeserializeShape, T4: DeserializeShape, T5: DeserializeShape, T6: DeserializeShape, T7: DeserializeShape, T8: DeserializeShape {
    open spec fn accepts(before: DeserializeShapeContext, after: DeserializeShapeContext, r: ShapeRef) -> bool {
        match r {
            ShapeRef::Tuple(items) => items@.len() == 9 && (exists|c1: DeserializeShapeContext, c2: DeserializeShapeContext, c3: DeserializeShapeContext, c4: DeserializeShapeContext, c5: DeserializeShapeContext, c6: DeserializeShapeContext, c7: DeserializeShapeContext, c8: DeserializeShapeContext| T0::accepts(before, c1, items@[0]) && T1::accepts(c1, c2, items@[1]) && T2::accepts(c2, c3, items@[2]) && T3::accepts(c3, c4, items@[3]) && T4::accepts(c4, c5, items@[4]) && T5::accepts(c5, c6, items@[5]) && T6::accepts(c6, c7, items@[6]) && T7::accepts(c7, c8, items@[7]) && T8::accepts(c8, after, items@[8])),
            _ => false,
        }
    }

    fn deserialize_shape_in(context: &mut DeserializeShapeContext) -> (r: ShapeRef) {
        let ghost c0 = *context;
        let mut items: Vec<ShapeRef> = Vec::new();
        let x0 = T0::deserialize_shape_in(context);
        let ghost c1 = *context;
        let ghost g0 = x0;
        items.push(x0);
        let x1 = T1::deserialize_shape_in(context);
        let ghost c2 = *context;
        let ghost g1 = x1;
        items.push(x1);
        let x2 = T2::deserialize_shape_in(context);
        let ghost c3 = *context;
        let ghost g2 = x2;
        items.push(x2);
        let x3 = T3::deserialize_shape_in(context);
        let ghost c4 = *context;
        let ghost g3 = x3;
        items.push(x3);
        let x4 = T4::deserialize_shape_in(context);
        let ghost c5 = *context;
        let ghost g4 = x4;
        items.push(x4);
        let x5 = T5::deserialize_shape_in(context);
        let ghost c6 = *context;
        let ghost g5 = x5;
        items.push(x5);
        let x6 = T6::deserialize_shape_in(context);
        let ghost c7 = *context;
        let ghost g6 = x6;
        items.push(x6);
        let x7 = T7::deserialize_shape_in(context);
        let ghost c8 = *context;
        let ghost g7 = x7;
        items.push(x7);
        let x8 = T8::deserialize_shape_in(context);
        let ghost c9 = *context;
        let ghost g8 = x8;
        items.push(x8);
        proof {
            assert(items@ == seq![g0, g1, g2, g3, g4, g5, g6, g7, g8]);
            assert(T0::accepts(c0, c1, g0) && T1::accepts(c1, c2, g1) && T2::accepts(c2, c3, g2) && T3::accepts(c3, c4, g3) && T4::accepts(c4, c5, g4) && T5::accepts(c5, c6, g5) && T6::accepts(c6, c7, g6) && T7::accepts(c7, c8, g7) && T8::accepts(c8, c9, g8));
        }
        ShapeRef::Tuple(items)
    }
}

impl<T0, T1, T2, T3, T4, T5, T6, T7, T8, T9> SerializeShape for (T0, T1, T2, T3, T4, T5, T6, T7, T8, T9,) where T0: SerializeShape, T1: SerializeShape, T2: SerializeShape, T3: SerializeShape, T4: SerializeShape, T5: SerializeShape, T6: SerializeShape, T7: SerializeShape, T8: SerializeShape, T9: SerializeShape {
    open spec fn emits(before: SerializeShapeContext, after: SerializeShapeContext, r: ShapeRef) -> bool {
        match r {
            ShapeRef::Tuple(items) => items@.len() == 10 && (exists|c1: SerializeShapeContext, c2: SerializeShapeContext, c3: SerializeShapeContext, c4: SerializeShapeContext, c5: SerializeShapeContext, c6: SerializeShapeContext, c7: SerializeShapeContext, c8: SerializeShapeContext, c9: SerializeShapeContext| T0::emits(before, c1, items@[0]) && T1::emits(c1, c2, items@[1]) && T2::emits(c2, c3, items@[2]) && T3::emits(c3, c4, items@[3]) && T4::emits(c4, c5, items@[4]) && T5::emits(c5, c6, items@[5]) && T6::emits(c6, c7, items@[6]) && T7::emits(c7, c8, items@[7]) && T8::emits(c8, c9, items@[8]) && T9::emits(c9, after, items@[9])),
            _ => false,
        }
    }

    fn serialize_shape_in(context: &mut SerializeShapeContext) -> (r: ShapeRef) {
        let ghost c0 = *context;
        let mut items: Vec<ShapeRef> = Vec::new();
        let x0 = T0::serialize_shape_in(context);
        let ghost c1 = *context;
        let ghost g0 = x0;
        items.push(x0);
        let x1 = T1::serialize_shape_in(context);
        let ghost c2 = *context;
        let ghost g1 = x1;
        items.push(x1);
        let x2 = T2::serialize_shape_in(context);
        let ghost c3 = *context;
        let ghost g2 = x2;
        items.push(x2);
        let x3 = T3::serialize_shape_in(context);
        let ghost c4 = *context;
        let ghost g3 = x3;
        items.push(x3);
        let x4 = T4::serialize_shape_in(context);
        let ghost c5 = *context;
        let ghost g4 = x4;
        items.push(x4);
        let x5 = T5::serialize_shape_in(context);
        let ghost c6 = *context;
        let ghost g5 = x5;
        items.push(x5);
        let x6 = T6::serialize_shape_in(context);
        let ghost c7 = *context;
        let ghost g6 = x6;
        items.push(x6);
        let x7 = T7::serialize_shape_in(context);
        let ghost c8 = *context;
        let ghost g7 = x7;
        items.push(x7);
        let x8 = T8::serialize_shape_in(context);
        let ghost c9 = *context;
        let ghost g8 = x8;
        items.push(x8);
        let x9 = T9::serialize_shape_in(context);
        let ghost c10 = *context;
        let ghost g9 = x9;
        items.push(x9);
        proof {
            assert(items@ == seq![g0, g1, g2, g3, g4, g5, g6, g7, g8, g9]);
            assert(T0::emits(c0, c1, g0) && T1::emits(c1, c2, g1) && T2::emits(c2, c3, g2) && T3::emits(c3, c4, g3) && T4::emits(c4, c5, g4) && T5::emits(c5, c6, g5) && T6::emits(c6, c7, g6) && T7::emits(c7, c8, g7) && T8::emits(c8, c9, g8) && T9::emits(c9, c10, g9));
        }
        ShapeRef::Tuple(items)
    }
}

impl<T0, T1, T2, T3, T4, T5, T6, T7, T8, T9> DeserializeShape for (T0, T1, T2, T3, T4, T5, T6, T7, T8, T9,) where T0: DeserializeShape, T1: DeserializeShape, T2: DeserializeShape, T3: DeserializeShape, T4: DeserializeShape, T5: DeserializeShape, T6: DeserializeShape, T7: DeserializeShape, T8: DeserializeShape, T9: DeserializeShape {
    open spec fn accepts(before: DeserializeShapeContext, after: DeserializeShapeContext, r: ShapeRef) -> bool {
        match r {
            ShapeRef::Tuple(items) => items@.len() == 10 && (exists|c1: DeserializeShapeContext, c2: DeserializeShapeContext, c3: DeserializeShapeContext, c4: DeserializeShapeContext, c5: DeserializeShapeContext, c6: DeserializeShapeContext, c7: DeserializeShapeContext, c8: DeserializeShapeContext, c9: DeserializeShapeContext| T0::accepts(before, c1, items@[0]) && T1::accepts(c1, c2, items@[1]) && T2::accepts(c2, c3, items@[2]) && T3::accepts(c3, c4, items@[3]) && T4::accepts(c4, c5, items@[4]) && T5::accepts(c5, c6, items@[5]) && T6::accepts(c6, c7, items@[6]) && T7::accepts(c7, c8, items@[7]) && T8::accepts(c8, c9, items@[8]) && T9::accepts(c9, after, items@[9])),
            _ => false,
        }
    }

    fn deserialize_shape_in(context: &mut DeserializeShapeContext) -> (r: ShapeRef) {
        let ghost c0 = *context;
        let mut items: Vec<ShapeRef> = Vec::new();
        let x0 = T0::deserialize_shape_in(context);
        let ghost c1 = *context;
        let ghost g0 = x0;
        items.push(x0);
        let x1 = T1::deserialize_shape_in(context);
        let ghost c2 = *context;
        let ghost g1 = x1;
        items.push(x1);
        let x2 = T2::deserialize_shape_in(context);
        let ghost c3 = *context;
        let ghost g2 = x2;
        items.push(x2);
        let x3 = T3::deserialize_shape_in(context);
        let ghost c4 = *context;
        let ghost g3 = x3;
        items.push(x3);
        let x4 = T4::deserialize_shape_in(context);
        let ghost c5 = *context;
        let ghost g4 = x4;
        items.push(x4);
        let x5 = T5::deserialize_shape_in(context);
        let ghost c6 = *context;
        let ghost g5 = x5;
        items.push(x5);
        let x6 = T6::deserialize_shape_in(context);
        let ghost c7 = *context;
        let ghost g6 = x6;
        items.push(x6);
        let x7 = T7::deserialize_shape_in(context);
        let ghost c8 = *context;
        let ghost g7 = x7;
        items.push(x7);
        let x8 = T8::deserialize_shape_in(context);
        let ghost c9 = *context;
        let ghost g8 = x8;
        items.push(x8);
        let x9 = T9::deserialize_shape_in(context);
        let ghost c10 = *context;
        let ghost g9 = x9;
        items.push(x9);
        proof {
            assert(items@ == seq![g0, g1, g2, g3, g4, g5, g6, g7, g8, g9]);
            assert(T0::accepts(c0, c1, g0) && T1::accepts(c1, c2, g1) && T2::accepts(c2, c3, g2) && T3::accepts(c3, c4, g3) && T4::accepts(c4, c5, g4) && T5::accepts(c5, c6, g5) && T6::accepts(c6, c7, g6) && T7::accepts(c7, c8, g7) && T8::accepts(c8, c9, g8) && T9::accepts(c9, c10, g9));
        }
        ShapeRef::Tuple(items)
    }
}

impl<T0, T1, T2, T3, T4, T5, T6, T7, T8, T9, T10> SerializeShape for (T0, T1, T2, T3, T4, T5, T6, T7, T8, T9, T10,) where T0: SerializeShape, T1: SerializeShape, T2: SerializeShape, T3: SerializeShape, T4: SerializeShape, T5: SerializeShape, T6: SerializeShape, T7: SerializeShape, T8: SerializeShape, T9: SerializeShape, T10: SerializeShape {
    open spec fn emits(before: SerializeShapeContext, after: SerializeShapeContext, r: ShapeRef) -> bool {
        match r {
            ShapeRef::Tuple(items) => items@.len() == 11 && (exists|c1: SerializeShapeContext, c2: SerializeShapeContext, c3: SerializeShapeContext, c4: SerializeShapeContext, c5: SerializeShapeContext, c6: SerializeShapeContext, c7: SerializeShapeContext, c8: SerializeShapeContext, c9: SerializeShapeContext, c10: SerializeShapeContext| T0::emits(before, c1, items@[0]) && T1::emits(c1, c2, items@[1]) && T2::emits(c2, c3, items@[2]) && T3::emits(c3, c4, items@[3]) && T4::emits(c4, c5, items@[4]) && T5::emits(c5, c6, items@[5]) && T6::emits(c6, c7, items@[6]) && T7::emits(c7, c8, items@[7]) && T8::emits(c8, c9, items@[8]) && T9::emits(c9, c10, items@[9]) && T10::emits(c10, after, items@[10])),
            _ => false,
        }
    }

    fn serialize_shape_in(context: &mut SerializeShapeContext) -> (r: ShapeRef) {
        let ghost c0 = *context;
        let mut items: Vec<ShapeRef> = Vec::new();
        let x0 = T0::serialize_shape_in(context);
        let ghost c1 = *context;
        let ghost g0 = x0;
        items.push(x0);
        let x1 = T1::serialize_shape_in(context);
        let ghost c2 = *context;
        let ghost g1 = x1;
        items.push(x1);
        let x2 = T2::serialize_shape_in(context);
        let ghost c3 = *context;
        let ghost g2 = x2;
        items.push(x2);
        let x3 = T3::serialize_shape_in(context);
        let ghost c4 = *context;
        let ghost g3 = x3;
        items.push(x3);
        let x4 = T4::serialize_shape_in(context);
        let ghost c5 = *context;
        let ghost g4 = x4;
        items.push(x4);
        let x5 = T5::serialize_shape_in(context);
        let ghost c6 = *context;
        let ghost g5 = x5;
        items.push(x5);
        let x6 = T6::serialize_shape_in(context);
        let ghost c7 = *context;
        let ghost g6 = x6;
        items.push(x6);
        let x7 = T7::serialize_shape_in(context);
        let ghost c8 = *context;
        let ghost g7 = x7;
        items.push(x7);
        let x8 = T8::serialize_shape_in(context);
        let ghost c9 = *context;
        let ghost g8 = x8;
        items.push(x8);
        let x9 = T9::serialize_shape_in(context);
        let ghost c10 = *context;
        let ghost g9 = x9;
        items.push(x9);
        let x10 = T10::serialize_shape_in(context);
        let ghost c11 = *context;
        let ghost g10 = x10;
        items.push(x10);
        proof {
            assert(items@ == seq![g0, g1, g2, g3, g4, g5, g6, g7, g8, g9, g10]);
            assert(T0::emits(c0, c1, g0) && T1::emits(c1, c2, g1) && T2::emits(c2, c3, g2) && T3::emits(c3, c4, g3) && T4::emits(c4, c5, g4) && T5::emits(c5, c6, g5) && T6::emits(c6, c7, g6) && T7::emits(c7, c8, g7) && T8::emits(c8, c9, g8) && T9::emits(c9, c10, g9) && T10::emits(c10, c11, g10));
        }
        ShapeRef::Tuple(items)
    }
}

impl<T0, T1, T2, T3, T4, T5, T6, T7, T8, T9, T10> DeserializeShape for (T0, T1, T2, T3, T4, T5, T6, T7, T8, T9, T10,) where T0: DeserializeShape, T1: DeserializeShape, T2: DeserializeShape, T3: DeserializeShape, T4: DeserializeShape, T5: DeserializeShape, T6: DeserializeShape, T7: DeserializeShape, T8: DeserializeShape, T9: DeserializeShape, T10: DeserializeShape {
    open spec fn accepts(before: DeserializeShapeContext, after: DeserializeShapeContext, r: ShapeRef) -> bool {
        match r {
            ShapeRef::Tuple(items) => items@.len() == 11 && (exists|c1: DeserializeShapeContext, c2: DeserializeShapeContext, c3: DeserializeShapeContext, c4: DeserializeShapeContext, c5: DeserializeShapeContext, c6: DeserializeShapeContext, c7: DeserializeShapeContext, c8: DeserializeShapeContext, c9: DeserializeShapeContext, c10: DeserializeShapeContext| T0::accepts(before, c1, items@[0]) && T1::accepts(c1, c2, items@[1]) && T2::accepts(c2, c3, items@[2]) && T3::accepts(c3, c4, items@[3]) && T4::accepts(c4, c5, items@[4]) && T5::accepts(c5, c6, items@[5]) && T6::accepts(c6, c7, items@[6]) && T7::accepts(c7, c8, items@[7]) && T8::accepts(c8, c9, items@[8]) && T9::accepts(c9, c10, items@[9]) && T10::accepts(c10, after, items@[10])),
            _ => false,
        }
    }

    fn deserialize_shape_in(context: &mut DeserializeShapeContext) -> (r: ShapeRef) {
        let ghost c0 = *context;
        let mut items: Vec<ShapeRef> = Vec::new();
        let x0 = T0::deserialize_shape_in(context);
        let ghost c1 = *context;
        let ghost g0 = x0;
        items.push(x0);
        let x1 = T1::deserialize_shape_in(context);
        let ghost c2 = *context;
        let ghost g1 = x1;
        items.push(x1);
        let x2 = T2::deserialize_shape_in(context);
        let ghost c3 = *context;
        let ghost g2 = x2;
        items.push(x2);
        let x3 = T3::deserialize_shape_in(context);
        let ghost c4 = *context;
        let ghost g3 = x3;
        items.push(x3);
        let x4 = T4::deserialize_shape_in(context);
        let ghost c5 = *context;
        let ghost g4 = x4;
        items.push(x4);
        let x5 = T5::deserialize_shape_in(context);
        let ghost c6 = *context;
        let ghost g5 = x5;
        items.push(x5);
        let x6 = T6::deserialize_shape_in(context);
        let ghost c7 = *context;
        let ghost g6 = x6;
        items.push(x6);
        let x7 = T7::deserialize_shape_in(context);
        let ghost c8 = *context;
        let ghost g7 = x7;
        items.push(x7);
        let x8 = T8::deserialize_shape_in(context);
        let ghost c9 = *context;
        let ghost g8 = x8;
        items.push(x8);
        let x9 = T9::deserialize_shape_in(context);
        let ghost c10 = *context;
        let ghost g9 = x9;
        items.push(x9);
        let x10 = T10::deserialize_shape_in(context);
        let ghost c11 = *context;
        let ghost g10 = x10;
        items.push(x10);
        proof {
            assert(items@ == seq![g0, g1, g2, g3, g4, g5, g6, g7, g8, g9, g10]);
            assert(T0::accepts(c0, c1, g0) && T1::accepts(c1, c2, g1) && T2::accepts(c2, c3, g2) && T3::accepts(c3, c4, g3) && T4::accepts(c4, c5, g4) && T5::accepts(c5, c6, g5) && T6::accepts(c6, c7, g6) && T7::accepts(c7, c8, g7) && T8::accepts(c8, c9, g8) && T9::accepts(c9, c10, g9) && T10::accepts(c10, c11, g10));
        }
        ShapeRef::Tuple(items)
    }
}

impl<T0, T1, T2, T3, T4, T5, T6, T7, T8, T9, T10, T11> SerializeShape for (T0, T1, T2, T3, T4, T5, T6, T7, T8, T9, T10, T11,) where T0: SerializeShape, T1: SerializeShape, T2: SerializeShape, T3: SerializeShape, T4: SerializeShape, T5: SerializeShape, T6: SerializeShape, T7: SerializeShape, T8: SerializeShape, T9: SerializeShape, T10: SerializeShape, T11: SerializeShape {
    open spec fn emits(before: SerializeShapeContext, after: SerializeShapeContext, r: ShapeRef) -> bool {
        match r {
            ShapeRef::Tuple(items) => items@.len() == 12 && (exists|c1: SerializeShapeContext, c2: SerializeShapeContext, c3: SerializeShapeContext, c4: SerializeShapeContext, c5: SerializeShapeContext, c6: SerializeShapeContext, c7: SerializeShapeContext, c8: SerializeShapeContext, c9: SerializeShapeContext, c10: SerializeShapeContext, c11: SerializeShapeContext| T0::emits(before, c1, items@[0]) && T1::emits(c1, c2, items@[1]) && T2::emits(c2, c3, items@[2]) && T3::emits(c3, c4, items@[3]) && T4::emits(c4, c5, items@[4]) && T5::emits(c5, c6, items@[5]) && T6::emits(c6, c7, items@[6]) && T7::emits(c7, c8, items@[7]) && T8::emits(c8, c9, items@[8]) && T9::emits(c9, c10, items@[9]) && T10::emits(c10, c11, items@[10]) && T11::emits(c11, after, items@[11])),
            _ => false,
        }
    }

    fn serialize_shape_in(context: &mut SerializeShapeContext) -> (r: ShapeRef) {
        let ghost c0 = *context;
        let mut items: Vec<ShapeRef> = Vec::new();
        let x0 = T0::serialize_shape_in(context);
        let ghost c1 = *context;
        let ghost g0 = x0;
        items.push(x0);
        let x1 = T1::serialize_shape_in(context);
        let ghost c2 = *context;
        let ghost g1 = x1;
        items.push(x1);
        let x2 = T2::serialize_shape_in(context);
        let ghost c3 = *context;
        let ghost g2 = x2;
        items.push(x2);
        let x3 = T3::serialize_shape_in(context);
        let ghost c4 = *context;
        let ghost g3 = x3;
        items.push(x3);
        let x4 = T4::serialize_shape_in(context);
        let ghost c5 = *context;
        let ghost g4 = x4;
        items.push(x4);
        let x5 = T5::serialize_shape_in(context);
        let ghost c6 = *context;
        let ghost g5 = x5;
        items.push(x5);
        let x6 = T6::serialize_shape_in(context);
        let ghost c7 = *context;
        let ghost g6 = x6;
        items.push(x6);
        let x7 = T7::serialize_shape_in(context);
        let ghost c8 = *context;
        let ghost g7 = x7;
        items.push(x7);
        let x8 = T8::serialize_shape_in(context);
        let ghost c9 = *context;
        let ghost g8 = x8;
        items.push(x8);
        let x9 = T9::serialize_shape_in(context);
        let ghost c10 = *context;
        let ghost g9 = x9;
        items.push(x9);
        let x10 = T10::serialize_shape_in(context);
        let ghost c11 = *context;
        let ghost g10 = x10;
        items.push(x10);
        let x11 = T11::serialize_shape_in(context);
        let ghost c12 = *context;
        let ghost g11 = x11;
        items.push(x11);
        proof {
            assert(items@ == seq![g0, g1, g2, g3, g4, g5, g6, g7, g8, g9, g10, g11]);
            assert(T0::emits(c0, c1, g0) && T1::emits(c1, c2, g1) && T2::emits(c2, c3, g2) && T3::emits(c3, c4, g3) && T4::emits(c4, c5, g4) && T5::emits(c5, c6, g5) && T6::emits(c6, c7, g6) && T7::emits(c7, c8, g7) && T8::emits(c8, c9, g8) && T9::emits(c9, c10, g9) && T10::emits(c10, c11, g10) && T11::emits(c11, c12, g11));
        }
        ShapeRef::Tuple(items)
    }
}

impl<T0, T1, T2, T3, T4, T5, T6, T7, T8, T9, T10, T11> DeserializeShape for (T0, T1, T2, T3, T4, T5, T6, T7, T8, T9, T10, T11,) where T0: DeserializeShape, T1: DeserializeShape, T2: DeserializeShape, T3: DeserializeShape, T4: DeserializeShape, T5: DeserializeShape, T6: DeserializeShape, T7: DeserializeShape, T8: DeserializeShape, T9: DeserializeShape, T10: DeserializeShape, T11: DeserializeShape {
    open spec fn accepts(before: DeserializeShapeContext, after: DeserializeShapeContext, r: ShapeRef) -> bool {
        match r {
            ShapeRef::Tuple(items) => items@.len() == 12 && (exists|c1: DeserializeShapeContext, c2: DeserializeShapeContext, c3: DeserializeShapeContext, c4: DeserializeShapeContext, c5: DeserializeShapeContext, c6: DeserializeShapeContext, c7: DeserializeShapeContext, c8: DeserializeShapeContext, c9: DeserializeShapeContext, c10: DeserializeShapeContext, c11: DeserializeShapeContext| T0::accepts(before, c1, items@[0]) && T1::accepts(c1, c2, items@[1]) && T2::accepts(c2, c3, items@[2]) && T3::accepts(c3, c4, items@[3]) && T4::accepts(c4, c5, items@[4]) && T5::accepts(c5, c6, items@[5]) && T6::accepts(c6, c7, items@[6]) && T7::accepts(c7, c8, items@[7]) && T8::accepts(c8, c9, items@[8]) && T9::accepts(c9, c10, items@[9]) && T10::accepts(c10, c11, items@[10]) && T11::accepts(c11, after, items@[11])),
            _ => false,
        }
    }

    fn deserialize_shape_in(context: &mut DeserializeShapeContext) -> (r: ShapeRef) {
        let ghost c0 = *context;
        let mut items: Vec<ShapeRef> = Vec::new();
        let x0 = T0::deserialize_shape_in(context);
        let ghost c1 = *context;
        let ghost g0 = x0;
        items.push(x0);
        let x1 = T1::deserialize_shape_in(context);
        let ghost c2 = *context;
        let ghost g1 = x1;
        items.push(x1);
        let x2 = T2::deserialize_shape_in(context);
        let ghost c3 = *context;
        let ghost g2 = x2;
        items.push(x2);
        let x3 = T3::deserialize_shape_in(context);
        let ghost c4 = *context;
        let ghost g3 = x3;
        items.push(x3);
        let x4 = T4::deserialize_shape_in(context);
        let ghost c5 = *context;
        let ghost g4 = x4;
        items.push(x4);
        let x5 = T5::deserialize_shape_in(context);
        let ghost c6 = *context;
        let ghost g5 = x5;
        items.push(x5);
        let x6 = T6::deserialize_shape_in(context);
        let ghost c7 = *context;
        let ghost g6 = x6;
        items.push(x6);
        let x7 = T7::deserialize_shape_in(context);
        let ghost c8 = *context;
        let ghost g7 = x7;
        items.push(x7);
        let x8 = T8::deserialize_shape_in(context);
        let ghost c9 = *context;
        let ghost g8 = x8;
        items.push(x8);
        let x9 = T9::deserialize_shape_in(context);
        let ghost c10 = *context;
        let ghost g9 = x9;
        items.push(x9);
        let x10 = T10::deserialize_shape_in(context);
        let ghost c11 = *context;
        let ghost g10 = x10;
        items.push(x10);
        let x11 = T11::deserialize_shape_in(context);
        let ghost c12 = *context;
        let ghost g11 = x11;
        items.push(x11);
        proof {
            assert(items@ == seq![g0, g1, g2, g3, g4, g5, g6, g7, g8, g9, g10, g11]);
            assert(T0::accepts(c0, c1, g0) && T1::accepts(c1, c2, g1) && T2::accepts(c2, c3, g2) && T3::accepts(c3, c4, g3) && T4::accepts(c4, c5, g4) && T5::accepts(c5, c6, g5) && T6::accepts(c6, c7, g6) && T7::accepts(c7, c8, g7) && T8::accepts(c8, c9, g8) && T9::accepts(c9, c10, g9) && T10::accepts(c10, c11, g10) && T11::accepts(c11, c12, g11));
        }
        ShapeRef::Tuple(items)
    }
}

impl<T0, T1, T2, T3, T4, T5, T6, T7, T8, T9, T10, T11, T12> SerializeShape for (T0, T1, T2, T3, T4, T5, T6, T7, T8, T9, T10, T11, T12,) where T0: SerializeShape, T1: SerializeShape, T2: SerializeShape, T3: SerializeShape, T4: SerializeShape, T5: SerializeShape, T6: SerializeShape, T7: SerializeShape, T8: SerializeShape, T9: SerializeShape, T10: SerializeShape, T11: SerializeShape, T12: SerializeShape {
    open spec fn emits(before: SerializeShapeContext, after: SerializeShapeContext, r: ShapeRef) -> bool {
        match r {
            ShapeRef::Tuple(items) => items@.len() == 13 && (exists|c1: SerializeShapeContext, c2: SerializeShapeContext, c3: SerializeShapeContext, c4: SerializeShapeContext, c5: SerializeShapeContext, c6: SerializeShapeContext, c7: SerializeShapeContext, c8: SerializeShapeContext, c9: SerializeShapeContext, c10: SerializeShapeContext, c11: SerializeShapeContext, c12: SerializeShapeContext| T0::emits(before, c1, items@[0]) && T1::emits(c1, c2, items@[1]) && T2::emits(c2, c3, items@[2]) && T3::emits(c3, c4, items@[3]) && T4::emits(c4, c5, items@[4]) && T5::emits(c5, c6, items@[5]) && T6::emits(c6, c7, items@[6]) && T7::emits(c7, c8, items@[7]) && T8::emits(c8, c9, items@[8]) && T9::emits(c9, c10, items@[9]) && T10::emits(c10, c11, items@[10]) && T11::emits(c11, c12, items@[11]) && T12::emits(c12, after, items@[12])),
            _ => false,
        }
    }

    fn serialize_shape_in(context: &mut SerializeShapeContext) -> (r: ShapeRef) {
        let ghost c0 = *context;
        let mut items: Vec<ShapeRef> = Vec::new();
        let x0 = T0::serialize_shape_in(context);
        let ghost c1 = *context;
        let ghost g0 = x0;
        items.push(x0);
        let x1 = T1::serialize_shape_in(context);
        let ghost c2 = *context;
        let ghost g1 = x1;
        items.push(x1);
        let x2 = T2::serialize_shape_in(context);
        let ghost c3 = *context;
        let ghost g2 = x2;
        items.push(x2);
        let x3 = T3::serialize_shape_in(context);
        let ghost c4 = *context;
        let ghost g3 = x3;
        items.push(x3);
        let x4 = T4::serialize_shape_in(context);
        let ghost c5 = *context;
        let ghost g4 = x4;
        items.push(x4);
        let x5 = T5::serialize_shape_in(context);
        let ghost c6 = *context;
        let ghost g5 = x5;
        items.push(x5);
        let x6 = T6::serialize_shape_in(context);
        let ghost c7 = *context;
        let ghost g6 = x6;
        items.push(x6);
        let x7 = T7::serialize_shape_in(context);
        let ghost c8 = *context;
        let ghost g7 = x7;
        items.push(x7);
        let x8 = T8::serialize_shape_in(context);
        let ghost c9 = *context;
        let ghost g8 = x8;
        items.push(x8);
        let x9 = T9::serialize_shape_in(context);
        let ghost c10 = *context;
        let ghost g9 = x9;
        items.push(x9);
        let x10 = T10::serialize_shape_in(context);
        let ghost c11 = *context;
        let ghost g10 = x10;
        items.push(x10);
        let x11 = T11::serialize_shape_in(context);
        let ghost c12 = *context;
        let ghost g11 = x11;
        items.push(x11);
        let x12 = T12::serialize_shape_in(context);
        let ghost c13 = *context;
        let ghost g12 = x12;
        items.push(x12);
        proof {
            assert(items@ == seq![g0, g1, g2, g3, g4, g5, g6, g7, g8, g9, g10, g11, g12]);
            assert(T0::emits(c0, c1, g0) && T1::emits(c1, c2, g1) && T2::emits(c2, c3, g2) && T3::emits(c3, c4, g3) && T4::emits(c4, c5, g4) && T5::emits(c5, c6, g5) && T6::emits(c6, c7, g6) && T7::emits(c7, c8, g7) && T8::emits(c8, c9, g8) && T9::emits(c9, c10, g9) && T10::emits(c10, c11, g10) && T11::emits(c11, c12, g11) && T12::emits(c12, c13, g12));
        }
        ShapeRef::Tuple(items)
    }
}

impl<T0, T1, T2, T3, T4, T5, T6, T7, T8, T9, T10, T11, T12> DeserializeShape for (T0, T1, T2, T3, T4, T5, T6, T7, T8, T9, T10, T11, T12,) where T0: DeserializeShape, T1: DeserializeShape, T2: DeserializeShape, T3: DeserializeShape, T4: DeserializeShape, T5: DeserializeShape, T6: DeserializeShape, T7: DeserializeShape, T8: DeserializeShape, T9: DeserializeShape, T10: DeserializeShape, T11: DeserializeShape, T12: DeserializeShape {
    open spec fn accepts(before: DeserializeShapeContext, after: DeserializeShapeContext, r: ShapeRef) -> bool {
        match r {
            ShapeRef::Tuple(items) => items@.len() == 13 && (exists|c1: DeserializeShapeContext, c2: DeserializeShapeContext, c3: DeserializeShapeContext, c4: DeserializeShapeContext, c5: DeserializeShapeContext, c6: DeserializeShapeContext, c7: DeserializeShapeContext, c8: DeserializeShapeContext, c9: DeserializeShapeContext, c10: DeserializeShapeContext, c11: DeserializeShapeContext, c12: DeserializeShapeContext| T0::accepts(before, c1, items@[0]) && T1::accepts(c1, c2, items@[1]) && T2::accepts(c2, c3, items@[2]) && T3::accepts(c3, c4, items@[3]) && T4::accepts(c4, c5, items@[4]) && T5::accepts(c5, c6, items@[5]) && T6::accepts(c6, c7, items@[6]) && T7::accepts(c7, c8, items@[7]) && T8::accepts(c8, c9, items@[8]) && T9::accepts(c9, c10, items@[9]) && T10::accepts(c10, c11, items@[10]) && T11::accepts(c11, c12, items@[11]) && T12::accepts(c12, after, items@[12])),
            _ => false,
        }
    }

    fn deserialize_shape_in(context: &mut DeserializeShapeContext) -> (r: ShapeRef) {
        let ghost c0 = *context;
        let mut items: Vec<ShapeRef> = Vec::new();
        let x0 = T0::deserialize_shape_in(context);
        let ghost c1 = *context;
        let ghost g0 = x0;
        items.push(x0);
        let x1 = T1::deserialize_shape_in(context);
        let ghost c2 = *context;
        let ghost g1 = x1;
        items.push(x1);
        let x2 = T2::deserialize_shape_in(context);
        let ghost c3 = *context;
        let ghost g2 = x2;
        items.push(x2);
        let x3 = T3::deserialize_shape_in(context);
        let ghost c4 = *context;
        let ghost g3 = x3;
        items.push(x3);
        let x4 = T4::deserialize_shape_in(context);
        let ghost c5 = *context;
        let ghost g4 = x4;
        items.push(x4);
        let x5 = T5::deserialize_shape_in(context);
        let ghost c6 = *context;
        let ghost g5 = x5;
        items.push(x5);
        let x6 = T6::deserialize_shape_in(context);
        let ghost c7 = *context;
        let ghost g6 = x6;
        items.push(x6);
        let x7 = T7::deserialize_shape_in(context);
        let ghost c8 = *context;
        let ghost g7 = x7;
        items.push(x7);
        let x8 = T8::deserialize_shape_in(context);
        let ghost c9 = *context;
        let ghost g8 = x8;
        items.push(x8);
        let x9 = T9::deserialize_shape_in(context);
        let ghost c10 = *context;
        let ghost g9 = x9;
        items.push(x9);
        let x10 = T10::deserialize_shape_in(context);
        let ghost c11 = *context;
        let ghost g10 = x10;
        items.push(x10);
        let x11 = T11::deserialize_shape_in(context);
        let ghost c12 = *context;
        let ghost g11 = x11;
        items.push(x11);
        let x12 = T12::deserialize_shape_in(context);
        let ghost c13 = *context;
        let ghost g12 = x12;
        items.push(x12);
        proof {
            assert(items@ == seq![g0, g1, g2, g3, g4, g5, g6, g7, g8, g9, g10, g11, g12]);
            assert(T0::accepts(c0, c1, g0) && T1::accepts(c1, c2, g1) && T2::accepts(c2, c3, g2) && T3::accepts(c3, c4, g3) && T4::accepts(c4, c5, g4) && T5::accepts(c5, c6, g5) && T6::accepts(c6, c7, g6) && T7::accepts(c7, c8, g7) && T8::accepts(c8, c9, g8) && T9::accepts(c9, c10, g9) && T10::accepts(c10, c11, g10) && T11::accepts(c11, c12, g11) && T12::accepts(c12, c13, g12));
        }
        ShapeRef::Tuple(items)
    }
}

impl<T0, T1, T2, T3, T4, T5, T6, T7, T8, T9, T10, T11, T12, T13> SerializeShape for (T0, T1, T2, T3, T4, T5, T6, T7, T8, T9, T10, T11, T12, T13,) where T0: SerializeShape, T1: SerializeShape, T2: SerializeShape, T3: SerializeShape, T4: SerializeShape, T5: SerializeShape, T6: SerializeShape, T7: SerializeShape, T8: SerializeShape, T9: SerializeShape, T10: SerializeShape, T11: SerializeShape, T12: SerializeShape, T13: SerializeShape {
    open spec fn emits(before: SerializeShapeContext, after: SerializeShapeContext, r: ShapeRef) -> bool {
        match r {
            ShapeRef::Tuple(items) => items@.len() == 14 && (exists|c1: SerializeShapeContext, c2: SerializeShapeContext, c3: SerializeShapeContext, c4: SerializeShapeContext, c5: SerializeShapeContext, c6: SerializeShapeContext, c7: SerializeShapeContext, c8: SerializeShapeContext, c9: SerializeShapeContext, c10: SerializeShapeContext, c11: SerializeShapeContext, c12: SerializeShapeContext, c13: SerializeShapeContext| T0::emits(before, c1, items@[0]) && T1::emits(c1, c2, items@[1]) && T2::emits(c2, c3, items@[2]) && T3::emits(c3, c4, items@[3]) && T4::emits(c4, c5, items@[4]) && T5::emits(c5, c6, items@[5]) && T6::emits(c6, c7, items@[6]) && T7::emits(c7, c8, items@[7]) && T8::emits(c8, c9, items@[8]) && T9::emits(c9, c10, items@[9]) && T10::emits(c10, c11, items@[10]) && T11::emits(c11, c12, items@[11]) && T12::emits(c12, c13, items@[12]) && T13::emits(c13, after, items@[13])),
            _ => false,
        }
    }

    fn serialize_shape_in(context: &mut SerializeShapeContext) -> (r: ShapeRef) {
        let ghost c0 = *context;
        let mut items: Vec<ShapeRef> = Vec::new();
        let x0 = T0::serialize_shape_in(context);
        let ghost c1 = *context;
        let ghost g0 = x0;
        items.push(x0);
        let x1 = T1::serialize_shape_in(context);
        let ghost c2 = *context;
        let ghost g1 = x1;
        items.push(x1);
        let x2 = T2::serialize_shape_in(context);
        let ghost c3 = *context;
        let ghost g2 = x2;
        items.push(x2);
        let x3 = T3::serialize_shape_in(context);
        let ghost c4 = *context;
        let ghost g3 = x3;
        items.push(x3);
        let x4 = T4::serialize_shape_in(context);
        let ghost c5 = *context;
        let ghost g4 = x4;
        items.push(x4);
        let x5 = T5::serialize_shape_in(context);
        let ghost c6 = *context;
        let ghost g5 = x5;
        items.push(x5);
        let x6 = T6::serialize_shape_in(context);
        let ghost c7 = *context;
        let ghost g6 = x6;
        items.push(x6);
        let x7 = T7::serialize_shape_in(context);
        let ghost c8 = *context;
        let ghost g7 = x7;
        items.push(x7);
        let x8 = T8::serialize_shape_in(context);
        let ghost c9 = *context;
        let ghost g8 = x8;
        items.push(x8);
        let x9 = T9::serialize_shape_in(context);
        let ghost c10 = *context;
        let ghost g9 = x9;
        items.push(x9);
        let x10 = T10::serialize_shape_in(context);
        let ghost c11 = *context;
        let ghost g10 = x10;
        items.push(x10);
        let x11 = T11::serialize_shape_in(context);
        let ghost c12 = *context;
        let ghost g11 = x11;
        items.push(x11);
        let x12 = T12::serialize_shape_in(context);
        let ghost c13 = *context;
        let ghost g12 = x12;
        items.push(x12);
        let x13 = T13::serialize_shape_in(context);
        let ghost c14 = *context;
        let ghost g13 = x13;
        items.push(x13);
        proof {
            assert(items@ == seq![g0, g1, g2, g3, g4, g5, g6, g7, g8, g9, g10, g11, g12, g13]);
            assert(T0::emits(c0, c1, g0) && T1::emits(c1, c2, g1) && T2::emits(c2, c3, g2) && T3::emits(c3, c4, g3) && T4::emits(c4, c5, g4) && T5::emits(c5, c6, g5) && T6::emits(c6, c7, g6) && T7::emits(c7, c8, g7) && T8::emits(c8, c9, g8) && T9::emits(c9, c10, g9) && T10::emits(c10, c11, g10) && T11::emits(c11, c12, g11) && T12::emits(c12, c13, g12) && T13::emits(c13, c14, g13));
        }
        ShapeRef::Tuple(items)
    }
}

impl<T0, T1, T2, T3, T4, T5, T6, T7, T8, T9, T10, T11, T12, T13> DeserializeShape for (T0, T1, T2, T3, T4, T5, T6, T7, T8, T9, T10, T11, T12, T13,) where T0: DeserializeShape, T1: DeserializeShape, T2: DeserializeShape, T3: DeserializeShape, T4: DeserializeShape, T5: DeserializeShape, T6: DeserializeShape, T7: DeserializeShape, T8: DeserializeShape, T9: DeserializeShape, T10: DeserializeShape, T11: DeserializeShape, T12: DeserializeShape, T13: DeserializeShape {
    open spec fn accepts(before: DeserializeShapeContext, after: DeserializeShapeContext, r: ShapeRef) -> bool {
        match r {
            ShapeRef::Tuple(items) => items@.len() == 14 && (exists|c1: DeserializeShapeContext, c2: DeserializeShapeContext, c3: DeserializeShapeContext, c4: DeserializeShapeContext, c5: DeserializeShapeContext, c6: DeserializeShapeContext, c7: DeserializeShapeContext, c8: DeserializeShapeContext, c9: DeserializeShapeContext, c10: DeserializeShapeContext, c11: DeserializeShapeContext, c12: DeserializeShapeContext, c13: DeserializeShapeContext| T0::accepts(before, c1, items@[0]) && T1::accepts(c1, c2, items@[1]) && T2::accepts(c2, c3, items@[2]) && T3::accepts(c3, c4, items@[3]) && T4::accepts(c4, c5, items@[4]) && T5::accepts(c5, c6, items@[5]) && T6::accepts(c6, c7, items@[6]) && T7::accepts(c7, c8, items@[7]) && T8::accepts(c8, c9, items@[8]) && T9::accepts(c9, c10, items@[9]) && T10::accepts(c10, c11, items@[10]) && T11::accepts(c11, c12, items@[11]) && T12::accepts(c12, c13, items@[12]) && T13::accepts(c13, after, items@[13])),
            _ => false,
        }
    }

    fn deserialize_shape_in(context: &mut DeserializeShapeContext) -> (r: ShapeRef) {
        let ghost c0 = *context;
        let mut items: Vec<ShapeRef> = Vec::new();
        let x0 = T0::deserialize_shape_in(context);
        let ghost c1 = *context;
        let ghost g0 = x0;
        items.push(x0);
        let x1 = T1::deserialize_shape_in(context);
        let ghost c2 = *context;
        let ghost g1 = x1;
        items.push(x1);
        let x2 = T2::deserialize_shape_in(context);
        let ghost c3 = *context;
        let ghost g2 = x2;
        items.push(x2);
        let x3 = T3::deserialize_shape_in(context);
        let ghost c4 = *context;
        let ghost g3 = x3;
        items.push(x3);
        let x4 = T4::deserialize_shape_in(context);
        let ghost c5 = *context;
        let ghost g4 = x4;
        items.push(x4);
        let x5 = T5::deserialize_shape_in(context);
        let ghost c6 = *context;
        let ghost g5 = x5;
        items.push(x5);
        let x6 = T6::deserialize_shape_in(context);
        let ghost c7 = *context;
        let ghost g6 = x6;
        items.push(x6);
        let x7 = T7::deserialize_shape_in(context);
        let ghost c8 = *context;
        let ghost g7 = x7;
        items.push(x7);
        let x8 = T8::deserialize_shape_in(context);
        let ghost c9 = *context;
        let ghost g8 = x8;
        items.push(x8);
        let x9 = T9::deserialize_shape_in(context);
        let ghost c10 = *context;
        let ghost g9 = x9;
        items.push(x9);
        let x10 = T10::deserialize_shape_in(context);
        let ghost c11 = *context;
        let ghost g10 = x10;
        items.push(x10);
        let x11 = T11::deserialize_shape_in(context);
        let ghost c12 = *context;
        let ghost g11 = x11;
        items.push(x11);
        let x12 = T12::deserialize_shape_in(context);
        let ghost c13 = *context;
        let ghost g12 = x12;
        items.push(x12);
        let x13 = T13::deserialize_shape_in(context);
        let ghost c14 = *context;
        let ghost g13 = x13;
        items.push(x13);
        proof {
            assert(items@ == seq![g0, g1, g2, g3, g4, g5, g6, g7, g8, g9, g10, g11, g12, g13]);
            assert(T0::accepts(c0, c1, g0) && T1::accepts(c1, c2, g1) && T2::accepts(c2, c3, g2) && T3::accepts(c3, c4, g3) && T4::accepts(c4, c5, g4) && T5::accepts(c5, c6, g5) && T6::accepts(c6, c7, g6) && T7::accepts(c7, c8, g7) && T8::accepts(c8, c9, g8) && T9::accepts(c9, c10, g9) && T10::accepts(c10, c11, g10) && T11::accepts(c11, c12, g11) && T12::accepts(c12, c13, g12) && T13::accepts(c13, c14, g13));
        }
        ShapeRef::Tuple(items)
    }
}

impl<T0, T1, T2, T3, T4, T5, T6, T7, T8, T9, T10, T11, T12, T13, T14> SerializeShape for (T0, T1, T2, T3, T4, T5, T6, T7, T8, T9, T10, T11, T12, T13, T14,) where T0: SerializeShape, T1: SerializeShape, T2: SerializeShape, T3: SerializeShape, T4: SerializeShape, T5: SerializeShape, T6: SerializeShape, T7: SerializeShape, T8: SerializeShape, T9: SerializeShape, T10: SerializeShape, T11: SerializeShape, T12: SerializeShape, T13: SerializeShape, T14: SerializeShape {
    open spec fn emits(before: SerializeShapeContext, after: SerializeShapeContext, r: ShapeRef) -> bool {
        match r {
            ShapeRef::Tuple(items) => items@.len() == 15 && (exists|c1: SerializeShapeContext, c2: SerializeShapeContext, c3: SerializeShapeContext, c4: SerializeShapeContext, c5: SerializeShapeContext, c6: SerializeShapeContext, c7: SerializeShapeContext, c8: SerializeShapeContext, c9: SerializeShapeContext, c10: SerializeShapeContext, c11: SerializeShapeContext, c12: SerializeShapeContext, c13: SerializeShapeContext, c14: SerializeShapeContext| T0::emits(before, c1, items@[0]) && T1::emits(c1, c2, items@[1]) && T2::emits(c2, c3, items@[2]) && T3::emits(c3, c4, items@[3]) && T4::emits(c4, c5, items@[4]) && T5::emits(c5, c6, items@[5]) && T6::emits(c6, c7, items@[6]) && T7::emits(c7, c8, items@[7]) && T8::emits(c8, c9, items@[8]) && T9::emits(c9, c10, items@[9]) && T10::emits(c10, c11, items@[10]) && T11::emits(c11, c12, items@[11]) && T12::emits(c12, c13, items@[12]) && T13::emits(c13, c14, items@[13]) && T14::emits(c14, after, items@[14])),
            _ => false,
        }
    }

    fn serialize_shape_in(context: &mut SerializeShapeContext) -> (r: ShapeRef) {
        let ghost c0 = *context;
        let mut items: Vec<ShapeRef> = Vec::new();
        let x0 = T0::serialize_shape_in(context);
        let ghost c1 = *context;
        let ghost g0 = x0;
        items.push(x0);
        let x1 = T1::serialize_shape_in(context);
        let ghost c2 = *context;
        let ghost g1 = x1;
        items.push(x1);
        let x2 = T2::serialize_shape_in(context);
        let ghost c3 = *context;
        let ghost g2 = x2;
        items.push(x2);
        let x3 = T3::serialize_shape_in(context);
        let ghost c4 = *context;
        let ghost g3 = x3;
        items.push(x3);
        let x4 = T4::serialize_shape_in(context);
        let ghost c5 = *context;
        let ghost g4 = x4;
        items.push(x4);
        let x5 = T5::serialize_shape_in(context);
        let ghost c6 = *context;
        let ghost g5 = x5;
        items.push(x5);
        let x6 = T6::serialize_shape_in(context);
        let ghost c7 = *context;
        let ghost g6 = x6;
        items.push(x6);
        let x7 = T7::serialize_shape_in(context);
        let ghost c8 = *context;
        let ghost g7 = x7;
        items.push(x7);
        let x8 = T8::serialize_shape_in(context);
        let ghost c9 = *context;
        let ghost g8 = x8;
        items.push(x8);
        let x9 = T9::serialize_shape_in(context);
        let ghost c10 = *context;
        let ghost g9 = x9;
        items.push(x9);
        let x10 = T10::serialize_shape_in(context);
        let ghost c11 = *context;
        let ghost g10 = x10;
        items.push(x10);
        let x11 = T11::serialize_shape_in(context);
        let ghost c12 = *context;
        let ghost g11 = x11;
        items.push(x11);
        let x12 = T12::serialize_shape_in(context);
        let ghost c13 = *context;
        let ghost g12 = x12;
        items.push(x12);
        let x13 = T13::serialize_shape_in(context);
        let ghost c14 = *context;
        let ghost g13 = x13;
        items.push(x13);
        let x14 = T14::serialize_shape_in(context);
        let ghost c15 = *context;
        let ghost g14 = x14;
        items.push(x14);
        proof {
            assert(items@ == seq![g0, g1, g2, g3, g4, g5, g6, g7, g8, g9, g10, g11, g12, g13, g14]);
            assert(T0::emits(c0, c1, g0) && T1::emits(c1, c2, g1) && T2::emits(c2, c3, g2) && T3::emits(c3, c4, g3) && T4::emits(c4, c5, g4) && T5::emits(c5, c6, g5) && T6::emits(c6, c7, g6) && T7::emits(c7, c8, g7) && T8::emits(c8, c9, g8) && T9::emits(c9, c10, g9) && T10::emits(c10, c11, g10) && T11::emits(c11, c12, g11) && T12::emits(c12, c13, g12) && T13::emits(c13, c14, g13) && T14::emits(c14, c15, g14));
        }
        ShapeRef::Tuple(items)
    }
}

impl<T0, T1, T2, T3, T4, T5, T6, T7, T8, T9, T10, T11, T12, T13, T14> DeserializeShape for (T0, T1, T2, T3, T4, T5, T6, T7, T8, T9, T10, T11, T12, T13, T14,) where T0: DeserializeShape, T1: DeserializeShape, T2: DeserializeShape, T3: DeserializeShape, T4: DeserializeShape, T5: DeserializeShape, T6: DeserializeShape, T7: DeserializeShape, T8: DeserializeShape, T9: DeserializeShape, T10: DeserializeShape, T11: DeserializeShape, T12: DeserializeShape, T13: DeserializeShape, T14: DeserializeShape {
    open spec fn accepts(before: DeserializeShapeContext, after: DeserializeShapeContext, r: ShapeRef) -> bool {
        match r {
            ShapeRef::Tuple(items) => items@.len() == 15 && (exists|c1: DeserializeShapeContext, c2: DeserializeShapeContext, c3: DeserializeShapeContext, c4: DeserializeShapeContext, c5: DeserializeShapeContext, c6: DeserializeShapeContext, c7: DeserializeShapeContext, c8: DeserializeShapeContext, c9: DeserializeShapeContext, c10: DeserializeShapeContext, c11: DeserializeShapeContext, c12: DeserializeShapeContext, c13: DeserializeShapeContext, c14: DeserializeShapeContext| T0::accepts(before, c1, items@[0]) && T1::accepts(c1, c2, items@[1]) && T2::accepts(c2, c3, items@[2]) && T3::accepts(c3, c4, items@[3]) && T4::accepts(c4, c5, items@[4]) && T5::accepts(c5, c6, items@[5]) && T6::accepts(c6, c7, items@[6]) && T7::accepts(c7, c8, items@[7]) && T8::accepts(c8, c9, items@[8]) && T9::accepts(c9, c10, items@[9]) && T10::accepts(c10, c11, items@[10]) && T11::accepts(c11, c12, items@[11]) && T12::accepts(c12, c13, items@[12]) && T13::accepts(c13, c14, items@[13]) && T14::accepts(c14, after, items@[14])),
            _ => false,
        }
    }

    fn deserialize_shape_in(context: &mut DeserializeShapeContext) -> (r: ShapeRef) {
        let ghost c0 = *context;
        let mut items: Vec<ShapeRef> = Vec::new();
        let x0 = T0::deserialize_shape_in(context);
        let ghost c1 = *context;
        let ghost g0 = x0;
        items.push(x0);
        let x1 = T1::deserialize_shape_in(context);
        let ghost c2 = *context;
        let ghost g1 = x1;
        items.push(x1);
        let x2 = T2::deserialize_shape_in(context);
        let ghost c3 = *context;
        let ghost g2 = x2;
        items.push(x2);
        let x3 = T3::deserialize_shape_in(context);
        let ghost c4 = *context;
        let ghost g3 = x3;
        items.push(x3);
        let x4 = T4::deserialize_shape_in(context);
        let ghost c5 = *context;
        let ghost g4 = x4;
        items.push(x4);
        let x5 = T5::deserialize_shape_in(context);
        let ghost c6 = *context;
        let ghost g5 = x5;
        items.push(x5);
        let x6 = T6::deserialize_shape_in(context);
        let ghost c7 = *context;
        let ghost g6 = x6;
        items.push(x6);
        let x7 = T7::deserialize_shape_in(context);
        let ghost c8 = *context;
        let ghost g7 = x7;
        items.push(x7);
        let x8 = T8::deserialize_shape_in(context);
        let ghost c9 = *context;
        let ghost g8 = x8;
        items.push(x8);
        let x9 = T9::deserialize_shape_in(context);
        let ghost c10 = *context;
        let ghost g9 = x9;
        items.push(x9);
        let x10 = T10::deserialize_shape_in(context);
        let ghost c11 = *context;
        let ghost g10 = x10;
        items.push(x10);
        let x11 = T11::deserialize_shape_in(context);
        let ghost c12 = *context;
        let ghost g11 = x11;
        items.push(x11);
        let x12 = T12::deserialize_shape_in(context);
        let ghost c13 = *context;
        let ghost g12 = x12;
        items.push(x12);
        let x13 = T13::deserialize_shape_in(context);
        let ghost c14 = *context;
        let ghost g13 = x13;
        items.push(x13);
        let x14 = T14::deserialize_shape_in(context);
        let ghost c15 = *context;
        let ghost g14 = x14;
        items.push(x14);
        proof {
            assert(items@ == seq![g0, g1, g2, g3, g4, g5, g6, g7, g8, g9, g10, g11, g12, g13, g14]);
            assert(T0::accepts(c0, c1, g0) && T1::accepts(c1, c2, g1) && T2::accepts(c2, c3, g2) && T3::accepts(c3, c4, g3) && T4::accepts(c4, c5, g4) && T5::accepts(c5, c6, g5) && T6::accepts(c6, c7, g6) && T7::accepts(c7, c8, g7) && T8::accepts(c8, c9, g8) && T9::accepts(c9, c10, g9) && T10::accepts(c10, c11, g10) && T11::accepts(c11, c12, g11) && T12::accepts(c12, c13, g12) && T13::accepts(c13, c14, g13) && T14::accepts(c14, c15, g14));
        }
        ShapeRef::Tuple(items)
    }
}

impl<T0, T1, T2, T3, T4, T5, T6, T7, T8, T9, T10, T11, T12, T13, T14, T15> SerializeShape for (T0, T1, T2, T3, T4, T5, T6, T7, T8, T9, T10, T11, T12, T13, T14, T15,) where T0: SerializeShape, T1: SerializeShape, T2: SerializeShape, T3: SerializeShape, T4: SerializeShape, T5: SerializeShape, T6: SerializeShape, T7: SerializeShape, T8: SerializeShape, T9: SerializeShape, T10: SerializeShape, T11: SerializeShape, T12: SerializeShape, T13: SerializeShape, T14: SerializeShape, T15: SerializeShape {
    open spec fn emits(before: SerializeShapeContext, after: SerializeShapeContext, r: ShapeRef) -> bool {
        match r {
            ShapeRef::Tuple(items) => items@.len() == 16 && (exists|c1: SerializeShapeContext, c2: SerializeShapeContext, c3: SerializeShapeContext, c4: SerializeShapeContext, c5: SerializeShapeContext, c6: SerializeShapeContext, c7: SerializeShapeContext, c8: SerializeShapeContext, c9: SerializeShapeContext, c10: SerializeShapeContext, c11: SerializeShapeContext, c12: SerializeShapeContext, c13: SerializeShapeContext, c14: SerializeShapeContext, c15: SerializeShapeContext| T0::emits(before, c1, items@[0]) && T1::emits(c1, c2, items@[1]) && T2::emits(c2, c3, items@[2]) && T3::emits(c3, c4, items@[3]) && T4::emits(c4, c5, items@[4]) && T5::emits(c5, c6, items@[5]) && T6::emits(c6, c7, items@[6]) && T7::emits(c7, c8, items@[7]) && T8::emits(c8, c9, items@[8]) && T9::emits(c9, c10, items@[9]) && T10::emits(c10, c11, items@[10]) && T11::emits(c11, c12, items@[11]) && T12::emits(c12, c13, items@[12]) && T13::emits(c13, c14, items@[13]) && T14::emits(c14, c15, items@[14]) && T15::emits(c15, after, items@[15])),
            _ => false,
        }
    }

    fn serialize_shape_in(context: &mut SerializeShapeContext) -> (r: ShapeRef) {
        let ghost c0 = *context;
        let mut items: Vec<ShapeRef> = Vec::new();
        let x0 = T0::serialize_shape_in(context);
        let ghost c1 = *context;
        let ghost g0 = x0;
        items.push(x0);
        let x1 = T1::serialize_shape_in(context);
        let ghost c2 = *context;
        let ghost g1 = x1;
        items.push(x1);
        let x2 = T2::serialize_shape_in(context);
        let ghost c3 = *context;
        let ghost g2 = x2;
        items.push(x2);
        let x3 = T3::serialize_shape_in(context);
        let ghost c4 = *context;
        let ghost g3 = x3;
        items.push(x3);
        let x4 = T4::serialize_shape_in(context);
        let ghost c5 = *context;
        let ghost g4 = x4;
        items.push(x4);
        let x5 = T5::serialize_shape_in(context);
        let ghost c6 = *context;
        let ghost g5 = x5;
        items.push(x5);
        let x6 = T6::serialize_shape_in(context);
        let ghost c7 = *context;
        let ghost g6 = x6;
        items.push(x6);
        let x7 = T7::serialize_shape_in(context);
        let ghost c8 = *context;
        let ghost g7 = x7;
        items.push(x7);
        let x8 = T8::serialize_shape_in(context);
        let ghost c9 = *context;
        let ghost g8 = x8;
        items.push(x8);
        let x9 = T9::serialize_shape_in(context);
        let ghost c10 = *context;
        let ghost g9 = x9;
        items.push(x9);
        let x10 = T10::serialize_shape_in(context);
        let ghost c11 = *context;
        let ghost g10 = x10;
        items.push(x10);
        let x11 = T11::serialize_shape_in(context);
        let ghost c12 = *context;
        let ghost g11 = x11;
        items.push(x11);
        let x12 = T12::serialize_shape_in(context);
        let ghost c13 = *context;
        let ghost g12 = x12;
        items.push(x12);
        let x13 = T13::serialize_shape_in(context);
        let ghost c14 = *context;
        let ghost g13 = x13;
        items.push(x13);
        let x14 = T14::serialize_shape_in(context);
        let ghost c15 = *context;
        let ghost g14 = x14;
        items.push(x14);
        let x15 = T15::serialize_shape_in(context);
        let ghost c16 = *context;
        let ghost g15 = x15;
        items.push(x15);
        proof {
            assert(items@ == seq![g0, g1, g2, g3, g4, g5, g6, g7, g8, g9, g10, g11, g12, g13, g14, g15]);
            assert(T0::emits(c0, c1, g0) && T1::emits(c1, c2, g1) && T2::emits(c2, c3, g2) && T3::emits(c3, c4, g3) && T4::emits(c4, c5, g4) && T5::emits(c5, c6, g5) && T6::emits(c6, c7, g6) && T7::emits(c7, c8, g7) && T8::emits(c8, c9, g8) && T9::emits(c9, c10, g9) && T10::emits(c10, c11, g10) && T11::emits(c11, c12, g11) && T12::emits(c12, c13, g12) && T13::emits(c13, c14, g13) && T14::emits(c14, c15, g14) && T15::emits(c15, c16, g15));
        }
        ShapeRef::Tuple(items)
    }
}

impl<T0, T1, T2, T3, T4, T5, T6, T7, T8, T9, T10, T11, T12, T13, T14, T15> DeserializeShape for (T0, T1, T2, T3, T4, T5, T6, T7, T8, T9, T10, T11, T12, T13, T14, T15,) where T0: DeserializeShape, T1: DeserializeShape, T2: DeserializeShape, T3: DeserializeShape, T4: DeserializeShape, T5: DeserializeShape, T6: DeserializeShape, T7: DeserializeShape, T8: DeserializeShape, T9: DeserializeShape, T10: DeserializeShape, T11: DeserializeShape, T12: DeserializeShape, T13: DeserializeShape, T14: DeserializeShape, T15: DeserializeShape {
    open spec fn accepts(before: DeserializeShapeContext, after: DeserializeShapeContext, r: ShapeRef) -> bool {
        match r {
            ShapeRef::Tuple(items) => items@.len() == 16 && (exists|c1: DeserializeShapeContext, c2: DeserializeShapeContext, c3: DeserializeShapeContext, c4: DeserializeShapeContext, c5: DeserializeShapeContext, c6: DeserializeShapeContext, c7: DeserializeShapeContext, c8: DeserializeShapeContext, c9: DeserializeShapeContext, c10: DeserializeShapeContext, c11: DeserializeShapeContext, c12: DeserializeShapeContext, c13: DeserializeShapeContext, c14: DeserializeShapeContext, c15: DeserializeShapeContext| T0::accepts(before, c1, items@[0]) && T1::accepts(c1, c2, items@[1]) && T2::accepts(c2, c3, items@[2]) && T3::accepts(c3, c4, items@[3]) && T4::accepts(c4, c5, items@[4]) && T5::accepts(c5, c6, items@[5]) && T6::accepts(c6, c7, items@[6]) && T7::accepts(c7, c8, items@[7]) && T8::accepts(c8, c9, items@[8]) && T9::accepts(c9, c10, items@[9]) && T10::accepts(c10, c11, items@[10]) && T11::accepts(c11, c12, items@[11]) && T12::accepts(c12, c13, items@[12]) && T13::accepts(c13, c14, items@[13]) && T14::accepts(c14, c15, items@[14]) && T15::accepts(c15, after, items@[15])),
            _ => false,
        }
    }

    fn deserialize_shape_in(context: &mut DeserializeShapeContext) -> (r: ShapeRef) {
        let ghost c0 = *context;
        let mut items: Vec<ShapeRef> = Vec::new();
        let x0 = T0::deserialize_shape_in(context);
        let ghost c1 = *context;
        let ghost g0 = x0;
        items.push(x0);
        let x1 = T1::deserialize_shape_in(context);
        let ghost c2 = *context;
        let ghost g1 = x1;
        items.push(x1);
        let x2 = T2::deserialize_shape_in(context);
        let ghost c3 = *context;
        let ghost g2 = x2;
        items.push(x2);
        let x3 = T3::deserialize_shape_in(context);
        let ghost c4 = *context;
        let ghost g3 = x3;
        items.push(x3);
        let x4 = T4::deserialize_shape_in(context);
        let ghost c5 = *context;
        let ghost g4 = x4;
        items.push(x4);
        let x5 = T5::deserialize_shape_in(context);
        let ghost c6 = *context;
        let ghost g5 = x5;
        items.push(x5);
        let x6 = T6::deserialize_shape_in(context);
        let ghost c7 = *context;
        let ghost g6 = x6;
        items.push(x6);
        let x7 = T7::deserialize_shape_in(context);
        let ghost c8 = *context;
        let ghost g7 = x7;
        items.push(x7);
        let x8 = T8::deserialize_shape_in(context);
        let ghost c9 = *context;
        let ghost g8 = x8;
        items.push(x8);
        let x9 = T9::deserialize_shape_in(context);
        let ghost c10 = *context;
        let ghost g9 = x9;
        items.push(x9);
        let x10 = T10::deserialize_shape_in(context);
        let ghost c11 = *context;
        let ghost g10 = x10;
        items.push(x10);
        let x11 = T11::deserialize_shape_in(context);
        let ghost c12 = *context;
        let ghost g11 = x11;
        items.push(x11);
        let x12 = T12::deserialize_shape_in(context);
        let ghost c13 = *context;
        let ghost g12 = x12;
        items.push(x12);
        let x13 = T13::deserialize_shape_in(context);
        let ghost c14 = *context;
        let ghost g13 = x13;
        items.push(x13);
        let x14 = T14::deserialize_shape_in(context);
        let ghost c15 = *context;
        let ghost g14 = x14;
        items.push(x14);
        let x15 = T15::deserialize_shape_in(context);
        let ghost c16 = *context;
        let ghost g15 = x15;
        items.push(x15);
        proof {
            assert(items@ == seq![g0, g1, g2, g3, g4, g5, g6, g7, g8, g9, g10, g11, g12, g13, g14, g15]);
            assert(T0::accepts(c0, c1, g0) && T1::accepts(c1, c2, g1) && T2::accepts(c2, c3, g2) && T3::accepts(c3, c4, g3) && T4::accepts(c4, c5, g4) && T5::accepts(c5, c6, g5) && T6::accepts(c6, c7, g6) && T7::accepts(c7, c8, g7) && T8::accepts(c8, c9, g8) && T9::accepts(c9, c10, g9) && T10::accepts(c10, c11, g10) && T11::accepts(c11, c12, g11) && T12::accepts(c12, c13, g12) && T13::accepts(c13, c14, g13) && T14::accepts(c14, c15, g14) && T15::accepts(c15, c16, g15));
        }
        ShapeRef::Tuple(items)
    }
}

} // verus!
