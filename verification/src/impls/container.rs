//! Shapes of options, sequences and maps.
use vstd::prelude::*;

use crate::graph::{DeserializeShape, DeserializeShapeContext, SerializeShape, SerializeShapeContext};
use crate::shape::ShapeRef;

verus! {

impl<T> SerializeShape for Option<T> where T: SerializeShape {
    open spec fn emits(before: SerializeShapeContext, after: SerializeShapeContext, r: ShapeRef) -> bool {
        match r {
            ShapeRef::Option(item) => T::emits(before, after, *item),
            _ => false,
        }
    }

    fn serialize_shape_in(context: &mut SerializeShapeContext) -> (r: ShapeRef) {
        ShapeRef::Option(Box::new(T::serialize_shape_in(context)))
    }
}

impl<T> DeserializeShape for Option<T> where T: DeserializeShape {
    open spec fn accepts(before: DeserializeShapeContext, after: DeserializeShapeContext, r: ShapeRef) -> bool {
        match r {
            ShapeRef::Option(item) => T::accepts(before, after, *item),
            _ => false,
        }
    }

    fn deserialize_shape_in(context: &mut DeserializeShapeContext) -> (r: ShapeRef) {
        ShapeRef::Option(Box::new(T::deserialize_shape_in(context)))
    }
}

impl<T> SerializeShape for Vec<T> where T: SerializeShape {
    open spec fn emits(before: SerializeShapeContext, after: SerializeShapeContext, r: ShapeRef) -> bool {
        match r {
            ShapeRef::Sequence(item) => T::emits(before, after, *item),
            _ => false,
        }
    }

    fn serialize_shape_in(context: &mut SerializeShapeContext) -> (r: ShapeRef) {
        ShapeRef::Sequence(Box::new(T::serialize_shape_in(context)))
    }
}

impl<T> DeserializeShape for Vec<T> where T: DeserializeShape {
    open spec fn accepts(before: DeserializeShapeContext, after: DeserializeShapeContext, r: ShapeRef) -> bool {
        match r {
            ShapeRef::Sequence(item) => T::accepts(before, after, *item),
            _ => false,
        }
    }

    fn deserialize_shape_in(context: &mut DeserializeShapeContext) -> (r: ShapeRef) {
        ShapeRef::Sequence(Box::new(T::deserialize_shape_in(context)))
    }
}

impl<T> SerializeShape for std::collections::VecDeque<T> where T: SerializeShape {
    open spec fn emits(before: SerializeShapeContext, after: SerializeShapeContext, r: ShapeRef) -> bool {
        match r {
            ShapeRef::Sequence(item) => T::emits(before, after, *item),
            _ => false,
        }
    }

    fn serialize_shape_in(context: &mut SerializeShapeContext) -> (r: ShapeRef) {
        ShapeRef::Sequence(Box::new(T::serialize_shape_in(context)))
    }
}

impl<T> DeserializeShape for std::collections::VecDeque<T> where T: DeserializeShape {
    open spec fn accepts(before: DeserializeShapeContext, after: DeserializeShapeContext, r: ShapeRef) -> bool {
        match r {
            ShapeRef::Sequence(item) => T::accepts(before, after, *item),
            _ => false,
        }
    }

    fn deserialize_shape_in(context: &mut DeserializeShapeContext) -> (r: ShapeRef) {
        ShapeRef::Sequence(Box::new(T::deserialize_shape_in(context)))
    }
}

impl<T> SerializeShape for std::collections::BTreeSet<T> where T: SerializeShape {
    open spec fn emits(before: SerializeShapeContext, after: SerializeShapeContext, r: ShapeRef) -> bool {
        match r {
            ShapeRef::Sequence(item) => T::emits(before, after, *item),
            _ => false,
        }
    }

    fn serialize_shape_in(context: &mut SerializeShapeContext) -> (r: ShapeRef) {
        ShapeRef::Sequence(Box::new(T::serialize_shape_in(context)))
    }
}

impl<T> DeserializeShape for std::collections::BTreeSet<T> where T: DeserializeShape + Ord {
    open spec fn accepts(before: DeserializeShapeContext, after: DeserializeShapeContext, r: ShapeRef) -> bool {
        match r {
            ShapeRef::Sequence(item) => T::accepts(before, after, *item),
            _ => false,
        }
    }

    fn deserialize_shape_in(context: &mut DeserializeShapeContext) -> (r: ShapeRef) {
        ShapeRef::Sequence(Box::new(T::deserialize_shape_in(context)))
    }
}

impl<T, S> SerializeShape for std::collections::HashSet<T, S> where T: SerializeShape {
    open spec fn emits(before: SerializeShapeContext, after: SerializeShapeContext, r: ShapeRef) -> bool {
        match r {
            ShapeRef::Sequence(item) => T::emits(before, after, *item),
            _ => false,
        }
    }

    fn serialize_shape_in(context: &mut SerializeShapeContext) -> (r: ShapeRef) {
        ShapeRef::Sequence(Box::new(T::serialize_shape_in(context)))
    }
}

impl<T, S> DeserializeShape for std::collections::HashSet<T, S> where T: DeserializeShape + Eq + core::hash::Hash, S: core::hash::BuildHasher + Default {
    open spec fn accepts(before: DeserializeShapeContext, after: DeserializeShapeContext, r: ShapeRef) -> bool {
        match r {
            ShapeRef::Sequence(item) => T::accepts(before, after, *item),
            _ => false,
        }
    }

    fn deserialize_shape_in(context: &mut DeserializeShapeContext) -> (r: ShapeRef) {
        ShapeRef::Sequence(Box::new(T::deserialize_shape_in(context)))
    }
}

impl<T> SerializeShape for [T] where T: SerializeShape {
    open spec fn emits(before: SerializeShapeContext, after: SerializeShapeContext, r: ShapeRef) -> bool {
        match r {
            ShapeRef::Sequence(item) => T::emits(before, after, *item),
            _ => false,
        }
    }

    fn serialize_shape_in(context: &mut SerializeShapeContext) -> (r: ShapeRef) {
        ShapeRef::Sequence(Box::new(T::serialize_shape_in(context)))
    }
}

impl<K, V> SerializeShape for std::collections::BTreeMap<K, V> where K: SerializeShape, V: SerializeShape {
    open spec fn emits(before: SerializeShapeContext, after: SerializeShapeContext, r: ShapeRef) -> bool {
        match r {
            ShapeRef::Mapping { key, value } => exists|middle: SerializeShapeContext|
                #[trigger] K::emits(before, middle, *key) && #[trigger] V::emits(middle, after, *value),
            _ => false,
        }
    }

    fn serialize_shape_in(context: &mut SerializeShapeContext) -> (r: ShapeRef) {
        let ghost start = *context;
        let key = K::serialize_shape_in(context);
        let ghost middle = *context;
        let value = V::serialize_shape_in(context);
        proof {
            assert(K::emits(start, middle, key) && V::emits(middle, *context, value));
        }
        ShapeRef::Mapping { key: Box::new(key), value: Box::new(value) }
    }
}

impl<K, V> DeserializeShape for std::collections::BTreeMap<K, V> where K: DeserializeShape + Ord, V: DeserializeShape {
    open spec fn accepts(before: DeserializeShapeContext, after: DeserializeShapeContext, r: ShapeRef) -> bool {
        match r {
            ShapeRef::Mapping { key, value } => exists|middle: DeserializeShapeContext|
                #[trigger] K::accepts(before, middle, *key) && #[trigger] V::accepts(middle, after, *value),
            _ => false,
        }
    }

    fn deserialize_shape_in(context: &mut DeserializeShapeContext) -> (r: ShapeRef) {
        let ghost start = *context;
        let key = K::deserialize_shape_in(context);
        let ghost middle = *context;
        let value = V::deserialize_shape_in(context);
        proof {
            assert(K::accepts(start, middle, key) && V::accepts(middle, *context, value));
        }
        ShapeRef::Mapping { key: Box::new(key), value: Box::new(value) }
    }
}

impl<K, V, S> SerializeShape for std::collections::HashMap<K, V, S> where K: SerializeShape, V: SerializeShape {
    open spec fn emits(before: SerializeShapeContext, after: SerializeShapeContext, r: ShapeRef) -> bool {
        match r {
            ShapeRef::Mapping { key, value } => exists|middle: SerializeShapeContext|
                #[trigger] K::emits(before, middle, *key) && #[trigger] V::emits(middle, after, *value),
            _ => false,
        }
    }

    fn serialize_shape_in(context: &mut SerializeShapeContext) -> (r: ShapeRef) {
        let ghost start = *context;
        let key = K::serialize_shape_in(context);
        let ghost middle = *context;
        let value = V::serialize_shape_in(context);
        proof {
            assert(K::emits(start, middle, key) && V::emits(middle, *context, value));
        }
        ShapeRef::Mapping { key: Box::new(key), value: Box::new(value) }
    }
}

impl<K, V, S> DeserializeShape for std::collections::HashMap<K, V, S> where K: DeserializeShape + Eq + core::hash::Hash, V: DeserializeShape, S: core::hash::BuildHasher + Default {
    open spec fn accepts(before: DeserializeShapeContext, after: DeserializeShapeContext, r: ShapeRef) -> bool {
        match r {
            ShapeRef::Mapping { key, value } => exists|middle: DeserializeShapeContext|
                #[trigger] K::accepts(before, middle, *key) && #[trigger] V::accepts(middle, after, *value),
            _ => false,
        }
    }

    fn deserialize_shape_in(context: &mut DeserializeShapeContext) -> (r: ShapeRef) {
        let ghost start = *context;
        let key = K::deserialize_shape_in(context);
        let ghost middle = *context;
        let value = V::deserialize_shape_in(context);
        proof {
            assert(K::accepts(start, middle, key) && V::accepts(middle, *context, value));
        }
        ShapeRef::Mapping { key: Box::new(key), value: Box::new(value) }
    }
}

} // verus!
