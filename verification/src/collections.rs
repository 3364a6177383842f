//! Laws of the shapes of standard collections: what each position of an option, a sequence, a
//! set or a map holds, in both directions.
use vstd::prelude::*;

use crate::graph::{DeserializeShape, DeserializeShapeContext, SerializeShape, SerializeShapeContext};
use crate::shape::ShapeRef;

verus! {

/// A serialized map is a mapping whose key is the shape of its key type and whose value is the
/// shape of its value type, the key's built first.
pub open spec fn is_map_out<K: SerializeShape, V: SerializeShape>(
    before: SerializeShapeContext,
    after: SerializeShapeContext,
    r: ShapeRef,
) -> bool {
    r matches ShapeRef::Mapping { key, value } && exists|middle: SerializeShapeContext|
        K::emits(before, middle, *key) && V::emits(middle, after, *value)
}

/// A deserialized map is a mapping whose key is the shape of its key type and whose value is
/// the shape of its value type, the key's built first.
pub open spec fn is_map_in<K: DeserializeShape, V: DeserializeShape>(
    before: DeserializeShapeContext,
    after: DeserializeShapeContext,
    r: ShapeRef,
) -> bool {
    r matches ShapeRef::Mapping { key, value } && exists|middle: DeserializeShapeContext|
        K::accepts(before, middle, *key) && V::accepts(middle, after, *value)
}

/// Every serialized map, hashed or ordered, puts its key type's shape in the key position and
/// its value type's shape in the value position.
pub proof fn law_serialized_maps_key_by_the_key_type<K: SerializeShape, V: SerializeShape, S>(
    before: SerializeShapeContext,
    after: SerializeShapeContext,
    r: ShapeRef,
)
    ensures
        <std::collections::HashMap<K, V, S> as SerializeShape>::emits(before, after, r) ==> is_map_out::<K, V>(before, after, r),
        <std::collections::BTreeMap<K, V> as SerializeShape>::emits(before, after, r) ==> is_map_out::<K, V>(before, after, r),
{
}

/// Every deserialized map, hashed or ordered, puts its key type's shape in the key position and
/// its value type's shape in the value position.
pub proof fn law_deserialized_maps_key_by_the_key_type<K, V, S>(
    before: DeserializeShapeContext,
    after: DeserializeShapeContext,
    r: ShapeRef,
)
    where
        K: DeserializeShape + Ord + core::hash::Hash,
        V: DeserializeShape,
        S: core::hash::BuildHasher + Default,
    ensures
        <std::collections::HashMap<K, V, S> as DeserializeShape>::accepts(before, after, r) ==> is_map_in::<K, V>(before, after, r),
        <std::collections::BTreeMap<K, V> as DeserializeShape>::accepts(before, after, r) ==> is_map_in::<K, V>(before, after, r),
{
}

/// A serialized option is an option of its item type's shape, and every serialized sequence or
/// set is a sequence of its item type's shape.
pub proof fn law_serialized_collections_hold_their_item_type<T: SerializeShape, S>(
    before: SerializeShapeContext,
    after: SerializeShapeContext,
    r: ShapeRef,
)
    ensures
        <Option<T> as SerializeShape>::emits(before, after, r) ==> (r matches ShapeRef::Option(item)
            && T::emits(before, after, *item)),
        <Vec<T> as SerializeShape>::emits(before, after, r) ==> (r matches ShapeRef::Sequence(item)
            && T::emits(before, after, *item)),
        <[T] as SerializeShape>::emits(before, after, r) ==> (r matches ShapeRef::Sequence(item)
            && T::emits(before, after, *item)),
        <std::collections::VecDeque<T> as SerializeShape>::emits(before, after, r) ==> (r matches ShapeRef::Sequence(item)
            && T::emits(before, after, *item)),
        <std::collections::BTreeSet<T> as SerializeShape>::emits(before, after, r) ==> (r matches ShapeRef::Sequence(item)
            && T::emits(before, after, *item)),
        <std::collections::HashSet<T, S> as SerializeShape>::emits(before, after, r) ==> (r matches ShapeRef::Sequence(item)
            && T::emits(before, after, *item)),
{
}

/// A deserialized option is an option of its item type's shape, and every deserialized sequence
/// or set is a sequence of its item type's shape.
pub proof fn law_deserialized_collections_hold_their_item_type<T, S>(
    before: DeserializeShapeContext,
    after: DeserializeShapeContext,
    r: ShapeRef,
)
    where
        T: DeserializeShape + Ord + core::hash::Hash,
        S: core::hash::BuildHasher + Default,
    ensures
        <Option<T> as DeserializeShape>::accepts(before, after, r) ==> (r matches ShapeRef::Option(item)
            && T::accepts(before, after, *item)),
        <Vec<T> as DeserializeShape>::accepts(before, after, r) ==> (r matches ShapeRef::Sequence(item)
            && T::accepts(before, after, *item)),
        <std::collections::VecDeque<T> as DeserializeShape>::accepts(before, after, r) ==> (r matches ShapeRef::Sequence(item)
            && T::accepts(before, after, *item)),
        <std::collections::BTreeSet<T> as DeserializeShape>::accepts(before, after, r) ==> (r matches ShapeRef::Sequence(item)
            && T::accepts(before, after, *item)),
        <std::collections::HashSet<T, S> as DeserializeShape>::accepts(before, after, r) ==> (r matches ShapeRef::Sequence(item)
            && T::accepts(before, after, *item)),
{
}

} // verus!
