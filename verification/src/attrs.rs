//! The `serde_shape` attribute grammar: `serialize_with = "path"`, `deserialize_with = "path"`
//! and `bound(serialize = "...", deserialize = "...")`, each at most once, bounds on containers
//! only; and the rule that identifier enums cannot be serialized.
use vstd::prelude::*;

use crate::graph::same_str;
use crate::plan::Identifier;

verus! {

/// The `serde_shape` attributes of one item.
#[derive(Clone, Copy, Debug, Eq, PartialEq, Default)]
pub struct ShapeAttrs {
    /// The function that builds the item's serialization shape.
    pub serialize_with: Option<&'static str>,
    /// The function that builds the item's deserialization shape.
    pub deserialize_with: Option<&'static str>,
    /// The predicates that replace the inferred serialization shape bounds.
    pub serialize_bound: Option<&'static str>,
    /// The predicates that replace the inferred deserialization shape bounds.
    pub deserialize_bound: Option<&'static str>,
}

/// Why a set of `serde_shape` attributes is refused.
#[derive(Clone, Copy, Debug, Eq, PartialEq)]
pub enum ShapeAttrError {
    /// The key occurs more than once.
    Duplicate(&'static str),
    /// The key is none that `serde_shape` knows.
    Unknown(&'static str),
    /// A bound stands on an enum variant.
    BoundOnVariant,
    /// A bound stands on a field.
    BoundOnField,
}

impl ShapeAttrError {
    /// The message that reports this error.
    pub fn message(&self) -> (r: &'static str)
        ensures
            r@ == match *self {
                ShapeAttrError::Duplicate(_) => "duplicate serde_shape attribute"@,
                ShapeAttrError::Unknown(_) => "unknown serde_shape attribute; expected `serialize_with`, `deserialize_with` or `bound`"@,
                ShapeAttrError::BoundOnVariant => "serde_shape bounds are supported on containers, not variants"@,
                ShapeAttrError::BoundOnField => "serde_shape bounds are supported on containers, not fields"@,
            },
    {
        match self {
            ShapeAttrError::Duplicate(_) => "duplicate serde_shape attribute",
            ShapeAttrError::Unknown(_) => {
                "unknown serde_shape attribute; expected `serialize_with`, `deserialize_with` or `bound`"
            },
            ShapeAttrError::BoundOnVariant => "serde_shape bounds are supported on containers, not variants",
            ShapeAttrError::BoundOnField => "serde_shape bounds are supported on containers, not fields",
        }
    }
}

/// Where an item with `serde_shape` attributes stands.
#[derive(Clone, Copy, Debug, Eq, PartialEq)]
pub enum ItemPosition {
    /// A struct or enum.
    Container,
    /// An enum variant.
    Variant,
    /// A field.
    Field,
}

/// Why a container cannot have a serialization shape.
#[derive(Clone, Copy, Debug, Eq, PartialEq)]
pub enum IdentifierError {
    /// The container is a `#[serde(field_identifier)]` enum.
    FieldIdentifier,
    /// The container is a `#[serde(variant_identifier)]` enum.
    VariantIdentifier,
}

impl IdentifierError {
    /// The message that reports this error.
    pub fn message(&self) -> (r: &'static str)
        ensures
            r@ == match *self {
                IdentifierError::FieldIdentifier => "field identifiers cannot be serialized"@,
                IdentifierError::VariantIdentifier => "variant identifiers cannot be serialized"@,
            },
    {
        match self {
            IdentifierError::FieldIdentifier => "field identifiers cannot be serialized",
            IdentifierError::VariantIdentifier => "variant identifiers cannot be serialized",
        }
    }
}

/// `slot` set to `value`, unless it is already set: then the duplicate `key` is refused.
pub open spec fn set_once_spec(
    slot: Option<&'static str>,
    key: &'static str,
    value: &'static str,
) -> Result<Option<&'static str>, ShapeAttrError> {
    if slot is Some {
        Err(ShapeAttrError::Duplicate(key))
    } else {
        Ok(Some(value))
    }
}

/// `attrs` after the entry `key = value`. The entries of `bound(...)` are keyed `bound.serialize`
/// and `bound.deserialize`.
pub open spec fn apply_entry(attrs: ShapeAttrs, key: &'static str, value: &'static str) -> Result<ShapeAttrs, ShapeAttrError> {
    if key@ == "serialize_with"@ {
        match set_once_spec(attrs.serialize_with, key, value) {
            Ok(slot) => Ok(ShapeAttrs { serialize_with: slot, ..attrs }),
            Err(e) => Err(e),
        }
    } else if key@ == "deserialize_with"@ {
        match set_once_spec(attrs.deserialize_with, key, value) {
            Ok(slot) => Ok(ShapeAttrs { deserialize_with: slot, ..attrs }),
            Err(e) => Err(e),
        }
    } else if key@ == "bound.serialize"@ {
        match set_once_spec(attrs.serialize_bound, key, value) {
            Ok(slot) => Ok(ShapeAttrs { serialize_bound: slot, ..attrs }),
            Err(e) => Err(e),
        }
    } else if key@ == "bound.deserialize"@ {
        match set_once_spec(attrs.deserialize_bound, key, value) {
            Ok(slot) => Ok(ShapeAttrs { deserialize_bound: slot, ..attrs }),
            Err(e) => Err(e),
        }
    } else {
        Err(ShapeAttrError::Unknown(key))
    }
}

/// No attribute set.
pub open spec fn no_shape_attrs() -> ShapeAttrs {
    ShapeAttrs {
        serialize_with: None,
        deserialize_with: None,
        serialize_bound: None,
        deserialize_bound: None,
    }
}

/// The attributes that `entries`, read in order, give: the first refused entry decides the
/// error.
pub open spec fn parse_entries(entries: Seq<(&'static str, &'static str)>) -> Result<ShapeAttrs, ShapeAttrError>
    decreases entries.len(),
{
    if entries.len() == 0 {
        Ok(no_shape_attrs())
    } else {
        match parse_entries(entries.drop_last()) {
            Ok(attrs) => apply_entry(attrs, entries.last().0, entries.last().1),
            Err(e) => Err(e),
        }
    }
}

/// Whether the attributes carry a bound in either direction.
pub open spec fn has_bound_spec(attrs: ShapeAttrs) -> bool {
    attrs.serialize_bound is Some || attrs.deserialize_bound is Some
}

/// Set `slot` to `value` once.
fn set_once(slot: &mut Option<&'static str>, key: &'static str, value: &'static str) -> (r: Result<(), ShapeAttrError>)
    ensures
        match set_once_spec(*old(slot), key, value) {
            Ok(set) => r is Ok && *final(slot) == set,
            Err(e) => r == Err::<(), ShapeAttrError>(e),
        },
{
    if slot.is_some() {
        Err(ShapeAttrError::Duplicate(key))
    } else {
        *slot = Some(value);
        Ok(())
    }
}

impl ShapeAttrs {
    /// Whether the attributes carry a bound in either direction.
    pub fn has_bound(&self) -> (r: bool)
        ensures
            r == has_bound_spec(*self),
    {
        self.serialize_bound.is_some() || self.deserialize_bound.is_some()
    }

    /// Apply the entry `key = value`.
    fn apply(&mut self, key: &'static str, value: &'static str) -> (r: Result<(), ShapeAttrError>)
        ensures
            match apply_entry(*old(self), key, value) {
                Ok(attrs) => r is Ok && *final(self) == attrs,
                Err(e) => r == Err::<(), ShapeAttrError>(e),
            },
    {
        if same_str(key, "serialize_with") {
            set_once(&mut self.serialize_with, key, value)
        } else if same_str(key, "deserialize_with") {
            set_once(&mut self.deserialize_with, key, value)
        } else if same_str(key, "bound.serialize") {
            set_once(&mut self.serialize_bound, key, value)
        } else if same_str(key, "bound.deserialize") {
            set_once(&mut self.deserialize_bound, key, value)
        } else {
            Err(ShapeAttrError::Unknown(key))
        }
    }

    /// The attributes that the `serde_shape` entries of an item give, each a key and its string
    /// value, in the order they are written.
    pub fn parse(entries: &Vec<(&'static str, &'static str)>) -> (r: Result<ShapeAttrs, ShapeAttrError>)
        ensures
            r == parse_entries(entries@),
    {
        let mut attrs = ShapeAttrs {
            serialize_with: None,
            deserialize_with: None,
            serialize_bound: None,
            deserialize_bound: None,
        };
        let mut i: usize = 0;
        while i < entries.len()
            invariant
                i <= entries.len(),
                parse_entries(entries@.subrange(0, i as int)) == Ok::<ShapeAttrs, ShapeAttrError>(attrs),
            decreases entries.len() - i,
        {
            let (key, value) = entries[i];
            proof {
                assert(entries@.subrange(0, i + 1).drop_last() =~= entries@.subrange(0, i as int));
            }
            match attrs.apply(key, value) {
                Ok(()) => {},
                Err(e) => {
                    proof {
                        lemma_parse_keeps_error(entries@, (i + 1) as int, e);
                    }
                    return Err(e);
                },
            }
            i = i + 1;
        }
        proof {
            assert(entries@.subrange(0, entries@.len() as int) =~= entries@);
        }
        Ok(attrs)
    }
}

/// Once the entries up to `k` are refused, all of them are, with the same error.
proof fn lemma_parse_keeps_error(entries: Seq<(&'static str, &'static str)>, k: int, e: ShapeAttrError)
    requires
        0 <= k <= entries.len(),
        parse_entries(entries.subrange(0, k)) == Err::<ShapeAttrs, ShapeAttrError>(e),
    ensures
        parse_entries(entries) == Err::<ShapeAttrs, ShapeAttrError>(e),
    decreases entries.len() - k,
{
    if k < entries.len() {
        assert(entries.subrange(0, k + 1).drop_last() =~= entries.subrange(0, k));
        lemma_parse_keeps_error(entries, k + 1, e);
    } else {
        assert(entries.subrange(0, k) =~= entries);
    }
}

/// What checking the attributes of an item at `position` gives: a bound is refused on a variant
/// or a field.
pub open spec fn validation_of(attrs: ShapeAttrs, position: ItemPosition) -> Result<(), ShapeAttrError> {
    if !has_bound_spec(attrs) || position == ItemPosition::Container {
        Ok(())
    } else if position == ItemPosition::Variant {
        Err(ShapeAttrError::BoundOnVariant)
    } else {
        Err(ShapeAttrError::BoundOnField)
    }
}

/// Bounds stand on containers only: a container's attributes always pass, and a variant's or a
/// field's pass exactly when they set neither a serialization nor a deserialization bound, and
/// are refused with the error for their position otherwise.
pub proof fn law_bounds_stand_on_containers_only(attrs: ShapeAttrs)
    ensures
        validation_of(attrs, ItemPosition::Container) == Ok::<(), ShapeAttrError>(()),
        (validation_of(attrs, ItemPosition::Variant) == Ok::<(), ShapeAttrError>(())) <==> (
        attrs.serialize_bound is None && attrs.deserialize_bound is None),
        (validation_of(attrs, ItemPosition::Field) == Ok::<(), ShapeAttrError>(())) <==> (
        attrs.serialize_bound is None && attrs.deserialize_bound is None),
        validation_of(attrs, ItemPosition::Variant) is Err ==> validation_of(
            attrs,
            ItemPosition::Variant,
        ) == Err::<(), ShapeAttrError>(ShapeAttrError::BoundOnVariant),
        validation_of(attrs, ItemPosition::Field) is Err ==> validation_of(
            attrs,
            ItemPosition::Field,
        ) == Err::<(), ShapeAttrError>(ShapeAttrError::BoundOnField),
        has_bound_spec(attrs) <==> (attrs.serialize_bound is Some || attrs.deserialize_bound is Some),
{
}

/// What one more entry does to attributes read so far: each known key fills its own slot and
/// leaves the others alone, a key whose slot is already filled is refused as a duplicate, and
/// any other key is refused as unknown. Once refused, more entries keep the error.
pub proof fn law_each_key_fills_its_own_slot(
    entries: Seq<(&'static str, &'static str)>,
    key: &'static str,
    value: &'static str,
)
    ensures
        ({
            let next = parse_entries(entries.push((key, value)));
            match parse_entries(entries) {
                Err(e) => next == Err::<ShapeAttrs, ShapeAttrError>(e),
                Ok(a) => {
                    &&& key@ == "serialize_with"@ ==> next == if a.serialize_with is Some {
                        Err(ShapeAttrError::Duplicate(key))
                    } else {
                        Ok(ShapeAttrs { serialize_with: Some(value), ..a })
                    }
                    &&& key@ == "deserialize_with"@ ==> next == if a.deserialize_with is Some {
                        Err(ShapeAttrError::Duplicate(key))
                    } else {
                        Ok(ShapeAttrs { deserialize_with: Some(value), ..a })
                    }
                    &&& key@ == "bound.serialize"@ ==> next == if a.serialize_bound is Some {
                        Err(ShapeAttrError::Duplicate(key))
                    } else {
                        Ok(ShapeAttrs { serialize_bound: Some(value), ..a })
                    }
                    &&& key@ == "bound.deserialize"@ ==> next == if a.deserialize_bound is Some {
                        Err(ShapeAttrError::Duplicate(key))
                    } else {
                        Ok(ShapeAttrs { deserialize_bound: Some(value), ..a })
                    }
                    &&& key@ != "serialize_with"@ && key@ != "deserialize_with"@ && key@
                        != "bound.serialize"@ && key@ != "bound.deserialize"@ ==> next == Err::<
                        ShapeAttrs,
                        ShapeAttrError,
                    >(ShapeAttrError::Unknown(key))
                },
            }
        }),
{
    reveal_strlit("serialize_with");
    reveal_strlit("deserialize_with");
    reveal_strlit("bound.serialize");
    reveal_strlit("bound.deserialize");
    assert("serialize_with"@.len() == 14);
    assert("deserialize_with"@.len() == 16);
    assert("bound.serialize"@.len() == 15);
    assert("bound.deserialize"@.len() == 17);
    assert(entries.push((key, value)).drop_last() =~= entries);
    assert(entries.push((key, value)).last() == (key, value));
}

/// Check that the attributes of an item at `position` carry no bound unless it is a container.
pub fn validate_shape_attrs(attrs: &ShapeAttrs, position: ItemPosition) -> (r: Result<(), ShapeAttrError>)
    ensures
        r == validation_of(*attrs, position),
{
    if !attrs.has_bound() {
        return Ok(());
    }
    match position {
        ItemPosition::Container => Ok(()),
        ItemPosition::Variant => Err(ShapeAttrError::BoundOnVariant),
        ItemPosition::Field => Err(ShapeAttrError::BoundOnField),
    }
}

/// Check that a container can have a serialization shape: identifier enums cannot.
pub fn check_serializable(identifier: Identifier) -> (r: Result<(), IdentifierError>)
    ensures
        r == (match identifier {
            Identifier::No => Ok::<(), IdentifierError>(()),
            Identifier::Field => Err(IdentifierError::FieldIdentifier),
            Identifier::Variant => Err(IdentifierError::VariantIdentifier),
        }),
{
    match identifier {
        Identifier::No => Ok(()),
        Identifier::Field => Err(IdentifierError::FieldIdentifier),
        Identifier::Variant => Err(IdentifierError::VariantIdentifier),
    }
}

} // verus!
