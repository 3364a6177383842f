//! Shape graphs, the contexts that accumulate their definitions, and the shape traits.
use vstd::prelude::*;

use crate::definition::{
    DeserializeDefinitionKind, DeserializeDefinitionShape, SerializeDefinitionKind,
    SerializeDefinitionShape, TypeName,
};
use crate::model::OpaqueReason;
use crate::shape::{OpaqueShape, ShapeId, ShapeRef, order_strs};

verus! {

#[verifier::external_type_specification]
#[verifier::external_body]
pub struct ExTypeId(core::any::TypeId);

/// The identity of a definition builder's concrete type, from `core::any::TypeId::of`.
///
/// Nothing is stated of the value: it depends on the type argument alone, which a contract
/// cannot name. Callers compare it with [`same_builder`].
#[verifier::external_body]
fn builder_identity<F: ?Sized + 'static>() -> core::any::TypeId {
    core::any::TypeId::of::<F>()
}

/// Whether two builder identities are equal, by `TypeId`'s `PartialEq`: equal exactly when they
/// identify the same type.
#[verifier::external_body]
fn same_builder(a: &core::any::TypeId, b: &core::any::TypeId) -> (r: bool)
    ensures
        r == (*a == *b),
{
    *a == *b
}

/// Whether two strings have the same characters.
pub(crate) fn same_str(a: &str, b: &str) -> (r: bool)
    ensures
        r == (a@ == b@),
{
    proof {
        crate::model::lemma_chars_order_basic(a@, b@);
    }
    order_strs(a, b) == 0
}

/// The identity under which a definition is registered: its builder type and Rust name.
pub type DefinitionIdentity = (core::any::TypeId, Seq<char>);

/// The value an optional reference refers to.
pub open spec fn deref_option<T>(r: Option<&T>) -> Option<T> {
    match r {
        Some(v) => Some(*v),
        None => None,
    }
}

/// A placeholder for a definition whose builder is still running.
fn pending_opaque(rust_name: &'static str) -> (r: OpaqueShape)
    ensures
        r.type_label == rust_name,
        r.reason == OpaqueReason::Unsupported,
        r.detail is None,
{
    OpaqueShape { type_label: rust_name, reason: OpaqueReason::Unsupported, detail: None }
}


/// Accumulates named serialization definitions while a shape graph is built.
#[derive(Debug)]
pub struct SerializeShapeContext {
    definitions: Vec<SerializeDefinitionShape>,
    identities: Vec<(core::any::TypeId, &'static str)>,
}

impl SerializeShapeContext {
    #[verifier::type_invariant]
    spec fn well_formed(self) -> bool {
        &&& self.definitions@.len() == self.identities@.len()
        &&& forall|i: int|
            0 <= i < self.definitions@.len() ==> (#[trigger] self.definitions@[i]).id.value() == i
        &&& forall|i: int, j: int|
            0 <= i < j < self.identities@.len() ==> #[trigger] Self::identity_of(
                self.identities@[i],
            ) != #[trigger] Self::identity_of(self.identities@[j])
    }

    /// The identity a registration entry stands for.
    pub open spec fn identity_of(entry: (core::any::TypeId, &'static str)) -> DefinitionIdentity {
        (entry.0, entry.1@)
    }

    /// The definitions built so far, in id order.
    pub closed spec fn definitions_view(self) -> Seq<SerializeDefinitionShape> {
        self.definitions@
    }

    /// The identities under which the definitions were registered, in id order.
    pub closed spec fn identities_view(self) -> Seq<DefinitionIdentity> {
        self.identities@.map_values(|entry: (core::any::TypeId, &'static str)| Self::identity_of(entry))
    }

    /// Create an empty context.
    pub fn new() -> (r: Self)
        ensures
            r.definitions_view().len() == 0,
            r.identities_view().len() == 0,
    {
        SerializeShapeContext { definitions: Vec::new(), identities: Vec::new() }
    }

    /// `after` keeps every definition and every registration of `before` at its index.
    pub open spec fn extends(before: Self, after: Self) -> bool {
        &&& before.definitions_view().len() <= after.definitions_view().len()
        &&& before.identities_view().len() <= after.identities_view().len()
        &&& forall|i: int|
            0 <= i < before.definitions_view().len() ==> #[trigger] after.definitions_view()[i]
                == before.definitions_view()[i]
        &&& forall|i: int|
            0 <= i < before.identities_view().len() ==> #[trigger] after.identities_view()[i]
                == before.identities_view()[i]
    }

    /// `during` is `before` with one more definition reserved, registered under `key`.
    pub open spec fn reserves(before: Self, during: Self, key: DefinitionIdentity) -> bool {
        &&& Self::extends(before, during)
        &&& during.definitions_view().len() == before.definitions_view().len() + 1
        &&& during.identities_view() == before.identities_view().push(key)
    }

    /// `after` is `built` with the definition at index `n` replaced by one with id `n`, these
    /// names and description, and the body `kind`.
    pub open spec fn stores(
        built: Self,
        after: Self,
        n: int,
        type_names: TypeName,
        description: Option<&'static str>,
        kind: SerializeDefinitionKind,
    ) -> bool {
        &&& 0 <= n < built.definitions_view().len()
        &&& after.definitions_view().len() == built.definitions_view().len()
        &&& forall|i: int|
            0 <= i < built.definitions_view().len() && i != n ==> #[trigger] after.definitions_view()[i]
                == built.definitions_view()[i]
        &&& after.definitions_view()[n].id.value() == n
        &&& after.definitions_view()[n].type_names == type_names
        &&& after.definitions_view()[n].description == description
        &&& after.definitions_view()[n].kind == kind
        &&& after.identities_view() == built.identities_view()
    }

    /// What defining a named type under `identity` does, for a builder whose runs are described
    /// by `body`: when the identity and the Rust name are registered at some index, the context
    /// is unchanged and that definition is referenced; otherwise the next index is reserved
    /// under them, the builder turns the context with that reservation into `built` and
    /// returns `kind` with `body(during, built, kind)`, and the definition at the reserved index
    /// becomes `{ id, type_names, description, kind }`.
    pub open spec fn defines_with(
        before: Self,
        after: Self,
        identity: core::any::TypeId,
        type_names: TypeName,
        description: Option<&'static str>,
        body: spec_fn(Self, Self, SerializeDefinitionKind) -> bool,
        r: ShapeRef,
    ) -> bool {
        let key = (identity, type_names.rust_name@);
        let n = before.definitions_view().len();
        &&& Self::extends(before, after)
        &&& forall|i: int|
            0 <= i < before.identities_view().len() && #[trigger] before.identities_view()[i] == key
                ==> {
                &&& r@ == crate::model::Shape::Definition(i as usize)
                &&& after.definitions_view() == before.definitions_view()
                &&& after.identities_view() == before.identities_view()
            }
        &&& !before.identities_view().contains(key) ==> {
            &&& r@ == crate::model::Shape::Definition(n as usize)
            &&& exists|during: Self, built: Self, kind: SerializeDefinitionKind|
                {
                    &&& Self::reserves(before, during, key)
                    &&& Self::extends(during, built)
                    &&& #[trigger] body(during, built, kind)
                    &&& Self::stores(built, after, n as int, type_names, description, kind)
                }
        }
    }

    /// What defining a named type under `identity` does to the context and returns, whatever
    /// the body: [`Self::defines_with`] with a body that every run has.
    pub open spec fn defines_at(
        before: Self,
        after: Self,
        identity: core::any::TypeId,
        type_names: TypeName,
        description: Option<&'static str>,
        r: ShapeRef,
    ) -> bool {
        Self::defines_with(
            before,
            after,
            identity,
            type_names,
            description,
            |during: Self, built: Self, kind: SerializeDefinitionKind| true,
            r,
        )
    }

    /// When the builder run that defining a fresh type made, from `during` to `built`, is
    /// described by `body`, what the definition did is described by [`Self::defines_with`] with
    /// `body`.
    pub proof fn lemma_defines_with(
        before: Self,
        after: Self,
        identity: core::any::TypeId,
        type_names: TypeName,
        description: Option<&'static str>,
        body: spec_fn(Self, Self, SerializeDefinitionKind) -> bool,
        r: ShapeRef,
        during: Self,
        built: Self,
    )
        requires
            Self::defines_at(before, after, identity, type_names, description, r),
            !before.identities_view().contains((identity, type_names.rust_name@)) ==> {
                &&& Self::reserves(before, during, (identity, type_names.rust_name@))
                &&& Self::extends(during, built)
                &&& body(during, built, after.definitions_view()[before.definitions_view().len() as int].kind)
                &&& Self::stores(
                    built,
                    after,
                    before.definitions_view().len() as int,
                    type_names,
                    description,
                    after.definitions_view()[before.definitions_view().len() as int].kind,
                )
            },
        ensures
            Self::defines_with(before, after, identity, type_names, description, body, r),
    {
    }

    /// When every run of `build` is described by `body`, what defining a named type with
    /// `build` did is described by [`Self::defines_with`] with `body`, under some identity.
    pub proof fn lemma_define_named_type<F: FnOnce(&mut Self) -> SerializeDefinitionKind>(
        before: Self,
        after: Self,
        type_names: TypeName,
        description: Option<&'static str>,
        build: F,
        body: spec_fn(Self, Self, SerializeDefinitionKind) -> bool,
        r: ShapeRef,
    )
        requires
            exists|identity: core::any::TypeId|
                {
                    &&& Self::defines_at(before, after, identity, type_names, description, r)
                    &&& !before.identities_view().contains((identity, type_names.rust_name@)) ==> exists|
                        c: &mut Self,
                    |
                        {
                            &&& #[trigger] call_ensures(build, (c,), after.definitions_view()[before.definitions_view().len() as int].kind)
                            &&& Self::reserves(before, *c, (identity, type_names.rust_name@))
                            &&& Self::extends(*c, *final(c))
                            &&& Self::stores(
                                *final(c),
                                after,
                                before.definitions_view().len() as int,
                                type_names,
                                description,
                                after.definitions_view()[before.definitions_view().len() as int].kind,
                            )
                        }
                },
            forall|c: &mut Self, kind: SerializeDefinitionKind|
                call_ensures(build, (c,), kind) ==> #[trigger] body(*c, *final(c), kind),
        ensures
            exists|identity: core::any::TypeId|
                Self::defines_with(before, after, identity, type_names, description, body, r),
    {
        let identity = choose|identity: core::any::TypeId|
            {
                &&& Self::defines_at(before, after, identity, type_names, description, r)
                &&& !before.identities_view().contains((identity, type_names.rust_name@)) ==> exists|
                    c: &mut Self,
                |
                    {
                        &&& #[trigger] call_ensures(build, (c,), after.definitions_view()[before.definitions_view().len() as int].kind)
                        &&& Self::reserves(before, *c, (identity, type_names.rust_name@))
                        &&& Self::extends(*c, *final(c))
                        &&& Self::stores(
                            *final(c),
                            after,
                            before.definitions_view().len() as int,
                            type_names,
                            description,
                            after.definitions_view()[before.definitions_view().len() as int].kind,
                        )
                    }
            };
        if !before.identities_view().contains((identity, type_names.rust_name@)) {
            let kind = after.definitions_view()[before.definitions_view().len() as int].kind;
            let c = choose|c: &mut Self|
                {
                    &&& #[trigger] call_ensures(build, (c,), kind)
                    &&& Self::reserves(before, *c, (identity, type_names.rust_name@))
                    &&& Self::extends(*c, *final(c))
                    &&& Self::stores(*final(c), after, before.definitions_view().len() as int, type_names, description, kind)
                };
            Self::lemma_defines_with(before, after, identity, type_names, description, body, r, *c, *final(c));
        } else {
            Self::lemma_defines_with(before, after, identity, type_names, description, body, r, before, before);
        }
    }

    /// A named type is defined once: after a first definition under an identity and a Rust
    /// name, defining it again, with any names' Serde part and description, references the
    /// same definition and leaves the context as it is.
    pub proof fn law_define_twice_reuses_the_definition(
        first: Self,
        second: Self,
        third: Self,
        identity: core::any::TypeId,
        type_names: TypeName,
        again: TypeName,
        first_description: Option<&'static str>,
        second_description: Option<&'static str>,
        first_ref: ShapeRef,
        second_ref: ShapeRef,
    )
        requires
            first.definitions_view().len() == first.identities_view().len(),
            again.rust_name@ == type_names.rust_name@,
            Self::defines_at(first, second, identity, type_names, first_description, first_ref),
            Self::defines_at(second, third, identity, again, second_description, second_ref),
        ensures
            first_ref@ == second_ref@,
            third.definitions_view() == second.definitions_view(),
            third.identities_view() == second.identities_view(),
    {
        let key = (identity, type_names.rust_name@);
        let n = first.identities_view().len() as int;
        if first.identities_view().contains(key) {
            let i = choose|i: int| 0 <= i < first.identities_view().len() && first.identities_view()[i] == key;
            assert(second.identities_view()[i] == key);
        } else {
            let (during, built, kind) = choose|during: Self, built: Self, kind: SerializeDefinitionKind|
                {
                    &&& Self::reserves(first, during, key)
                    &&& Self::extends(during, built)
                    &&& Self::stores(built, second, n, type_names, first_description, kind)
                };
            assert(during.identities_view()[n] == key);
            assert(second.identities_view()[n] == key);
        }
    }

    /// Define a named type once, under an explicit builder identity, and return a reference to
    /// its definition.
    ///
    /// When `identity` and `type_names.rust_name` are already registered, the context is left
    /// as it is and the existing definition is referenced. Otherwise the next id is reserved
    /// under that identity, `build` runs with the context, and its result becomes the body of
    /// the reserved definition.
    fn define_with_identity<F>(
        &mut self,
        identity: core::any::TypeId,
        type_names: TypeName,
        description: Option<&'static str>,
        build: F,
    ) -> (r: ShapeRef) where F: FnOnce(&mut Self) -> SerializeDefinitionKind
        requires
            forall|c: &mut Self| call_requires(build, (c,)),
            forall|c: &mut Self, kind: SerializeDefinitionKind|
                call_ensures(build, (c,), kind) ==> Self::extends(*c, *final(c)),
        ensures
            Self::defines_at(*old(self), *final(self), identity, type_names, description, r),
            !old(self).identities_view().contains((identity, type_names.rust_name@)) ==> exists|
                c: &mut Self,
            |
                {
                    &&& #[trigger] call_ensures(build, (c,), final(self).definitions_view()[old(self).definitions_view().len() as int].kind)
                    &&& Self::reserves(*old(self), *c, (identity, type_names.rust_name@))
                    &&& Self::extends(*c, *final(c))
                    &&& Self::stores(
                        *final(c),
                        *final(self),
                        old(self).definitions_view().len() as int,
                        type_names,
                        description,
                        final(self).definitions_view()[old(self).definitions_view().len() as int].kind,
                    )
                },
    {
        proof {
            use_type_invariant(&*self);
        }
        let ghost key = (identity, type_names.rust_name@);
        let ghost ids = self.identities_view();
        proof {
            assert forall|a: int, b: int| 0 <= a < b < ids.len() implies #[trigger] ids[a] != #[trigger] ids[b] by {
                assert(ids[a] == Self::identity_of(self.identities@[a]));
                assert(ids[b] == Self::identity_of(self.identities@[b]));
            }
        }
        let mut i: usize = 0;
        while i < self.identities.len()
            invariant
                i <= self.identities@.len(),
                ids == self.identities_view(),
                ids.len() == self.identities@.len(),
                self.definitions_view() == old(self).definitions_view(),
                self.identities_view() == old(self).identities_view(),
                key == (identity, type_names.rust_name@),
                forall|k: int| 0 <= k < i ==> ids[k] != key,
                forall|a: int, b: int| 0 <= a < b < ids.len() ==> #[trigger] ids[a] != #[trigger] ids[b],
            decreases self.identities@.len() - i,
        {
            assert(ids[i as int] == Self::identity_of(self.identities@[i as int]));
            let entry = &self.identities[i];
            let same_type = same_builder(&entry.0, &identity);
            let same_name = same_str(entry.1, type_names.rust_name);
            let same = same_type && same_name;
            assert(same == (ids[i as int] == key)) by {
                assert(ids[i as int].0 == entry.0);
                assert(ids[i as int].1 == entry.1@);
                assert(same_type == (entry.0 == identity));
                assert(same_name == (entry.1@ == type_names.rust_name@));
            }
            if same {
                proof {
                    assert forall|j: int| 0 <= j < ids.len() && ids[j] == key implies j == i by {
                        if j != i {
                            if j < i {
                                assert(ids[j] != key);
                            } else {
                                assert(ids[i as int] != ids[j]);
                            }
                        }
                    }
                }
                return ShapeRef::Definition(ShapeId::from_index(i));
            }
            i = i + 1;
        }
        proof {
            assert(!ids.contains(key));
        }
        let next = self.definitions.len();
        let id = ShapeId::from_index(next);
        let mut taken = SerializeShapeContext::new();
        core::mem::swap(self, &mut taken);
        let SerializeShapeContext { mut definitions, mut identities } = taken;
        definitions.push(
            SerializeDefinitionShape {
                id,
                type_names,
                description,
                kind: SerializeDefinitionKind::Opaque(pending_opaque(type_names.rust_name)),
            },
        );
        identities.push((identity, type_names.rust_name));
        proof {
            assert forall|a: int, b: int| 0 <= a < b < identities@.len() implies #[trigger] Self::identity_of(
                identities@[a],
            ) != #[trigger] Self::identity_of(identities@[b]) by {
                if b == identities@.len() - 1 {
                    assert(ids[a] == Self::identity_of(identities@[a]));
                }
            }
        }
        *self = SerializeShapeContext { definitions, identities };
        let ghost during = *self;
        proof {
            assert(during.identities_view() =~= ids.push(key));
            assert(Self::reserves(*old(self), during, key));
        }
        let kind = build(self);
        let ghost built = *self;
        proof {
            use_type_invariant(&*self);
            assert(exists|c: &mut Self| call_ensures(build, (c,), kind) && *c == during && *final(c) == built);
        }
        let mut taken = SerializeShapeContext::new();
        core::mem::swap(self, &mut taken);
        let SerializeShapeContext { mut definitions, identities } = taken;
        definitions.set(next, SerializeDefinitionShape { id, type_names, description, kind });
        *self = SerializeShapeContext { definitions, identities };
        proof {
            assert(Self::stores(built, *self, next as int, type_names, description, kind));
            let body = |d: Self, b: Self, k: SerializeDefinitionKind| true;
            assert(body(during, built, kind));
        }
        ShapeRef::Definition(id)
    }

    /// Define a named type once and return a reference to its definition.
    ///
    /// The concrete builder type and diagnostic Rust name form the graph-local identity. Call this
    /// method from one stable closure expression for every occurrence of the same named type.
    pub fn define_named_type<F>(&mut self, type_names: TypeName, build: F) -> (r: ShapeRef) where
        F: FnOnce(&mut Self) -> SerializeDefinitionKind + 'static,
        requires
            forall|c: &mut Self| call_requires(build, (c,)),
            forall|c: &mut Self, kind: SerializeDefinitionKind|
                call_ensures(build, (c,), kind) ==> Self::extends(*c, *final(c)),
        ensures
            r is Definition,
            exists|identity: core::any::TypeId|
                {
                    &&& Self::defines_at(*old(self), *final(self), identity, type_names, None, r)
                    &&& !old(self).identities_view().contains((identity, type_names.rust_name@)) ==> exists|
                        c: &mut Self,
                    |
                        {
                            &&& #[trigger] call_ensures(build, (c,), final(self).definitions_view()[old(self).definitions_view().len() as int].kind)
                            &&& Self::reserves(*old(self), *c, (identity, type_names.rust_name@))
                            &&& Self::extends(*c, *final(c))
                            &&& Self::stores(
                                *final(c),
                                *final(self),
                                old(self).definitions_view().len() as int,
                                type_names,
                                None,
                                final(self).definitions_view()[old(self).definitions_view().len() as int].kind,
                            )
                        }
                },
    {
        self.define_named_type_with_description(type_names, None, build)
    }

    /// Define a named type with user-facing documentation.
    ///
    /// This behaves like [`Self::define_named_type`] and stores `description` on the resulting
    /// definition.
    pub fn define_named_type_with_description<F>(
        &mut self,
        type_names: TypeName,
        description: Option<&'static str>,
        build: F,
    ) -> (r: ShapeRef) where F: FnOnce(&mut Self) -> SerializeDefinitionKind + 'static
        requires
            forall|c: &mut Self| call_requires(build, (c,)),
            forall|c: &mut Self, kind: SerializeDefinitionKind|
                call_ensures(build, (c,), kind) ==> Self::extends(*c, *final(c)),
        ensures
            r is Definition,
            exists|identity: core::any::TypeId|
                {
                    &&& Self::defines_at(*old(self), *final(self), identity, type_names, description, r)
                    &&& !old(self).identities_view().contains((identity, type_names.rust_name@)) ==> exists|
                        c: &mut Self,
                    |
                        {
                            &&& #[trigger] call_ensures(build, (c,), final(self).definitions_view()[old(self).definitions_view().len() as int].kind)
                            &&& Self::reserves(*old(self), *c, (identity, type_names.rust_name@))
                            &&& Self::extends(*c, *final(c))
                            &&& Self::stores(
                                *final(c),
                                *final(self),
                                old(self).definitions_view().len() as int,
                                type_names,
                                description,
                                final(self).definitions_view()[old(self).definitions_view().len() as int].kind,
                            )
                        }
                },
    {
        let identity = builder_identity::<F>();
        self.define_with_identity(identity, type_names, description, build)
    }

    /// The definitions built in this context, in id order.
    pub fn finish(self) -> (r: Vec<SerializeDefinitionShape>)
        ensures
            r@ == self.definitions_view(),
            forall|i: int| 0 <= i < r@.len() ==> (#[trigger] r@[i]).id.value() == i,
    {
        proof {
            use_type_invariant(&self);
        }
        let SerializeShapeContext { definitions, identities: _ } = self;
        definitions
    }
}

impl Default for SerializeShapeContext {
    fn default() -> (r: Self)
        ensures
            r.definitions_view().len() == 0,
            r.identities_view().len() == 0,
    {
        SerializeShapeContext::new()
    }
}

/// Accumulates named deserialization definitions while a shape graph is built.
#[derive(Debug)]
pub struct DeserializeShapeContext {
    definitions: Vec<DeserializeDefinitionShape>,
    identities: Vec<(core::any::TypeId, &'static str)>,
}

impl DeserializeShapeContext {
    #[verifier::type_invariant]
    spec fn well_formed(self) -> bool {
        &&& self.definitions@.len() == self.identities@.len()
        &&& forall|i: int|
            0 <= i < self.definitions@.len() ==> (#[trigger] self.definitions@[i]).id.value() == i
        &&& forall|i: int, j: int|
            0 <= i < j < self.identities@.len() ==> #[trigger] Self::identity_of(
                self.identities@[i],
            ) != #[trigger] Self::identity_of(self.identities@[j])
    }

    /// The identity a registration entry stands for.
    pub open spec fn identity_of(entry: (core::any::TypeId, &'static str)) -> DefinitionIdentity {
        (entry.0, entry.1@)
    }

    /// The definitions built so far, in id order.
    pub closed spec fn definitions_view(self) -> Seq<DeserializeDefinitionShape> {
        self.definitions@
    }

    /// The identities under which the definitions were registered, in id order.
    pub closed spec fn identities_view(self) -> Seq<DefinitionIdentity> {
        self.identities@.map_values(|entry: (core::any::TypeId, &'static str)| Self::identity_of(entry))
    }

    /// Create an empty context.
    pub fn new() -> (r: Self)
        ensures
            r.definitions_view().len() == 0,
            r.identities_view().len() == 0,
    {
        DeserializeShapeContext { definitions: Vec::new(), identities: Vec::new() }
    }

    /// `after` keeps every definition and every registration of `before` at its index.
    pub open spec fn extends(before: Self, after: Self) -> bool {
        &&& before.definitions_view().len() <= after.definitions_view().len()
        &&& before.identities_view().len() <= after.identities_view().len()
        &&& forall|i: int|
            0 <= i < before.definitions_view().len() ==> #[trigger] after.definitions_view()[i]
                == before.definitions_view()[i]
        &&& forall|i: int|
            0 <= i < before.identities_view().len() ==> #[trigger] after.identities_view()[i]
                == before.identities_view()[i]
    }

    /// `during` is `before` with one more definition reserved, registered under `key`.
    pub open spec fn reserves(before: Self, during: Self, key: DefinitionIdentity) -> bool {
        &&& Self::extends(before, during)
        &&& during.definitions_view().len() == before.definitions_view().len() + 1
        &&& during.identities_view() == before.identities_view().push(key)
    }

    /// `after` is `built` with the definition at index `n` replaced by one with id `n`, these
    /// names and description, and the body `kind`.
    pub open spec fn stores(
        built: Self,
        after: Self,
        n: int,
        type_names: TypeName,
        description: Option<&'static str>,
        kind: DeserializeDefinitionKind,
    ) -> bool {
        &&& 0 <= n < built.definitions_view().len()
        &&& after.definitions_view().len() == built.definitions_view().len()
        &&& forall|i: int|
            0 <= i < built.definitions_view().len() && i != n ==> #[trigger] after.definitions_view()[i]
                == built.definitions_view()[i]
        &&& after.definitions_view()[n].id.value() == n
        &&& after.definitions_view()[n].type_names == type_names
        &&& after.definitions_view()[n].description == description
        &&& after.definitions_view()[n].kind == kind
        &&& after.identities_view() == built.identities_view()
    }

    /// What defining a named type under `identity` does, for a builder whose runs are described
    /// by `body`: when the identity and the Rust name are registered at some index, the context
    /// is unchanged and that definition is referenced; otherwise the next index is reserved
    /// under them, the builder turns the context with that reservation into `built` and
    /// returns `kind` with `body(during, built, kind)`, and the definition at the reserved index
    /// becomes `{ id, type_names, description, kind }`.
    pub open spec fn defines_with(
        before: Self,
        after: Self,
        identity: core::any::TypeId,
        type_names: TypeName,
        description: Option<&'static str>,
        body: spec_fn(Self, Self, DeserializeDefinitionKind) -> bool,
        r: ShapeRef,
    ) -> bool {
        let key = (identity, type_names.rust_name@);
        let n = before.definitions_view().len();
        &&& Self::extends(before, after)
        &&& forall|i: int|
            0 <= i < before.identities_view().len() && #[trigger] before.identities_view()[i] == key
                ==> {
                &&& r@ == crate::model::Shape::Definition(i as usize)
                &&& after.definitions_view() == before.definitions_view()
                &&& after.identities_view() == before.identities_view()
            }
        &&& !before.identities_view().contains(key) ==> {
            &&& r@ == crate::model::Shape::Definition(n as usize)
            &&& exists|during: Self, built: Self, kind: DeserializeDefinitionKind|
                {
                    &&& Self::reserves(before, during, key)
                    &&& Self::extends(during, built)
                    &&& #[trigger] body(during, built, kind)
                    &&& Self::stores(built, after, n as int, type_names, description, kind)
                }
        }
    }

    /// What defining a named type under `identity` does to the context and returns, whatever
    /// the body: [`Self::defines_with`] with a body that every run has.
    pub open spec fn defines_at(
        before: Self,
        after: Self,
        identity: core::any::TypeId,
        type_names: TypeName,
        description: Option<&'static str>,
        r: ShapeRef,
    ) -> bool {
        Self::defines_with(
            before,
            after,
            identity,
            type_names,
            description,
            |during: Self, built: Self, kind: DeserializeDefinitionKind| true,
            r,
        )
    }

    /// When the builder run that defining a fresh type made, from `during` to `built`, is
    /// described by `body`, what the definition did is described by [`Self::defines_with`] with
    /// `body`.
    pub proof fn lemma_defines_with(
        before: Self,
        after: Self,
        identity: core::any::TypeId,
        type_names: TypeName,
        description: Option<&'static str>,
        body: spec_fn(Self, Self, DeserializeDefinitionKind) -> bool,
        r: ShapeRef,
        during: Self,
        built: Self,
    )
        requires
            Self::defines_at(before, after, identity, type_names, description, r),
            !before.identities_view().contains((identity, type_names.rust_name@)) ==> {
                &&& Self::reserves(before, during, (identity, type_names.rust_name@))
                &&& Self::extends(during, built)
                &&& body(during, built, after.definitions_view()[before.definitions_view().len() as int].kind)
                &&& Self::stores(
                    built,
                    after,
                    before.definitions_view().len() as int,
                    type_names,
                    description,
                    after.definitions_view()[before.definitions_view().len() as int].kind,
                )
            },
        ensures
            Self::defines_with(before, after, identity, type_names, description, body, r),
    {
    }

    /// When every run of `build` is described by `body`, what defining a named type with
    /// `build` did is described by [`Self::defines_with`] with `body`, under some identity.
    pub proof fn lemma_define_named_type<F: FnOnce(&mut Self) -> DeserializeDefinitionKind>(
        before: Self,
        after: Self,
        type_names: TypeName,
        description: Option<&'static str>,
        build: F,
        body: spec_fn(Self, Self, DeserializeDefinitionKind) -> bool,
        r: ShapeRef,
    )
        requires
            exists|identity: core::any::TypeId|
                {
                    &&& Self::defines_at(before, after, identity, type_names, description, r)
                    &&& !before.identities_view().contains((identity, type_names.rust_name@)) ==> exists|
                        c: &mut Self,
                    |
                        {
                            &&& #[trigger] call_ensures(build, (c,), after.definitions_view()[before.definitions_view().len() as int].kind)
                            &&& Self::reserves(before, *c, (identity, type_names.rust_name@))
                            &&& Self::extends(*c, *final(c))
                            &&& Self::stores(
                                *final(c),
                                after,
                                before.definitions_view().len() as int,
                                type_names,
                                description,
                                after.definitions_view()[before.definitions_view().len() as int].kind,
                            )
                        }
                },
            forall|c: &mut Self, kind: DeserializeDefinitionKind|
                call_ensures(build, (c,), kind) ==> #[trigger] body(*c, *final(c), kind),
        ensures
            exists|identity: core::any::TypeId|
                Self::defines_with(before, after, identity, type_names, description, body, r),
    {
        let identity = choose|identity: core::any::TypeId|
            {
                &&& Self::defines_at(before, after, identity, type_names, description, r)
                &&& !before.identities_view().contains((identity, type_names.rust_name@)) ==> exists|
                    c: &mut Self,
                |
                    {
                        &&& #[trigger] call_ensures(build, (c,), after.definitions_view()[before.definitions_view().len() as int].kind)
                        &&& Self::reserves(before, *c, (identity, type_names.rust_name@))
                        &&& Self::extends(*c, *final(c))
                        &&& Self::stores(
                            *final(c),
                            after,
                            before.definitions_view().len() as int,
                            type_names,
                            description,
                            after.definitions_view()[before.definitions_view().len() as int].kind,
                        )
                    }
            };
        if !before.identities_view().contains((identity, type_names.rust_name@)) {
            let kind = after.definitions_view()[before.definitions_view().len() as int].kind;
            let c = choose|c: &mut Self|
                {
                    &&& #[trigger] call_ensures(build, (c,), kind)
                    &&& Self::reserves(before, *c, (identity, type_names.rust_name@))
                    &&& Self::extends(*c, *final(c))
                    &&& Self::stores(*final(c), after, before.definitions_view().len() as int, type_names, description, kind)
                };
            Self::lemma_defines_with(before, after, identity, type_names, description, body, r, *c, *final(c));
        } else {
            Self::lemma_defines_with(before, after, identity, type_names, description, body, r, before, before);
        }
    }

    /// A named type is defined once: after a first definition under an identity and a Rust
    /// name, defining it again, with any names' Serde part and description, references the
    /// same definition and leaves the context as it is.
    pub proof fn law_define_twice_reuses_the_definition(
        first: Self,
        second: Self,
        third: Self,
        identity: core::any::TypeId,
        type_names: TypeName,
        again: TypeName,
        first_description: Option<&'static str>,
        second_description: Option<&'static str>,
        first_ref: ShapeRef,
        second_ref: ShapeRef,
    )
        requires
            first.definitions_view().len() == first.identities_view().len(),
            again.rust_name@ == type_names.rust_name@,
            Self::defines_at(first, second, identity, type_names, first_description, first_ref),
            Self::defines_at(second, third, identity, again, second_description, second_ref),
        ensures
            first_ref@ == second_ref@,
            third.definitions_view() == second.definitions_view(),
            third.identities_view() == second.identities_view(),
    {
        let key = (identity, type_names.rust_name@);
        let n = first.identities_view().len() as int;
        if first.identities_view().contains(key) {
            let i = choose|i: int| 0 <= i < first.identities_view().len() && first.identities_view()[i] == key;
            assert(second.identities_view()[i] == key);
        } else {
            let (during, built, kind) = choose|during: Self, built: Self, kind: DeserializeDefinitionKind|
                {
                    &&& Self::reserves(first, during, key)
                    &&& Self::extends(during, built)
                    &&& Self::stores(built, second, n, type_names, first_description, kind)
                };
            assert(during.identities_view()[n] == key);
            assert(second.identities_view()[n] == key);
        }
    }

    /// Define a named type once, under an explicit builder identity, and return a reference to
    /// its definition.
    ///
    /// When `identity` and `type_names.rust_name` are already registered, the context is left
    /// as it is and the existing definition is referenced. Otherwise the next id is reserved
    /// under that identity, `build` runs with the context, and its result becomes the body of
    /// the reserved definition.
    fn define_with_identity<F>(
        &mut self,
        identity: core::any::TypeId,
        type_names: TypeName,
        description: Option<&'static str>,
        build: F,
    ) -> (r: ShapeRef) where F: FnOnce(&mut Self) -> DeserializeDefinitionKind
        requires
            forall|c: &mut Self| call_requires(build, (c,)),
            forall|c: &mut Self, kind: DeserializeDefinitionKind|
                call_ensures(build, (c,), kind) ==> Self::extends(*c, *final(c)),
        ensures
            Self::defines_at(*old(self), *final(self), identity, type_names, description, r),
            !old(self).identities_view().contains((identity, type_names.rust_name@)) ==> exists|
                c: &mut Self,
            |
                {
                    &&& #[trigger] call_ensures(build, (c,), final(self).definitions_view()[old(self).definitions_view().len() as int].kind)
                    &&& Self::reserves(*old(self), *c, (identity, type_names.rust_name@))
                    &&& Self::extends(*c, *final(c))
                    &&& Self::stores(
                        *final(c),
                        *final(self),
                        old(self).definitions_view().len() as int,
                        type_names,
                        description,
                        final(self).definitions_view()[old(self).definitions_view().len() as int].kind,
                    )
                },
    {
        proof {
            use_type_invariant(&*self);
        }
        let ghost key = (identity, type_names.rust_name@);
        let ghost ids = self.identities_view();
        proof {
            assert forall|a: int, b: int| 0 <= a < b < ids.len() implies #[trigger] ids[a] != #[trigger] ids[b] by {
                assert(ids[a] == Self::identity_of(self.identities@[a]));
                assert(ids[b] == Self::identity_of(self.identities@[b]));
            }
        }
        let mut i: usize = 0;
        while i < self.identities.len()
            invariant
                i <= self.identities@.len(),
                ids == self.identities_view(),
                ids.len() == self.identities@.len(),
                self.definitions_view() == old(self).definitions_view(),
                self.identities_view() == old(self).identities_view(),
                key == (identity, type_names.rust_name@),
                forall|k: int| 0 <= k < i ==> ids[k] != key,
                forall|a: int, b: int| 0 <= a < b < ids.len() ==> #[trigger] ids[a] != #[trigger] ids[b],
            decreases self.identities@.len() - i,
        {
            assert(ids[i as int] == Self::identity_of(self.identities@[i as int]));
            let entry = &self.identities[i];
            let same_type = same_builder(&entry.0, &identity);
            let same_name = same_str(entry.1, type_names.rust_name);
            let same = same_type && same_name;
            assert(same == (ids[i as int] == key)) by {
                assert(ids[i as int].0 == entry.0);
                assert(ids[i as int].1 == entry.1@);
                assert(same_type == (entry.0 == identity));
                assert(same_name == (entry.1@ == type_names.rust_name@));
            }
            if same {
                proof {
                    assert forall|j: int| 0 <= j < ids.len() && ids[j] == key implies j == i by {
                        if j != i {
                            if j < i {
                                assert(ids[j] != key);
                            } else {
                                assert(ids[i as int] != ids[j]);
                            }
                        }
                    }
                }
                return ShapeRef::Definition(ShapeId::from_index(i));
            }
            i = i + 1;
        }
        proof {
            assert(!ids.contains(key));
        }
        let next = self.definitions.len();
        let id = ShapeId::from_index(next);
        let mut taken = DeserializeShapeContext::new();
        core::mem::swap(self, &mut taken);
        let DeserializeShapeContext { mut definitions, mut identities } = taken;
        definitions.push(
            DeserializeDefinitionShape {
                id,
                type_names,
                description,
                kind: DeserializeDefinitionKind::Opaque(pending_opaque(type_names.rust_name)),
            },
        );
        identities.push((identity, type_names.rust_name));
        proof {
            assert forall|a: int, b: int| 0 <= a < b < identities@.len() implies #[trigger] Self::identity_of(
                identities@[a],
            ) != #[trigger] Self::identity_of(identities@[b]) by {
                if b == identities@.len() - 1 {
                    assert(ids[a] == Self::identity_of(identities@[a]));
                }
            }
        }
        *self = DeserializeShapeContext { definitions, identities };
        let ghost during = *self;
        proof {
            assert(during.identities_view() =~= ids.push(key));
            assert(Self::reserves(*old(self), during, key));
        }
        let kind = build(self);
        let ghost built = *self;
        proof {
            use_type_invariant(&*self);
            assert(exists|c: &mut Self| call_ensures(build, (c,), kind) && *c == during && *final(c) == built);
        }
        let mut taken = DeserializeShapeContext::new();
        core::mem::swap(self, &mut taken);
        let DeserializeShapeContext { mut definitions, identities } = taken;
        definitions.set(next, DeserializeDefinitionShape { id, type_names, description, kind });
        *self = DeserializeShapeContext { definitions, identities };
        proof {
            assert(Self::stores(built, *self, next as int, type_names, description, kind));
            let body = |d: Self, b: Self, k: DeserializeDefinitionKind| true;
            assert(body(during, built, kind));
        }
        ShapeRef::Definition(id)
    }

    /// Define a named type once and return a reference to its definition.
    ///
    /// The concrete builder type and diagnostic Rust name form the graph-local identity. Call this
    /// method from one stable closure expression for every occurrence of the same named type.
    pub fn define_named_type<F>(&mut self, type_names: TypeName, build: F) -> (r: ShapeRef) where
        F: FnOnce(&mut Self) -> DeserializeDefinitionKind + 'static,
        requires
            forall|c: &mut Self| call_requires(build, (c,)),
            forall|c: &mut Self, kind: DeserializeDefinitionKind|
                call_ensures(build, (c,), kind) ==> Self::extends(*c, *final(c)),
        ensures
            r is Definition,
            exists|identity: core::any::TypeId|
                {
                    &&& Self::defines_at(*old(self), *final(self), identity, type_names, None, r)
                    &&& !old(self).identities_view().contains((identity, type_names.rust_name@)) ==> exists|
                        c: &mut Self,
                    |
                        {
                            &&& #[trigger] call_ensures(build, (c,), final(self).definitions_view()[old(self).definitions_view().len() as int].kind)
                            &&& Self::reserves(*old(self), *c, (identity, type_names.rust_name@))
                            &&& Self::extends(*c, *final(c))
                            &&& Self::stores(
                                *final(c),
                                *final(self),
                                old(self).definitions_view().len() as int,
                                type_names,
                                None,
                                final(self).definitions_view()[old(self).definitions_view().len() as int].kind,
                            )
                        }
                },
    {
        self.define_named_type_with_description(type_names, None, build)
    }

    /// Define a named type with user-facing documentation.
    ///
    /// This behaves like [`Self::define_named_type`] and stores `description` on the resulting
    /// definition.
    pub fn define_named_type_with_description<F>(
        &mut self,
        type_names: TypeName,
        description: Option<&'static str>,
        build: F,
    ) -> (r: ShapeRef) where F: FnOnce(&mut Self) -> DeserializeDefinitionKind + 'static
        requires
            forall|c: &mut Self| call_requires(build, (c,)),
            forall|c: &mut Self, kind: DeserializeDefinitionKind|
                call_ensures(build, (c,), kind) ==> Self::extends(*c, *final(c)),
        ensures
            r is Definition,
            exists|identity: core::any::TypeId|
                {
                    &&& Self::defines_at(*old(self), *final(self), identity, type_names, description, r)
                    &&& !old(self).identities_view().contains((identity, type_names.rust_name@)) ==> exists|
                        c: &mut Self,
                    |
                        {
                            &&& #[trigger] call_ensures(build, (c,), final(self).definitions_view()[old(self).definitions_view().len() as int].kind)
                            &&& Self::reserves(*old(self), *c, (identity, type_names.rust_name@))
                            &&& Self::extends(*c, *final(c))
                            &&& Self::stores(
                                *final(c),
                                *final(self),
                                old(self).definitions_view().len() as int,
                                type_names,
                                description,
                                final(self).definitions_view()[old(self).definitions_view().len() as int].kind,
                            )
                        }
                },
    {
        let identity = builder_identity::<F>();
        self.define_with_identity(identity, type_names, description, build)
    }

    /// The definitions built in this context, in id order.
    pub fn finish(self) -> (r: Vec<DeserializeDefinitionShape>)
        ensures
            r@ == self.definitions_view(),
            forall|i: int| 0 <= i < r@.len() ==> (#[trigger] r@[i]).id.value() == i,
    {
        proof {
            use_type_invariant(&self);
        }
        let DeserializeShapeContext { definitions, identities: _ } = self;
        definitions
    }
}

impl Default for DeserializeShapeContext {
    fn default() -> (r: Self)
        ensures
            r.definitions_view().len() == 0,
            r.identities_view().len() == 0,
    {
        DeserializeShapeContext::new()
    }
}

/// A type that can describe the shape emitted by its Serde serializer.
pub trait SerializeShape {
    /// Whether building this type's serialization shape in the context `before` may return `r`
    /// and leave the context as `after`. An implementation states here what it builds; this
    /// default states nothing.
    open spec fn emits(before: SerializeShapeContext, after: SerializeShapeContext, r: ShapeRef) -> bool {
        true
    }

    /// Build this type's serialization shape inside the provided context.
    fn serialize_shape_in(context: &mut SerializeShapeContext) -> (r: ShapeRef)
        ensures
            SerializeShapeContext::extends(*old(context), *final(context)),
            Self::emits(*old(context), *final(context), r),
    ;

    /// Build a complete serialization shape graph rooted at this type.
    fn serialize_shape() -> (r: SerializeShapeGraph)
        ensures
            r.well_formed(),
            exists|before: SerializeShapeContext, after: SerializeShapeContext|
                {
                    &&& before.definitions_view().len() == 0
                    &&& before.identities_view().len() == 0
                    &&& #[trigger] Self::emits(before, after, r.root_view())
                    &&& r.definitions_view() == after.definitions_view()
                },
    {
        let mut context = SerializeShapeContext::new();
        let ghost before = context;
        let root = Self::serialize_shape_in(&mut context);
        let ghost after = context;
        let definitions = context.finish();
        proof {
            assert(Self::emits(before, after, root));
        }
        SerializeShapeGraph::from_parts(root, definitions)
    }
}

/// A complete serialization shape graph rooted at one type.
#[derive(Clone, Debug, Eq, PartialEq)]
pub struct SerializeShapeGraph {
    /// The root shape reference.
    root: ShapeRef,
    /// Named type definitions reachable from the root.
    definitions: Vec<SerializeDefinitionShape>,
}

impl SerializeShapeGraph {
    /// The root shape reference.
    pub closed spec fn root_view(self) -> ShapeRef {
        self.root
    }

    /// The named definitions, in id order.
    pub closed spec fn definitions_view(self) -> Seq<SerializeDefinitionShape> {
        self.definitions@
    }

    /// The graph that building `T`'s shape in an empty context gives: its root is what the
    /// build returned, and its definitions are the ones the context holds afterwards.
    pub open spec fn built_from<T: SerializeShape + ?Sized>(self) -> bool {
        exists|before: SerializeShapeContext, after: SerializeShapeContext|
            {
                &&& before.definitions_view().len() == 0
                &&& before.identities_view().len() == 0
                &&& #[trigger] T::emits(before, after, self.root_view())
                &&& self.definitions_view() == after.definitions_view()
            }
    }

    /// Every definition's id is its own index.
    pub open spec fn well_formed(self) -> bool {
        forall|i: int|
            0 <= i < self.definitions_view().len() ==> (#[trigger] self.definitions_view()[i]).id.value()
                == i
    }

    /// The definition at an id's index, when the index is in bounds.
    pub open spec fn definition_at(self, id: ShapeId) -> Option<SerializeDefinitionShape> {
        if id.value() < self.definitions_view().len() {
            Some(self.definitions_view()[id.value() as int])
        } else {
            None
        }
    }

    /// The definition a shape directly references, when it references one in bounds.
    pub open spec fn definition_referenced_by(self, shape: ShapeRef) -> Option<SerializeDefinitionShape> {
        match shape {
            ShapeRef::Definition(id) => self.definition_at(id),
            _ => None,
        }
    }

    /// In a well-formed graph, the definition found at an id's index carries that very id, so a
    /// lookup by id never yields another definition.
    pub proof fn law_definition_lookup_matches_id(self, id: ShapeId)
        requires
            self.well_formed(),
        ensures
            self.definition_at(id) matches Some(d) ==> d.id == id,
    {
        if id.value() < self.definitions_view().len() {
            let d = self.definitions_view()[id.value() as int];
            ShapeId::lemma_value_determines(d.id, id);
        }
    }

    /// Assemble a graph from its root and definitions.
    fn from_parts(root: ShapeRef, definitions: Vec<SerializeDefinitionShape>) -> (r: Self)
        requires
            forall|i: int| 0 <= i < definitions@.len() ==> (#[trigger] definitions@[i]).id.value() == i,
        ensures
            r.well_formed(),
            r.root_view() == root,
            r.definitions_view() == definitions@,
    {
        SerializeShapeGraph { root, definitions }
    }

    /// Build a serialization graph from a function that returns its root shape.
    ///
    /// This is useful when the root type is foreign or when no Rust type corresponds to the
    /// complete wire shape. Use [`Self::for_type`] when the root implements [`SerializeShape`].
    pub fn from_fn<F>(build_root: F) -> (r: Self) where
        F: FnOnce(&mut SerializeShapeContext) -> ShapeRef,
        requires
            forall|c: &mut SerializeShapeContext| call_requires(build_root, (c,)),
        ensures
            r.well_formed(),
            exists|c: &mut SerializeShapeContext|
                {
                    &&& #[trigger] call_ensures(build_root, (c,), r.root_view())
                    &&& (*c).definitions_view().len() == 0
                    &&& (*c).identities_view().len() == 0
                    &&& r.definitions_view() == (*final(c)).definitions_view()
                },
    {
        let mut context = SerializeShapeContext::new();
        let ghost empty = context;
        let root = build_root(&mut context);
        let ghost filled = context;
        let definitions = context.finish();
        proof {
            assert(exists|c: &mut SerializeShapeContext|
                call_ensures(build_root, (c,), root) && *c == empty && *final(c) == filled);
        }
        SerializeShapeGraph { root, definitions }
    }

    /// Build a complete serialization shape graph rooted at `T`.
    pub fn for_type<T: SerializeShape + ?Sized>() -> (r: Self)
        ensures
            r.well_formed(),
            r.built_from::<T>(),
    {
        let mut context = SerializeShapeContext::new();
        let ghost before = context;
        let root = T::serialize_shape_in(&mut context);
        let ghost after = context;
        let definitions = context.finish();
        proof {
            assert(T::emits(before, after, root));
        }
        SerializeShapeGraph { root, definitions }
    }

    /// Return the root shape reference.
    pub fn root(&self) -> (r: &ShapeRef)
        ensures
            *r == self.root_view(),
    {
        &self.root
    }

    /// Return the root definition when the graph root is a named type.
    pub fn root_definition(&self) -> (r: Option<&SerializeDefinitionShape>)
        ensures
            deref_option(r) == self.definition_referenced_by(self.root_view()),
    {
        self.definition_for(self.root())
    }

    /// Return the named definitions reachable from the root.
    pub fn definitions(&self) -> (r: &[SerializeDefinitionShape])
        ensures
            r@ == self.definitions_view(),
    {
        self.definitions.as_slice()
    }

    /// Return a definition at this id's graph-local index.
    ///
    /// A [`ShapeId`] does not encode graph ownership. The caller must pass an id produced by this
    /// graph; an id from another graph with an in-bounds index cannot be distinguished here.
    pub fn definition(&self, id: ShapeId) -> (r: Option<&SerializeDefinitionShape>)
        ensures
            deref_option(r) == self.definition_at(id),
    {
        let index = id.index();
        if index < self.definitions.len() {
            Some(&self.definitions[index])
        } else {
            None
        }
    }

    /// Return the definition directly referenced by `shape`.
    ///
    /// Returns `None` for non-definition shapes and out-of-bounds definition indexes.
    pub fn definition_for(&self, shape: &ShapeRef) -> (r: Option<&SerializeDefinitionShape>)
        ensures
            deref_option(r) == self.definition_referenced_by(*shape),
    {
        match shape {
            ShapeRef::Definition(id) => self.definition(*id),
            _ => None,
        }
    }
}

/// A type that can describe the shape accepted by its Serde deserializer.
pub trait DeserializeShape {
    /// Whether building this type's deserialization shape in the context `before` may return `r`
    /// and leave the context as `after`. An implementation states here what it builds; this
    /// default states nothing.
    open spec fn accepts(before: DeserializeShapeContext, after: DeserializeShapeContext, r: ShapeRef) -> bool {
        true
    }

    /// Build this type's deserialization shape inside the provided context.
    fn deserialize_shape_in(context: &mut DeserializeShapeContext) -> (r: ShapeRef)
        ensures
            DeserializeShapeContext::extends(*old(context), *final(context)),
            Self::accepts(*old(context), *final(context), r),
    ;

    /// Build a complete deserialization shape graph rooted at this type.
    fn deserialize_shape() -> (r: DeserializeShapeGraph)
        ensures
            r.well_formed(),
            exists|before: DeserializeShapeContext, after: DeserializeShapeContext|
                {
                    &&& before.definitions_view().len() == 0
                    &&& before.identities_view().len() == 0
                    &&& #[trigger] Self::accepts(before, after, r.root_view())
                    &&& r.definitions_view() == after.definitions_view()
                },
    {
        let mut context = DeserializeShapeContext::new();
        let ghost before = context;
        let root = Self::deserialize_shape_in(&mut context);
        let ghost after = context;
        let definitions = context.finish();
        proof {
            assert(Self::accepts(before, after, root));
        }
        DeserializeShapeGraph::from_parts(root, definitions)
    }
}

/// A complete deserialization shape graph rooted at one type.
#[derive(Clone, Debug, Eq, PartialEq)]
pub struct DeserializeShapeGraph {
    /// The root shape reference.
    root: ShapeRef,
    /// Named type definitions reachable from the root.
    definitions: Vec<DeserializeDefinitionShape>,
}

impl DeserializeShapeGraph {
    /// The root shape reference.
    pub closed spec fn root_view(self) -> ShapeRef {
        self.root
    }

    /// The named definitions, in id order.
    pub closed spec fn definitions_view(self) -> Seq<DeserializeDefinitionShape> {
        self.definitions@
    }

    /// The graph that building `T`'s shape in an empty context gives: its root is what the
    /// build returned, and its definitions are the ones the context holds afterwards.
    pub open spec fn built_from<T: DeserializeShape + ?Sized>(self) -> bool {
        exists|before: DeserializeShapeContext, after: DeserializeShapeContext|
            {
                &&& before.definitions_view().len() == 0
                &&& before.identities_view().len() == 0
                &&& #[trigger] T::accepts(before, after, self.root_view())
                &&& self.definitions_view() == after.definitions_view()
            }
    }

    /// Every definition's id is its own index.
    pub open spec fn well_formed(self) -> bool {
        forall|i: int|
            0 <= i < self.definitions_view().len() ==> (#[trigger] self.definitions_view()[i]).id.value()
                == i
    }

    /// The definition at an id's index, when the index is in bounds.
    pub open spec fn definition_at(self, id: ShapeId) -> Option<DeserializeDefinitionShape> {
        if id.value() < self.definitions_view().len() {
            Some(self.definitions_view()[id.value() as int])
        } else {
            None
        }
    }

    /// The definition a shape directly references, when it references one in bounds.
    pub open spec fn definition_referenced_by(self, shape: ShapeRef) -> Option<DeserializeDefinitionShape> {
        match shape {
            ShapeRef::Definition(id) => self.definition_at(id),
            _ => None,
        }
    }

    /// In a well-formed graph, the definition found at an id's index carries that very id, so a
    /// lookup by id never yields another definition.
    pub proof fn law_definition_lookup_matches_id(self, id: ShapeId)
        requires
            self.well_formed(),
        ensures
            self.definition_at(id) matches Some(d) ==> d.id == id,
    {
        if id.value() < self.definitions_view().len() {
            let d = self.definitions_view()[id.value() as int];
            ShapeId::lemma_value_determines(d.id, id);
        }
    }

    /// Assemble a graph from its root and definitions.
    fn from_parts(root: ShapeRef, definitions: Vec<DeserializeDefinitionShape>) -> (r: Self)
        requires
            forall|i: int| 0 <= i < definitions@.len() ==> (#[trigger] definitions@[i]).id.value() == i,
        ensures
            r.well_formed(),
            r.root_view() == root,
            r.definitions_view() == definitions@,
    {
        DeserializeShapeGraph { root, definitions }
    }

    /// Build a deserialization graph from a function that returns its root shape.
    ///
    /// This is useful when the root type is foreign or when no Rust type corresponds to the
    /// complete wire shape. Use [`Self::for_type`] when the root implements [`DeserializeShape`].
    pub fn from_fn<F>(build_root: F) -> (r: Self) where
        F: FnOnce(&mut DeserializeShapeContext) -> ShapeRef,
        requires
            forall|c: &mut DeserializeShapeContext| call_requires(build_root, (c,)),
        ensures
            r.well_formed(),
            exists|c: &mut DeserializeShapeContext|
                {
                    &&& #[trigger] call_ensures(build_root, (c,), r.root_view())
                    &&& (*c).definitions_view().len() == 0
                    &&& (*c).identities_view().len() == 0
                    &&& r.definitions_view() == (*final(c)).definitions_view()
                },
    {
        let mut context = DeserializeShapeContext::new();
        let ghost empty = context;
        let root = build_root(&mut context);
        let ghost filled = context;
        let definitions = context.finish();
        proof {
            assert(exists|c: &mut DeserializeShapeContext|
                call_ensures(build_root, (c,), root) && *c == empty && *final(c) == filled);
        }
        DeserializeShapeGraph { root, definitions }
    }

    /// Build a complete deserialization shape graph rooted at `T`.
    pub fn for_type<T: DeserializeShape + ?Sized>() -> (r: Self)
        ensures
            r.well_formed(),
            r.built_from::<T>(),
    {
        let mut context = DeserializeShapeContext::new();
        let ghost before = context;
        let root = T::deserialize_shape_in(&mut context);
        let ghost after = context;
        let definitions = context.finish();
        proof {
            assert(T::accepts(before, after, root));
        }
        DeserializeShapeGraph { root, definitions }
    }

    /// Return the root shape reference.
    pub fn root(&self) -> (r: &ShapeRef)
        ensures
            *r == self.root_view(),
    {
        &self.root
    }

    /// Return the root definition when the graph root is a named type.
    pub fn root_definition(&self) -> (r: Option<&DeserializeDefinitionShape>)
        ensures
            deref_option(r) == self.definition_referenced_by(self.root_view()),
    {
        self.definition_for(self.root())
    }

    /// Return the named definitions reachable from the root.
    pub fn definitions(&self) -> (r: &[DeserializeDefinitionShape])
        ensures
            r@ == self.definitions_view(),
    {
        self.definitions.as_slice()
    }

    /// Return a definition at this id's graph-local index.
    ///
    /// A [`ShapeId`] does not encode graph ownership. The caller must pass an id produced by this
    /// graph; an id from another graph with an in-bounds index cannot be distinguished here.
    pub fn definition(&self, id: ShapeId) -> (r: Option<&DeserializeDefinitionShape>)
        ensures
            deref_option(r) == self.definition_at(id),
    {
        let index = id.index();
        if index < self.definitions.len() {
            Some(&self.definitions[index])
        } else {
            None
        }
    }

    /// Return the definition directly referenced by `shape`.
    ///
    /// Returns `None` for non-definition shapes and out-of-bounds definition indexes.
    pub fn definition_for(&self, shape: &ShapeRef) -> (r: Option<&DeserializeDefinitionShape>)
        ensures
            deref_option(r) == self.definition_referenced_by(*shape),
    {
        match shape {
            ShapeRef::Definition(id) => self.definition(*id),
            _ => None,
        }
    }
}

} // verus!
