# serde-shape

`serde_shape` reflects the data model that a Rust type emits through Serde serialization or
accepts through Serde deserialization, as an inspectable graph: a root `ShapeRef` and a list of
named definitions for structs and enums, referenced by `ShapeId`.

The library is written in Verus and its contracts are proved:

- `src/model.rs` holds the mathematical model of shapes (`Shape`) and the canonical total order
  that normalized unions use, with its laws.
- `src/shape.rs` holds `ShapeRef`, `UnionShape` (whose invariant is that its alternatives are
  canonical: at least two, strictly increasing, none a union), union normalization, the numeric
  classification, and the laws of unions and of the classification.
- `src/definition.rs` holds the named definitions and their metadata.
- `src/graph.rs` holds the two contexts that accumulate definitions, the two graphs, and the
  `SerializeShape` and `DeserializeShape` traits. Each trait has a spec function (`emits`,
  `accepts`) in which an implementation states what it builds from a context and how it leaves
  the context; the graph builders state their graph in its terms.
- `src/impls/` holds the shapes of standard-library types and of Jiff 0.2's date and time types.
  Types with named definitions (`Result`, `Bound`, the ranges, `Duration`, `SystemTime`,
  `IpAddr`, `SocketAddr`) build their bodies through functions whose contracts state the body
  exactly.

- `src/plan.rs` holds what a derived implementation decides from its Serde attributes, taken
  as plain values: where each field's and variant's shape comes from (omitted, a shape hook, an
  opaque custom (de)serializer, borrowed input, or the declared type), the tagging of an enum,
  and the body of a definition. A derive macro reads the attributes and emits tokens; the
  decisions themselves stand here with exact contracts.
- `src/bounds.rs` holds the bound inference of derived implementations over a tree of type
  expressions: which generic parameters and associated types need a shape bound (each once, in
  order of appearance, none under `PhantomData`, none for skipped or custom fields).

- `src/attrs.rs` holds the `serde_shape` attribute grammar (`serialize_with`, `deserialize_with`,
  `bound(serialize = ..., deserialize = ...)`, each at most once, unknown keys refused, bounds on
  containers only) and the rule that identifier enums have no serialization shape.
- `src/description.rs` turns the lines of a documentation comment into a description: one
  leading space and trailing whitespace dropped from each line, blank lines at either end
  dropped, the rest joined by newlines.
- `src/bounds.rs` also recognizes the borrowed `Cow<'a, str>` and `Cow<'a, [u8]>` field types.

There is no derive macro in this crate: a procedural macro that reads Rust syntax and emits
tokens cannot be verified. Such a macro would read the attributes and types, hand them to the
functions of `plan.rs`, `bounds.rs`, `attrs.rs` and `description.rs` as plain values, and emit
the implementation that the `tests/derive_plans.rs` and `tests/derived.rs` files write by hand.

The tests under `tests/` run the library on concrete types.

## Types without an implementation

Some standard types that Serde supports have no implementation here:

- `NonZero<T>`: its bound `ZeroablePrimitive` is an unstable, sealed trait, so the type cannot be
  declared to the verifier.
- `LinkedList`, `BinaryHeap`, and the `Weak` pointers of `Rc` and `Arc`: their allocator type
  parameter cannot be declared to the verifier.
- `CStr`, `CString`, `OsStr`, `OsString`: `std::ffi` is outside the supported part of std, so
  the OS-string shapes are offered as `serialize_os_string` and `deserialize_os_string`, which
  take the platform (`OsPlatform`) as an argument.
- `f32` and `f64`: floating-point types are outside what the verified code handles; their
  shapes `ShapeRef::F32` and `ShapeRef::F64` exist for implementations written elsewhere.

`TypeName::of` records the Serde name of a type as its Rust name too, and the item of a
zero-length array is labelled `zero-length array item`: the standard function that names a type
cannot be called from the verified code.
