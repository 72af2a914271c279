# typesize

Estimates of the memory a value uses: its `size_of` plus what it holds behind allocations,
through the `TypeSize` trait, with contracts checked by Verus.

Layout of `src/`:

- `lib.rs`: the `TypeSize` trait and `Field`.
- `sizes.rs`: the vocabulary the contracts are written in (reported sizes, sums, buffers).
- `primitives.rs`, `vec.rs`, `boxed.rs`, `enums.rs`, `cell.rs`, `hash.rs`, `time.rs`,
  `map.rs`, `set.rs`: implementations for the standard library's types.
- `ptr/`, `with.rs`: wrappers and helpers for references and reference-counted pointers.
- `libs/`: implementations for types of other crates: `arrayvec::ArrayVec`, `dashmap`'s
  `SharedValue` and `RwLock`, `halfbrown::SizedHashMap`, `extract_map::ExtractMap`, `mini_moka`'s
  caches, `nonmax`'s integers, `parking_lot`'s locks, `serde_json`'s `Number`, `Value` and `Map`,
  `simd_json`'s `StaticNode` and `OwnedValue`, and `url::Url`. A JSON value is specified through
  a model of what it holds (`JsonModel`, `SimdModel`), so that the estimate of a nested value is
  stated by recursion over the model.
- `derive/`: the `TypeSize` derive, from a description of a struct or enum to the source
  text of its implementation.
- `laws.rs`: properties relating the sizes that different implementations report.

`app/` reads an item with `syn`, describes it for `derive/`, and turns the generated text back
into tokens.
