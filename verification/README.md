# dlpack_rs

Portable DLPack bindings with a verified core.

- `src/` (verified with Verus): the DLPack ABI as plain values, and the C layout
  computed from each ABI struct's field list (`ffi`, `layout`); tensor
  descriptions and packing (`safe`); and the decisions of the `__dlpack__`
  capsule exchange with the imported tensor's metadata (`pyo3_glue`). A proof
  over a model of the capsule lifecycle, built from those decisions, shows that
  the producer's deleter runs exactly once; the Python-side code in `app/` is not
  itself verified.
- `app/`: the `repr(C)` structs with raw pointers (whose sizes and key offsets
  are asserted at compile time against the values the layout model gives),
  heap packing with C deleters, and the pyo3 capsule calls, built on the
  library's decisions.
- `tests/`: tests of the library.
