//! Portable DLPack: the plain-value view of the ABI ([`ffi`]), its `repr(C)` layout
//! ([`layout`]), the tensor builders ([`safe`]) and the logic of the `__dlpack__`
//! capsule exchange ([`pyo3_glue`]).
pub mod ffi;
pub mod layout;
pub mod safe;
pub mod pyo3_glue;
