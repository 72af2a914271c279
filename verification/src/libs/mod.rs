//! Implementations of [`crate::TypeSize`] for types of other crates.
pub mod bitvec;
pub mod arrayvec;
pub mod nonmax;
pub mod halfbrown;
pub mod keyed;
pub mod mini_moka;
pub mod serde_json;
pub mod simd_json;
pub mod url;
pub mod shared_value;
pub mod locks;
