//! `nonmax`'s integers: sized by `size_of` alone.
use vstd::prelude::*;

use crate::{Field, TypeSize};

verus! {

/// `nonmax::NonMaxU8`, carried as an opaque value.
#[verifier::external_type_specification]
#[verifier::external_body]
pub struct ExNonMaxU8(::nonmax::NonMaxU8);

/// `nonmax::NonMaxU16`, carried as an opaque value.
#[verifier::external_type_specification]
#[verifier::external_body]
pub struct ExNonMaxU16(::nonmax::NonMaxU16);

/// `nonmax::NonMaxU32`, carried as an opaque value.
#[verifier::external_type_specification]
#[verifier::external_body]
pub struct ExNonMaxU32(::nonmax::NonMaxU32);

/// `nonmax::NonMaxU64`, carried as an opaque value.
#[verifier::external_type_specification]
#[verifier::external_body]
pub struct ExNonMaxU64(::nonmax::NonMaxU64);

/// `nonmax::NonMaxU128`, carried as an opaque value.
#[verifier::external_type_specification]
#[verifier::external_body]
pub struct ExNonMaxU128(::nonmax::NonMaxU128);

/// `nonmax::NonMaxUsize`, carried as an opaque value.
#[verifier::external_type_specification]
#[verifier::external_body]
pub struct ExNonMaxUsize(::nonmax::NonMaxUsize);

/// `nonmax::NonMaxI8`, carried as an opaque value.
#[verifier::external_type_specification]
#[verifier::external_body]
pub struct ExNonMaxI8(::nonmax::NonMaxI8);

/// `nonmax::NonMaxI16`, carried as an opaque value.
#[verifier::external_type_specification]
#[verifier::external_body]
pub struct ExNonMaxI16(::nonmax::NonMaxI16);

/// `nonmax::NonMaxI32`, carried as an opaque value.
#[verifier::external_type_specification]
#[verifier::external_body]
pub struct ExNonMaxI32(::nonmax::NonMaxI32);

/// `nonmax::NonMaxI64`, carried as an opaque value.
#[verifier::external_type_specification]
#[verifier::external_body]
pub struct ExNonMaxI64(::nonmax::NonMaxI64);

/// `nonmax::NonMaxI128`, carried as an opaque value.
#[verifier::external_type_specification]
#[verifier::external_body]
pub struct ExNonMaxI128(::nonmax::NonMaxI128);

/// `nonmax::NonMaxIsize`, carried as an opaque value.
#[verifier::external_type_specification]
#[verifier::external_body]
pub struct ExNonMaxIsize(::nonmax::NonMaxIsize);

impl TypeSize for ::nonmax::NonMaxU8 {
    fn extra_size(&self) -> (r: usize) {
        0
    }

    fn get_collection_item_count(&self) -> (r: Option<usize>) {
        None
    }

    fn get_size_details(&self) -> (r: Vec<Field>) {
        Vec::new()
    }
}

impl TypeSize for ::nonmax::NonMaxU16 {
    fn extra_size(&self) -> (r: usize) {
        0
    }

    fn get_collection_item_count(&self) -> (r: Option<usize>) {
        None
    }

    fn get_size_details(&self) -> (r: Vec<Field>) {
        Vec::new()
    }
}

impl TypeSize for ::nonmax::NonMaxU32 {
    fn extra_size(&self) -> (r: usize) {
        0
    }

    fn get_collection_item_count(&self) -> (r: Option<usize>) {
        None
    }

    fn get_size_details(&self) -> (r: Vec<Field>) {
        Vec::new()
    }
}

impl TypeSize for ::nonmax::NonMaxU64 {
    fn extra_size(&self) -> (r: usize) {
        0
    }

    fn get_collection_item_count(&self) -> (r: Option<usize>) {
        None
    }

    fn get_size_details(&self) -> (r: Vec<Field>) {
        Vec::new()
    }
}

impl TypeSize for ::nonmax::NonMaxU128 {
    fn extra_size(&self) -> (r: usize) {
        0
    }

    fn get_collection_item_count(&self) -> (r: Option<usize>) {
        None
    }

    fn get_size_details(&self) -> (r: Vec<Field>) {
        Vec::new()
    }
}

impl TypeSize for ::nonmax::NonMaxUsize {
    fn extra_size(&self) -> (r: usize) {
        0
    }

    fn get_collection_item_count(&self) -> (r: Option<usize>) {
        None
    }

    fn get_size_details(&self) -> (r: Vec<Field>) {
        Vec::new()
    }
}

impl TypeSize for ::nonmax::NonMaxI8 {
    fn extra_size(&self) -> (r: usize) {
        0
    }

    fn get_collection_item_count(&self) -> (r: Option<usize>) {
        None
    }

    fn get_size_details(&self) -> (r: Vec<Field>) {
        Vec::new()
    }
}

impl TypeSize for ::nonmax::NonMaxI16 {
    fn extra_size(&self) -> (r: usize) {
        0
    }

    fn get_collection_item_count(&self) -> (r: Option<usize>) {
        None
    }

    fn get_size_details(&self) -> (r: Vec<Field>) {
        Vec::new()
    }
}

impl TypeSize for ::nonmax::NonMaxI32 {
    fn extra_size(&self) -> (r: usize) {
        0
    }

    fn get_collection_item_count(&self) -> (r: Option<usize>) {
        None
    }

    fn get_size_details(&self) -> (r: Vec<Field>) {
        Vec::new()
    }
}

impl TypeSize for ::nonmax::NonMaxI64 {
    fn extra_size(&self) -> (r: usize) {
        0
    }

    fn get_collection_item_count(&self) -> (r: Option<usize>) {
        None
    }

    fn get_size_details(&self) -> (r: Vec<Field>) {
        Vec::new()
    }
}

impl TypeSize for ::nonmax::NonMaxI128 {
    fn extra_size(&self) -> (r: usize) {
        0
    }

    fn get_collection_item_count(&self) -> (r: Option<usize>) {
        None
    }

    fn get_size_details(&self) -> (r: Vec<Field>) {
        Vec::new()
    }
}

impl TypeSize for ::nonmax::NonMaxIsize {
    fn extra_size(&self) -> (r: usize) {
        0
    }

    fn get_collection_item_count(&self) -> (r: Option<usize>) {
        None
    }

    fn get_size_details(&self) -> (r: Vec<Field>) {
        Vec::new()
    }
}

} // verus!
