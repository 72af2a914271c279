//! Hasher state: sized by `size_of` alone.
use core::hash::BuildHasherDefault;
use std::collections::hash_map::{DefaultHasher, RandomState};
use vstd::prelude::*;

use crate::{Field, TypeSize};

verus! {

/// `core::hash::BuildHasherDefault`, carried as an opaque value.
#[verifier::external_type_specification]
#[verifier::external_body]
#[verifier::reject_recursive_types(H)]
pub struct ExBuildHasherDefault<H>(BuildHasherDefault<H>);

impl TypeSize for RandomState {
    fn extra_size(&self) -> (r: usize) {
        0
    }

    fn get_collection_item_count(&self) -> (r: Option<usize>) {
        None
    }

    fn get_size_details(&self) -> (r: Vec<Field>) {
        Vec::new()
    }
}

impl TypeSize for DefaultHasher {
    fn extra_size(&self) -> (r: usize) {
        0
    }

    fn get_collection_item_count(&self) -> (r: Option<usize>) {
        None
    }

    fn get_size_details(&self) -> (r: Vec<Field>) {
        Vec::new()
    }
}

impl<H> TypeSize for BuildHasherDefault<H> {
    fn extra_size(&self) -> (r: usize) {
        0
    }

    fn get_collection_item_count(&self) -> (r: Option<usize>) {
        None
    }

    fn get_size_details(&self) -> (r: Vec<Field>) {
        Vec::new()
    }
}

} // verus!
