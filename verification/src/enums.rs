//! `Option<T>`: the extra size of the value it holds, if any.
use vstd::prelude::*;

use crate::{Field, TypeSize};

verus! {

impl<T: TypeSize> TypeSize for Option<T> {
    /// `None` holds nothing; `Some(v)` holds what `v` holds.
    open spec fn is_extra_size(&self, n: nat) -> bool {
        match self {
            Some(v) => v.is_extra_size(n),
            None => n == 0,
        }
    }

    open spec fn is_item_count(&self, c: Option<usize>) -> bool {
        match self {
            Some(v) => v.is_item_count(c),
            None => c is None,
        }
    }

    fn extra_size(&self) -> (r: usize) {
        match self {
            Some(v) => {
                assert forall|n: nat| #[trigger] v.is_extra_size(n) implies n <= usize::MAX by {
                    assert(self.is_extra_size(n));
                }
                v.extra_size()
            },
            None => 0,
        }
    }

    fn get_collection_item_count(&self) -> (r: Option<usize>) {
        match self {
            Some(v) => v.get_collection_item_count(),
            None => None,
        }
    }

    fn get_size_details(&self) -> (r: Vec<Field>) {
        Vec::new()
    }
}

} // verus!
