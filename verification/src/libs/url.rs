//! `url::Url`: a URL holds its serialization in a `String`.
use vstd::prelude::*;
use vstd::layout::size_of;
use vstd::utf8::encode_utf8;

use crate::sizes::unused_fits;
use crate::{Field, TypeSize};

verus! {

/// `url::Url`, carried as an opaque value.
#[verifier::external_type_specification]
#[verifier::external_body]
pub struct ExUrl(::url::Url);

/// The serialization of a URL: the text that `Url::as_str` shows and that `From<Url> for String`
/// hands out.
pub uninterp spec fn url_text(u: ::url::Url) -> Seq<char>;

/// A copy of the URL's serialization, through `Clone` and `From<Url> for String`: its text is
/// `url_text` of the URL, and a `String` never holds more than `isize::MAX` bytes. Its capacity
/// is whatever the allocator gave, so it is not named.
#[verifier::external_body]
fn url_serialization(u: &::url::Url) -> (r: String)
    ensures
        r@ == url_text(*u),
        encode_utf8(r@).len() <= isize::MAX,
{
    u.clone().into()
}

impl TypeSize for ::url::Url {
    /// What a copy of the serialization reports: its capacity in bytes, at least the length in
    /// bytes of the URL's text, which is at most `isize::MAX`.
    open spec fn is_extra_size(&self, n: nat) -> bool {
        let len = encode_utf8(url_text(*self)).len();
        &&& len <= isize::MAX
        &&& exists|capacity: nat|
            #![trigger size_of::<u8>() * capacity]
            unused_fits(capacity as int, len as int, 1) && n == size_of::<u8>() * capacity
    }

    fn extra_size(&self) -> (r: usize) {
        let serialization = url_serialization(self);
        let ghost len = encode_utf8(serialization@).len();
        proof {
            assert forall|n: nat| #[trigger] serialization.is_extra_size(n) implies n
                <= usize::MAX by {
                let capacity = choose|capacity: nat|
                    unused_fits(capacity as int, len as int, 1) && n == #[trigger] (size_of::<u8>()
                        * capacity);
                assert(self.is_extra_size(n));
            }
        }
        let r = serialization.extra_size();
        proof {
            let capacity = choose|capacity: nat|
                unused_fits(capacity as int, len as int, 1) && r == #[trigger] (size_of::<u8>()
                    * capacity);
            assert(unused_fits(capacity as int, len as int, 1));
        }
        r
    }

    fn get_collection_item_count(&self) -> (r: Option<usize>) {
        None
    }

    fn get_size_details(&self) -> (r: Vec<Field>) {
        Vec::new()
    }
}

} // verus!
