//! The example counter app's byte helper.

use vstd::prelude::*;

use vstd::utf8::encode_utf8;

verus! {

/// The UTF-8 bytes of a label.
pub fn label_bytes(label: String) -> (r: Vec<u8>)
    ensures
        r@ == encode_utf8(label@),
{
    vstd::slice::slice_to_vec(label.as_str().as_bytes())
}

} // verus!
