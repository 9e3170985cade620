//! Content sniffing: the MIME type that the `infer` crate reads from the
//! leading bytes of a buffer.
use vstd::prelude::*;

verus! {

/// The MIME type `infer::get` names for `bytes`, or `None` when none of its
/// matchers accepts them. Its matchers are a fixed table of byte
/// signatures, so the answer depends on the bytes alone.
pub uninterp spec fn infer_mime(bytes: Seq<u8>) -> Option<Seq<char>>;

/// Calls `infer::get` and hands out the MIME type of the match.
#[verifier::external_body]
pub(crate) fn sniff_mime(bytes: &[u8]) -> (res: Option<String>)
    ensures
        match res {
            Some(m) => infer_mime(bytes@) == Some(m@),
            None => infer_mime(bytes@) is None,
        },
{
    match infer::get(bytes) {
        Some(kind) => Some(kind.mime_type().to_owned()),
        None => None,
    }
}

} // verus!
