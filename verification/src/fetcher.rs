//! Origin fetch validation: a response from the origin counts as an image
//! only if the request succeeded and the response carries a content-type
//! header that begins with `image/`.
//!
//! The caller issues the upstream request and reports the outcome as a plain
//! [`OriginProbe`]; whether the response is accepted is decided here.
//! Network failures and content-type mismatches are deliberately not
//! distinguished: both are rejections, and both yield the same bad-request
//! response downstream.

use vstd::prelude::*;
use vstd::string::StrSliceExecFns;

verus! {

/// A content type is an image type when it begins with `image/`.
pub open spec fn spec_is_image_content_type(ct: Seq<char>) -> bool {
    ct.len() >= 6 && ct.subrange(0, 6) == "image/"@
}

/// Whether `ct` begins with `image/`.
pub fn is_image_content_type(ct: &str) -> (r: bool)
    ensures
        r == spec_is_image_content_type(ct@),
{
    let pat = "image/";
    proof {
        reveal_strlit("image/");
    }
    let n = ct.unicode_len();
    if n < 6 {
        return false;
    }
    let mut i: usize = 0;
    while i < 6
        invariant
            0 <= i <= 6,
            n == ct@.len(),
            n >= 6,
            pat@ == "image/"@,
            pat@.len() == 6,
            forall|j: int| 0 <= j < i ==> ct@[j] == pat@[j],
        decreases 6 - i,
    {
        let c = ct.get_char(i);
        let p = pat.get_char(i);
        if c != p {
            proof {
                if spec_is_image_content_type(ct@) {
                    assert(ct@.subrange(0, 6)[i as int] == ct@[i as int]);
                    assert("image/"@[i as int] == pat@[i as int]);
                }
            }
            return false;
        }
        i = i + 1;
    }
    proof {
        assert(ct@.subrange(0, 6) =~= "image/"@);
    }
    true
}

/// The outcome of the upstream request, as the caller observed it.
#[derive(Clone, Debug)]
pub enum OriginProbe {
    /// The request itself failed: the origin was unreachable or returned
    /// a transport-level error.
    Unreachable,
    /// A response arrived but carried no readable content-type header.
    NoContentType,
    /// A response arrived whose content-type header reads `ct`.
    ContentType { ct: String },
}

/// The acceptance rule: only a response whose content-type begins with
/// `image/` is accepted. Everything else — network failure, a missing
/// header, any other content type — is rejected alike.
pub open spec fn spec_origin_accepts(p: OriginProbe) -> bool {
    p matches OriginProbe::ContentType { ct } && spec_is_image_content_type(ct@)
}

/// Whether the origin's response is accepted as image content.
pub fn origin_accepts(p: &OriginProbe) -> (r: bool)
    ensures
        r == spec_origin_accepts(*p),
{
    match p {
        OriginProbe::Unreachable => false,
        OriginProbe::NoContentType => false,
        OriginProbe::ContentType { ct } => is_image_content_type(ct.as_str()),
    }
}

} // verus!
