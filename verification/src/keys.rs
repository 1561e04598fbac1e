//! Cache keys: a `(type, file)` request pair maps to a relative path under
//! the cache root and to a URL suffix under the origin base URL.

use vstd::prelude::*;
use vstd::string::StringExecFns;

verus! {

/// Relative cache path for a `(type, file)` request: `type/file`.
/// The same string is both the path under the cache root and the
/// suffix appended to the origin base URL.
pub fn cache_relative_path(typ: &str, file: &str) -> (r: String)
    ensures
        r@ == typ@ + "/"@ + file@,
{
    let mut r = typ.to_owned();
    r.append("/");
    r.append(file);
    r
}

/// Origin URL for a relative cache path: `base/rel`.
pub fn origin_url(base: &str, rel: &str) -> (r: String)
    ensures
        r@ == base@ + "/"@ + rel@,
{
    let mut r = base.to_owned();
    r.append("/");
    r.append(rel);
    r
}

} // verus!
