use vstd::prelude::*;
use vstd::string::*;
use crate::text::{has_prefix, is_prefix};

verus! {

/// The scheme prefix of a plain-text endpoint.
pub open spec fn insecure_scheme() -> Seq<char> {
    "http://"@
}

/// The scheme prefix of a TLS endpoint, also the default one.
pub open spec fn secure_scheme() -> Seq<char> {
    "https://"@
}

/// The endpoint already names one of the two recognised schemes.
pub open spec fn has_scheme(ep: Seq<char>) -> bool {
    is_prefix(insecure_scheme(), ep) || is_prefix(secure_scheme(), ep)
}

/// The canonical absolute form of an endpoint: unchanged when it has a
/// scheme, else with the secure scheme in front.
pub open spec fn normalized(ep: Seq<char>) -> Seq<char> {
    if has_scheme(ep) {
        ep
    } else {
        secure_scheme() + ep
    }
}

/// Turns a user-supplied endpoint into an absolute URL, defaulting to
/// `https://` when no scheme is given.
pub fn normalize_endpoint(ep: &str) -> (r: String)
    ensures
        r@ == normalized(ep@),
{
    if has_prefix(ep, "http://") || has_prefix(ep, "https://") {
        ep.to_owned()
    } else {
        let mut r = String::from_str("https://");
        r.append(ep);
        r
    }
}

} // verus!
