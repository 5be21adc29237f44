//! The outbound cookie description: a plain record of the attributes a
//! transport layer needs to serialize a `Set-Cookie` header.
use vstd::prelude::*;

verus! {

/// Same-site policy of the session cookie.
#[derive(Clone, Copy, Debug, PartialEq, Eq, Structural)]
pub enum SameSitePolicy {
    Strict,
    Lax,
    /// Sent with every cross-site request: no same-site restriction.
    NoRestriction,
}

/// A cookie ready for transport serialization. The value carries the
/// signed identifier; `expires` is an absolute unix timestamp in
/// seconds, recomputed fresh for every response.
pub struct SessionCookie {
    pub name: String,
    pub value: Vec<u8>,
    pub path: String,
    pub domain: Option<String>,
    pub secure: bool,
    pub http_only: bool,
    pub same_site: SameSitePolicy,
    pub expires: Option<u64>,
}

} // verus!
