//! The response-header relay: the ordered list of headers a flow step asks
//! the request-handling boundary to attach to the outbound response
//! (`Set-Cookie` propagation, cache suppression). The boundary applies
//! them in order; this core only accumulates them.

use vstd::prelude::*;

verus! {

/// The cache suppression every submission response must carry, since flow
/// pages must never be cached.
pub open spec fn cache_control_spec() -> Seq<char> {
    "private, no-cache, no-store, must-revalidate"@
}

/// The `Cache-Control` value as a plain string.
pub fn cache_control_value() -> (r: &'static str)
    ensures
        r@ == cache_control_spec(),
{
    "private, no-cache, no-store, must-revalidate"
}

/// Headers to attach to the outbound response, in order of insertion.
#[derive(Clone, Debug)]
pub struct HeaderRelay {
    pub headers: Vec<(String, String)>,
}

impl HeaderRelay {
    /// An empty relay: nothing to attach yet.
    pub fn new() -> (r: HeaderRelay)
        ensures
            r.headers@ =~= Seq::<(String, String)>::empty(),
    {
        HeaderRelay { headers: Vec::new() }
    }

    /// Appends one header; earlier insertions keep their place.
    pub fn insert_header(&mut self, name: String, value: String)
        ensures
            final(self).headers@ == old(self).headers@.push((name, value)),
    {
        self.headers.push((name, value));
    }
}

} // verus!
