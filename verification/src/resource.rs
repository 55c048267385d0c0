//! The host-bound resource: it exists only for requests addressed to one
//! host, answers `GET`, and refuses every other method. A request for
//! another host does not reach it, and the HTTP layer goes on to its answer
//! for an unknown path.

use vstd::prelude::*;
use vstd::string::StringSliceAdditionalSpecFns;
use crate::reply::{Reply, STATUS_METHOD_NOT_ALLOWED, STATUS_OK};

verus! {

/// The request methods that the resource tells apart.
#[derive(Clone, Copy, Debug, PartialEq, Eq, Structural)]
pub enum Method {
    Get,
    Head,
    /// Any other method.
    Other,
}

/// The value of the `Host` header that opens the resource.
pub open spec fn spec_served_host() -> Seq<u8> {
    "localhost".spec_bytes()
}

/// Whether a request with this `Host` header reaches the resource, where
/// `None` stands for a request without one. It does if the header is present
/// and its value is exactly the served host.
pub open spec fn spec_host_matches(host: Option<Seq<u8>>) -> bool {
    host == Some(spec_served_host())
}

/// The body of the answer to `GET`.
pub open spec fn spec_app_body() -> Seq<char> {
    "app"@
}

/// The value of the `Host` header that opens the resource.
pub fn served_host() -> (host: &'static [u8])
    ensures
        host@ == spec_served_host(),
{
    "localhost".as_bytes()
}

fn same_bytes(a: &[u8], b: &[u8]) -> (same: bool)
    ensures
        same == (a@ == b@),
{
    if a.len() != b.len() {
        return false;
    }
    let mut i: usize = 0;
    while i < a.len()
        invariant
            a.len() == b.len(),
            i <= a.len(),
            forall|k: int| 0 <= k < i ==> a@[k] == b@[k],
        decreases a.len() - i,
    {
        if a[i] != b[i] {
            return false;
        }
        i += 1;
    }
    assert(a@ =~= b@);
    true
}

/// Whether a request with this `Host` header reaches the resource.
pub fn host_matches(host: Option<&[u8]>) -> (open: bool)
    ensures
        open == spec_host_matches(
            match host {
                None => None,
                Some(value) => Some(value@),
            },
        ),
{
    match host {
        None => false,
        Some(value) => same_bytes(value, served_host()),
    }
}

/// The answer of the resource to a request that reached it: `GET` is
/// answered with the fixed body, every other method is not allowed.
pub fn app_reply(method: Method) -> (reply: Reply)
    ensures
        reply.content_type is None,
        method == Method::Get ==> reply.status == STATUS_OK && reply.body@ == spec_app_body(),
        method != Method::Get ==> reply.status == STATUS_METHOD_NOT_ALLOWED && reply.body@
            == Seq::<char>::empty(),
{
    match method {
        Method::Get => Reply { status: STATUS_OK, content_type: None, body: String::from_str("app") },
        _ => Reply { status: STATUS_METHOD_NOT_ALLOWED, content_type: None, body: String::new() },
    }
}

} // verus!
