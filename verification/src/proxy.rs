//! The proxy descriptor of a request, as `reqwest` builds it.

use vstd::prelude::*;

verus! {

/// `reqwest::Proxy`, carried through as it is.
#[verifier::external_type_specification]
#[verifier::external_body]
pub struct ExProxy(reqwest::Proxy);

/// `reqwest::Error`, carried through as it is.
#[verifier::external_type_specification]
#[verifier::external_body]
pub struct ExReqwestError(reqwest::Error);

/// Whether `reqwest::Proxy::all` takes `uri` as the address of a proxy.
pub uninterp spec fn proxy_uri_accepted(uri: Seq<char>) -> bool;

/// Calls `reqwest::Proxy::all`, which parses `uri` as a URL (with `http://`
/// put in front where it has no scheme) and builds a proxy for all traffic
/// from it. Whether it succeeds is claimed to depend on the text of `uri`
/// alone: that holds as long as `reqwest` is built without its `socks`
/// feature, which would look the host up.
#[verifier::external_body]
pub(crate) fn proxy_for_all_traffic(uri: String) -> (proxy: Result<reqwest::Proxy, reqwest::Error>)
    ensures
        proxy is Ok <==> proxy_uri_accepted(uri@),
{
    reqwest::Proxy::all(uri)
}

/// A proxy URI that `reqwest` does not take.
#[derive(Debug)]
pub struct ProxyError {
    /// The URI as the context held it.
    pub uri: String,
    /// What `reqwest` said of it.
    pub source: reqwest::Error,
}

} // verus!
