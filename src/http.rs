//! The HTTP client calls that request construction relies on. None of them
//! touches the network.
use vstd::prelude::*;

verus! {

#[verifier::external_type_specification]
#[verifier::external_body]
pub struct ExClient(reqwest::blocking::Client);

#[verifier::external_type_specification]
#[verifier::external_body]
pub struct ExRequestBuilder(reqwest::blocking::RequestBuilder);

#[verifier::external_type_specification]
#[verifier::external_body]
pub struct ExUrl(reqwest::Url);

/// Whether the `url` crate parses `s` as an absolute URL.
pub uninterp spec fn is_absolute_url(s: Seq<char>) -> bool;

/// Relies on `reqwest::Url::parse` (the `url` crate): it succeeds exactly on
/// absolute URLs; a failure carries the diagnostic.
#[verifier::external_body]
pub(crate) fn parse_url(s: &str) -> (r: Result<reqwest::Url, String>)
    ensures
        r is Ok <==> is_absolute_url(s@),
{
    reqwest::Url::parse(s).map_err(|e| e.to_string())
}

/// Relies on `reqwest::blocking::ClientBuilder`: a client that sends
/// `user_agent` and accepts invalid certificates when asked to. Building it
/// may fail when the TLS backend cannot be set up.
#[verifier::external_body]
pub(crate) fn new_client(user_agent: &str, accept_invalid_certs: bool) -> (r: Result<
    reqwest::blocking::Client,
    String,
>) {
    reqwest::blocking::Client::builder()
        .user_agent(user_agent)
        .danger_accept_invalid_certs(accept_invalid_certs)
        .build()
        .map_err(|e| e.to_string())
}

/// Relies on `reqwest::blocking::Client::post` and `RequestBuilder::body`: an
/// unsent POST request to `url` carrying `body`.
#[verifier::external_body]
pub(crate) fn post_with_body(
    client: &reqwest::blocking::Client,
    url: reqwest::Url,
    body: String,
) -> (r: reqwest::blocking::RequestBuilder) {
    client.post(url).body(body)
}

} // verus!
