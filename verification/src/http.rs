//! Declarations of the HTTP client library's types and thin wrappers around
//! the configuration calls the builder makes. The client itself is opaque:
//! the library records the settings it hands over in [`crate::ClientSettings`]
//! and delegates their enforcement to the client.

use vstd::prelude::*;

verus! {

#[verifier::external_type_specification]
#[verifier::external_body]
pub struct ExUrl(reqwest::Url);

#[verifier::external_type_specification]
#[verifier::external_body]
pub struct ExClient(reqwest::Client);

#[verifier::external_type_specification]
#[verifier::external_body]
pub struct ExClientBuilder(reqwest::ClientBuilder);

#[verifier::external_type_specification]
#[verifier::external_body]
pub struct ExReqwestError(reqwest::Error);

/// Relies on `reqwest::ClientBuilder::new`: a fresh client configuration
/// with the client library's defaults.
#[verifier::external_body]
pub(crate) fn client_builder_new() -> reqwest::ClientBuilder {
    reqwest::ClientBuilder::new()
}

/// Relies on `reqwest::ClientBuilder::user_agent`: every request of the
/// built client will carry this user-agent header value.
#[verifier::external_body]
pub(crate) fn client_builder_user_agent(
    builder: reqwest::ClientBuilder,
    user_agent: &str,
) -> reqwest::ClientBuilder {
    builder.user_agent(user_agent)
}

/// Relies on `reqwest::redirect::Policy::limited` and
/// `reqwest::ClientBuilder::redirect`: the built client follows at most the
/// given number of redirects.
#[verifier::external_body]
pub(crate) fn client_builder_redirect_limited(
    builder: reqwest::ClientBuilder,
    max: usize,
) -> reqwest::ClientBuilder {
    builder.redirect(reqwest::redirect::Policy::limited(max))
}

/// Relies on `reqwest::redirect::Policy::none` and
/// `reqwest::ClientBuilder::redirect`: the built client never follows a
/// redirect.
#[verifier::external_body]
pub(crate) fn client_builder_redirect_none(
    builder: reqwest::ClientBuilder,
) -> reqwest::ClientBuilder {
    builder.redirect(reqwest::redirect::Policy::none())
}

/// Relies on `reqwest::ClientBuilder::pool_max_idle_per_host`: the built
/// client keeps at most this many idle pooled connections per host.
#[verifier::external_body]
pub(crate) fn client_builder_pool_max_idle_per_host(
    builder: reqwest::ClientBuilder,
    max: usize,
) -> reqwest::ClientBuilder {
    builder.pool_max_idle_per_host(max)
}

/// Relies on `reqwest::ClientBuilder::build`: constructs the client owning
/// the connection pool, or fails when the accumulated configuration cannot
/// be applied.
#[verifier::external_body]
pub(crate) fn client_builder_build(builder: reqwest::ClientBuilder) -> Result<reqwest::Client, reqwest::Error> {
    builder.build()
}

} // verus!
