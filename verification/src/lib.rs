//! A small client-side library that builds a configured HTTP "bridge" to a
//! single remote endpoint, optionally carrying a machine-to-machine
//! authentication handle, together with the symmetric cryptography used to
//! keep cached authentication tokens encrypted at rest.

use vstd::prelude::*;

pub mod auth0;
pub mod builder;
mod http;

pub use builder::BridgeBuilder;

verus! {

/// How the bridge's HTTP client follows redirects.
#[derive(Clone, Copy, Debug, PartialEq, Eq, Structural)]
pub enum RedirectPolicy {
    /// Follow at most this many redirects.
    Limited(usize),
    /// Never follow a redirect.
    NoFollow,
}

/// The HTTP client settings a builder accumulates and a bridge's client is
/// built from. A setting that is `None` was never configured and stays at
/// the underlying HTTP client library's default.
pub struct ClientSettings {
    /// The user-agent header sent with every request.
    pub user_agent: Option<String>,
    /// How redirects are followed.
    pub redirect_policy: Option<RedirectPolicy>,
    /// The ceiling on idle pooled connections kept per destination host.
    pub pool_max_idle_per_host: Option<usize>,
}

/// The immutable, ready-to-use handle produced by
/// [`builder::BridgeBuilder::build`]: an HTTP client owning its connection
/// pool, the base endpoint every request is resolved against, and the
/// optional authentication handle. Nothing is mutated after construction;
/// all configuration happens on the builder.
pub struct Bridge {
    /// The constructed HTTP client.
    pub client: reqwest::Client,
    /// The settings the client was built from.
    pub settings: ClientSettings,
    /// The base URL of all the requests made by this bridge.
    pub endpoint: reqwest::Url,
    /// The authentication handle, fixed for this bridge's lifetime.
    pub auth0_opt: Option<auth0::Auth0>,
}

} // verus!
