//! A builder for creating [`Bridge`] instances: a persistent configuration
//! record. Each configuration method consumes the builder and returns a new
//! one with a single setting changed; later calls override earlier ones for
//! the same setting. `build` is the terminal transition to an immutable
//! [`Bridge`].

use vstd::prelude::*;

use crate::auth0::Auth0;
use crate::http;
use crate::{Bridge, ClientSettings, RedirectPolicy};

verus! {

/// Error of finalizing a builder: the accumulated configuration could not
/// be turned into an HTTP client.
#[derive(Clone, Copy, Debug, PartialEq, Eq, Structural)]
pub enum BuildError {
    ConfigurationFailure,
}

/// A builder for creating [`Bridge`] instances.
pub struct BridgeBuilder {
    /// The HTTP client settings accumulated so far.
    pub settings: ClientSettings,
    /// The authentication handle, once attached.
    pub auth0: Option<Auth0>,
}

/// A fresh builder: every setting at the HTTP client's default, no
/// authentication handle.
pub open spec fn spec_create() -> BridgeBuilder {
    BridgeBuilder {
        settings: ClientSettings {
            user_agent: None,
            redirect_policy: None,
            pool_max_idle_per_host: None,
        },
        auth0: None,
    }
}

/// The builder after configuring the user agent: only that setting changes.
pub open spec fn spec_with_user_agent(builder: BridgeBuilder, user_agent: String) -> BridgeBuilder {
    BridgeBuilder {
        settings: ClientSettings { user_agent: Some(user_agent), ..builder.settings },
        ..builder
    }
}

/// The builder after configuring the redirect policy: only that setting
/// changes.
pub open spec fn spec_with_redirect_policy(
    builder: BridgeBuilder,
    policy: RedirectPolicy,
) -> BridgeBuilder {
    BridgeBuilder {
        settings: ClientSettings { redirect_policy: Some(policy), ..builder.settings },
        ..builder
    }
}

/// The builder after configuring the idle-connection ceiling: only that
/// setting changes.
pub open spec fn spec_with_pool_max_idle_per_host(
    builder: BridgeBuilder,
    max: usize,
) -> BridgeBuilder {
    BridgeBuilder {
        settings: ClientSettings { pool_max_idle_per_host: Some(max), ..builder.settings },
        ..builder
    }
}

/// The builder after attaching an authentication handle: the HTTP client
/// settings are untouched.
pub open spec fn spec_with_auth0(builder: BridgeBuilder, auth0: Auth0) -> BridgeBuilder {
    BridgeBuilder { auth0: Some(auth0), ..builder }
}

/// Law: configuring the user agent twice keeps only the later value — the
/// resulting builder is the same as if only the later call had been made.
pub proof fn lemma_user_agent_last_write_wins(
    builder: BridgeBuilder,
    earlier: String,
    later: String,
)
    ensures
        spec_with_user_agent(spec_with_user_agent(builder, earlier), later)
            == spec_with_user_agent(builder, later),
{
}

/// Law: configuring the idle-connection ceiling twice keeps only the later
/// value.
pub proof fn lemma_pool_max_idle_last_write_wins(builder: BridgeBuilder, earlier: usize, later: usize)
    ensures
        spec_with_pool_max_idle_per_host(spec_with_pool_max_idle_per_host(builder, earlier), later)
            == spec_with_pool_max_idle_per_host(builder, later),
{
}

/// Law: configuring the redirect policy twice keeps only the later value.
pub proof fn lemma_redirect_policy_last_write_wins(
    builder: BridgeBuilder,
    earlier: RedirectPolicy,
    later: RedirectPolicy,
)
    ensures
        spec_with_redirect_policy(spec_with_redirect_policy(builder, earlier), later)
            == spec_with_redirect_policy(builder, later),
{
}

impl BridgeBuilder {
    /// A new builder with default HTTP client configuration and no
    /// authentication handle.
    pub(crate) fn create() -> (builder: BridgeBuilder)
        ensures
            builder == spec_create(),
    {
        BridgeBuilder {
            settings: ClientSettings {
                user_agent: None,
                redirect_policy: None,
                pool_max_idle_per_host: None,
            },
            auth0: None,
        }
    }

    /// A new builder whose client will send the given user-agent header;
    /// every other setting is carried over unchanged.
    pub fn with_user_agent(self, user_agent: String) -> (builder: BridgeBuilder)
        ensures
            builder == spec_with_user_agent(self, user_agent),
    {
        BridgeBuilder {
            settings: ClientSettings { user_agent: Some(user_agent), ..self.settings },
            ..self
        }
    }

    /// A new builder whose client will follow redirects per `policy`; every
    /// other setting is carried over unchanged.
    pub fn with_redirect_policy(self, policy: RedirectPolicy) -> (builder: BridgeBuilder)
        ensures
            builder == spec_with_redirect_policy(self, policy),
    {
        BridgeBuilder {
            settings: ClientSettings { redirect_policy: Some(policy), ..self.settings },
            ..self
        }
    }

    /// A new builder whose client will keep at most `max` idle pooled
    /// connections per destination host; every other setting is carried
    /// over unchanged.
    pub fn with_pool_max_idle_per_host(self, max: usize) -> (builder: BridgeBuilder)
        ensures
            builder == spec_with_pool_max_idle_per_host(self, max),
    {
        BridgeBuilder {
            settings: ClientSettings { pool_max_idle_per_host: Some(max), ..self.settings },
            ..self
        }
    }

    /// A new builder carrying the given authentication handle, so that the
    /// requests made by the [`Bridge`] authenticate with it. The handle's
    /// one-time asynchronous setup against the identity provider is I/O and
    /// is performed by the embedding application beforehand.
    pub fn with_auth0(self, auth0: Auth0) -> (builder: BridgeBuilder)
        ensures
            builder == spec_with_auth0(self, auth0),
    {
        BridgeBuilder { auth0: Some(auth0), ..self }
    }

    /// Creates a [`Bridge`] from this builder.
    ///
    /// The given endpoint will be the base URL of all the requests made by
    /// the bridge. The bridge records exactly the accumulated settings its
    /// client was built from and carries the authentication handle over; a
    /// configuration the HTTP client library rejects is surfaced as a
    /// [`BuildError::ConfigurationFailure`].
    pub fn build(self, endpoint: reqwest::Url) -> (result: Result<Bridge, BuildError>)
        ensures
            result matches Ok(bridge) ==> bridge.settings == self.settings && bridge.endpoint
                == endpoint && bridge.auth0_opt == self.auth0,
            result matches Err(e) ==> e == BuildError::ConfigurationFailure,
    {
        let BridgeBuilder { settings, auth0 } = self;
        let client = match build_http_client(&settings) {
            Ok(client) => client,
            Err(_) => {
                return Err(BuildError::ConfigurationFailure);
            },
        };
        Ok(Bridge { client, settings, endpoint, auth0_opt: auth0 })
    }
}

impl Bridge {
    /// The construction entry point: a fresh builder.
    pub fn builder() -> (builder: BridgeBuilder)
        ensures
            builder == spec_create(),
    {
        BridgeBuilder::create()
    }
}

/// Applies each setting that was configured to a fresh client
/// configuration, leaving the rest at the HTTP client library's defaults,
/// and constructs the client.
fn build_http_client(settings: &ClientSettings) -> Result<reqwest::Client, reqwest::Error> {
    let mut builder = http::client_builder_new();
    builder = match &settings.user_agent {
        Some(user_agent) => http::client_builder_user_agent(builder, user_agent.as_str()),
        None => builder,
    };
    builder = match &settings.redirect_policy {
        Some(RedirectPolicy::Limited(max)) => http::client_builder_redirect_limited(builder, *max),
        Some(RedirectPolicy::NoFollow) => http::client_builder_redirect_none(builder),
        None => builder,
    };
    builder = match &settings.pool_max_idle_per_host {
        Some(max) => http::client_builder_pool_max_idle_per_host(builder, *max),
        None => builder,
    };
    http::client_builder_build(builder)
}

} // verus!
