//! Machine-to-machine authentication: the configuration handed to the
//! identity provider, the handle a [`crate::builder::BridgeBuilder`] carries,
//! and the cryptography protecting cached tokens.

use vstd::prelude::*;

pub mod cache;
pub mod errors;

verus! {

/// Configuration for the identity provider: where to reach it, the client
/// credentials, and the audience the issued tokens are meant for.
pub struct Config {
    pub base_url: String,
    pub client_id: String,
    pub client_secret: String,
    pub audience: String,
}

/// The authentication handle a bridge carries once authentication is
/// attached. It is fixed for the bridge's lifetime; request-issuing code
/// consults it to inject bearer tokens.
pub struct Auth0 {
    pub config: Config,
}

impl Auth0 {
    /// Wraps an identity-provider configuration into an authentication
    /// handle. The initial token fetch against the provider is I/O and is
    /// performed by the embedding application before the handle is attached.
    pub fn new(config: Config) -> (auth0: Auth0)
        ensures
            auth0.config == config,
    {
        Auth0 { config }
    }
}

} // verus!
