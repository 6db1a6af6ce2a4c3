//! The encrypted-at-rest token cache; its cryptography lives in [`crypto`].

pub mod crypto;
