//! Errors of the authentication subsystem.

use vstd::prelude::*;

verus! {

/// The unified error kind of the authentication subsystem, covering the
/// failures the token-cache cryptography can surface.
#[derive(Clone, Copy, Debug, PartialEq, Eq, Structural)]
pub enum Auth0Error {
    /// A value could not be turned into its storable textual form.
    SerializationFailure,
    /// Stored text could not be turned back into the expected value; for the
    /// cryptography component, the decrypted bytes are not valid text.
    DeserializationFailure,
    /// Key setup failed: the key material does not supply exactly the 32
    /// bytes a 256-bit key requires.
    CryptoFailure,
    /// The ciphertext or its padding is invalid: wrong key, corrupted or
    /// truncated input.
    DecryptionFailure,
}

} // verus!
