//! Symmetric cryptography for the token cache: AES-256 in cipher-block-
//! chaining mode with PKCS#7 padding, over the UTF-8 JSON text of the cached
//! value. The key is the raw byte representation of a caller-supplied string
//! and must supply exactly 32 bytes; the initialization vector is one fixed,
//! hard-coded 16-byte ASCII value, identical for every call.

use vstd::prelude::*;
use vstd::utf8::{decode_utf8, encode_utf8, valid_utf8};

use block_modes::BlockMode;
use block_modes::BlockModeError;

use crate::auth0::errors::Auth0Error;

verus! {

/// The ciphertext that AES-256-CBC with PKCS#7 padding produces for the
/// given key, initialization vector and plaintext. CBC encryption is a pure
/// function of exactly these three inputs, so the result carries a name
/// rather than a page-long definition; [`cbc_encrypt`] is what computes it.
pub uninterp spec fn aes256_cbc_enc(key: Seq<u8>, iv: Seq<u8>, plain: Seq<u8>) -> Seq<u8>;

/// The fixed initialization vector, the ASCII bytes of `"301a9e39735f4646"`.
/// Reusing one IV across all encryptions under a key is a known weakness of
/// cipher-block-chaining mode, kept here because the cache format depends on
/// it; it is also what makes encryption deterministic.
pub open spec fn iv_bytes() -> Seq<u8> {
    seq![
        0x33u8, 0x30u8, 0x31u8, 0x61u8, 0x39u8, 0x65u8, 0x33u8, 0x39u8,
        0x37u8, 0x33u8, 0x35u8, 0x66u8, 0x34u8, 0x36u8, 0x34u8, 0x36u8,
    ]
}

/// The ciphertext this module stores for a given key and plaintext: CBC
/// encryption under the fixed initialization vector.
pub open spec fn spec_encrypt(key: Seq<u8>, plain: Seq<u8>) -> Seq<u8> {
    aes256_cbc_enc(key, iv_bytes(), plain)
}

/// What decryption under the fixed initialization vector recovers from a
/// stored ciphertext, if anything.
pub open spec fn spec_decrypt(key: Seq<u8>, ciphertext: Seq<u8>) -> Option<Seq<u8>> {
    aes256_cbc_dec(key, iv_bytes(), ciphertext)
}

/// The fixed initialization vector as executable bytes.
fn iv_vec() -> (iv: Vec<u8>)
    ensures
        iv@ == iv_bytes(),
{
    let mut iv: Vec<u8> = Vec::new();
    iv.push(0x33);
    iv.push(0x30);
    iv.push(0x31);
    iv.push(0x61);
    iv.push(0x39);
    iv.push(0x65);
    iv.push(0x33);
    iv.push(0x39);
    iv.push(0x37);
    iv.push(0x33);
    iv.push(0x35);
    iv.push(0x66);
    iv.push(0x34);
    iv.push(0x36);
    iv.push(0x34);
    iv.push(0x36);
    proof {
        assert(iv@ =~= iv_bytes());
    }
    iv
}

/// Relies on `block_modes`: `Cbc::<Aes256, Pkcs7>::new_from_slices` fails
/// only on a wrong key or IV length, so it cannot fail here, and
/// `encrypt_vec` computes the padded CBC ciphertext, a deterministic
/// function of key, IV and plaintext alone.
#[verifier::external_body]
fn cbc_encrypt(key: &[u8], iv: &[u8], plain: &[u8]) -> (ciphertext: Vec<u8>)
    requires
        key@.len() == 32,
        iv@.len() == 16,
    ensures
        ciphertext@ == aes256_cbc_enc(key@, iv@, plain@),
{
    let cipher = block_modes::Cbc::<aes::Aes256, block_modes::block_padding::Pkcs7>::new_from_slices(key, iv).unwrap();
    cipher.encrypt_vec(plain)
}

#[verifier::external_type_specification]
#[verifier::external_body]
pub struct ExBlockModeError(block_modes::BlockModeError);

/// What AES-256-CBC decryption with PKCS#7 unpadding yields for the given
/// key, initialization vector and ciphertext: the recovered plaintext, or
/// nothing when the input's length or padding is invalid. A pure function of
/// its three inputs; [`cbc_decrypt`] is what computes it. It is named rather
/// than defined because `Pkcs7::unpad` also accepts padding values larger
/// than one block, so some inputs outside the image of [`aes256_cbc_enc`]
/// decrypt as well.
pub uninterp spec fn aes256_cbc_dec(key: Seq<u8>, iv: Seq<u8>, ciphertext: Seq<u8>) -> Option<Seq<u8>>;

/// Relies on `block_modes`: `Cbc::<Aes256, Pkcs7>::decrypt_vec` is a pure
/// function of key, IV and ciphertext, and it inverts `encrypt_vec`: raw CBC
/// decryption undoes raw CBC encryption, and `Pkcs7::unpad` removes exactly
/// the bytes `Pkcs7::pad` appended, so every encryption of `p` under this
/// key and IV decrypts to `Ok(p)`.
#[verifier::external_body]
fn cbc_decrypt(key: &[u8], iv: &[u8], ciphertext: &[u8]) -> (plain: Result<Vec<u8>, BlockModeError>)
    requires
        key@.len() == 32,
        iv@.len() == 16,
    ensures
        plain is Ok <==> aes256_cbc_dec(key@, iv@, ciphertext@) is Some,
        plain is Ok ==> Some(plain->Ok_0@) == aes256_cbc_dec(key@, iv@, ciphertext@),
        forall|p: Seq<u8>|
            ciphertext@ == aes256_cbc_enc(key@, iv@, p) ==> plain is Ok && plain->Ok_0@ == p,
{
    let cipher = block_modes::Cbc::<aes::Aes256, block_modes::block_padding::Pkcs7>::new_from_slices(key, iv).unwrap();
    cipher.decrypt_vec(ciphertext)
}

/// Relies on `String::from_utf8`: it succeeds exactly on valid UTF-8 input
/// and the returned string holds exactly the input bytes.
#[verifier::external_body]
fn bytes_to_string(bytes: Vec<u8>) -> (text: Option<String>)
    ensures
        text matches Some(_) <==> valid_utf8(bytes@),
        text matches Some(s) ==> encode_utf8(s@) == bytes@,
{
    String::from_utf8(bytes).ok()
}

/// Encrypts the textual (JSON) form of a cached value under the raw bytes of
/// `token_encryption_key_str`, with the fixed initialization vector. The key
/// material must supply exactly 32 bytes; any other length is surfaced as a
/// key-setup failure. Encryption is deterministic: equal text and key give
/// equal ciphertext.
pub fn encrypt(value_json: &str, token_encryption_key_str: &str) -> (result: Result<Vec<u8>, Auth0Error>)
    ensures
        encode_utf8(token_encryption_key_str@).len() == 32 ==> (result matches Ok(c) && c@
            == spec_encrypt(encode_utf8(token_encryption_key_str@), encode_utf8(value_json@))),
        encode_utf8(token_encryption_key_str@).len() != 32 ==> result == Err::<
            Vec<u8>,
            Auth0Error,
        >(Auth0Error::CryptoFailure),
{
    let key = token_encryption_key_str.as_bytes();
    if key.len() != 32 {
        return Err(Auth0Error::CryptoFailure);
    }
    let iv = iv_vec();
    Ok(cbc_encrypt(key, iv.as_slice(), value_json.as_bytes()))
}

/// Decrypts a token-cache entry and returns the textual (JSON) form of the
/// cached value. Exactly one of four outcomes holds:
/// - the key material is not 32 bytes: key-setup failure;
/// - the bytes decrypt under this key to UTF-8 text: that text is returned —
///   in particular every encryption made by [`encrypt`] under the same key
///   decrypts back to the text it was made from;
/// - the bytes decrypt to something that is not UTF-8 text: deserialization
///   failure;
/// - the bytes do not decrypt under this key at all (wrong key, corrupted or
///   truncated input): decryption failure.
pub fn decrypt(token_encryption_key_str: &str, encrypted: &[u8]) -> (result: Result<String, Auth0Error>)
    ensures
        encode_utf8(token_encryption_key_str@).len() != 32 ==> result == Err::<
            String,
            Auth0Error,
        >(Auth0Error::CryptoFailure),
        encode_utf8(token_encryption_key_str@).len() == 32 ==> match spec_decrypt(
            encode_utf8(token_encryption_key_str@),
            encrypted@,
        ) {
            Some(p) => if valid_utf8(p) {
                (result matches Ok(s) && s@ == decode_utf8(p) && encode_utf8(s@) == p)
            } else {
                result == Err::<String, Auth0Error>(Auth0Error::DeserializationFailure)
            },
            None => result == Err::<String, Auth0Error>(Auth0Error::DecryptionFailure),
        },
        encode_utf8(token_encryption_key_str@).len() == 32 ==> forall|p: Seq<u8>|
            encrypted@ == #[trigger] spec_encrypt(encode_utf8(token_encryption_key_str@), p)
                ==> if valid_utf8(p) {
                (result matches Ok(s) && s@ == decode_utf8(p) && encode_utf8(s@) == p)
            } else {
                result == Err::<String, Auth0Error>(Auth0Error::DeserializationFailure)
            },
{
    let key = token_encryption_key_str.as_bytes();
    if key.len() != 32 {
        return Err(Auth0Error::CryptoFailure);
    }
    let iv = iv_vec();
    let decrypted = match cbc_decrypt(key, iv.as_slice(), encrypted) {
        Ok(plain) => plain,
        Err(_) => {
            return Err(Auth0Error::DecryptionFailure);
        },
    };
    let ghost decrypted_bytes = decrypted@;
    proof {
        assert(spec_decrypt(encode_utf8(token_encryption_key_str@), encrypted@) == Some(
            decrypted_bytes,
        ));
    }
    match bytes_to_string(decrypted) {
        Some(text) => {
            proof {
                vstd::utf8::encode_utf8_decode_utf8(text@);
            }
            Ok(text)
        },
        None => Err(Auth0Error::DeserializationFailure),
    }
}

} // verus!
