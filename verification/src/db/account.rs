//! Account records and password hashing.

use crate::text::same_text;
use base64::Engine;
use sha1::{Digest, Sha1};
use vstd::prelude::*;
use vstd::string::StringSliceAdditionalSpecFns;

verus! {

/// Account data.
#[derive(Debug, Clone)]
pub struct AccountData {
    pub login: String,
    pub password: String,
    pub access_level: i32,
    pub online: i32,
    pub banned: i32,
    pub character_slot: i32,
    pub online_status: i32,
}

/// The SHA-1 digest of a byte sequence.
pub uninterp spec fn sha1_digest(data: Seq<u8>) -> Seq<u8>;

/// The standard Base64 text, with padding, of a byte sequence.
pub uninterp spec fn base64_standard(data: Seq<u8>) -> Seq<char>;

/// Longest input handed to the Base64 encoder; below it the encoder's
/// computation of the output size cannot overflow.
pub const MAX_BASE64_INPUT: usize = 0x1000_0000;

/// The SHA-1 digest of `data`.
///
/// Calls `Digest::digest` of the sha1 crate. The contract names the result
/// and states its length, which is the output size of SHA-1.
#[verifier::external_body]
fn sha1_of(data: &[u8]) -> (digest: Vec<u8>)
    ensures
        digest@ == sha1_digest(data@),
        digest@.len() == 20,
{
    Sha1::digest(data).to_vec()
}

/// The standard Base64 text of `data`.
///
/// Calls `Engine::encode` of the base64 crate on its `STANDARD` engine. The
/// contract only names the result.
#[verifier::external_body]
fn base64_of(data: &[u8]) -> (text: String)
    requires
        data@.len() <= MAX_BASE64_INPUT,
    ensures
        text@ == base64_standard(data@),
{
    base64::engine::general_purpose::STANDARD.encode(data)
}

/// The stored form of a password: the Base64 text of the SHA-1 digest of its
/// UTF-8 bytes.
pub open spec fn password_hash(raw_password: Seq<char>) -> Seq<char> {
    base64_standard(sha1_digest(vstd::utf8::encode_utf8(raw_password)))
}

/// Hashes a raw password into its stored form.
pub fn hash_password(raw_password: &str) -> (hash: String)
    ensures
        hash@ == password_hash(raw_password@),
{
    let digest = sha1_of(raw_password.as_bytes());
    base64_of(digest.as_slice())
}

/// Validate a raw password against the stored hash.
pub fn validate_password(raw_password: &str, stored_hash: &str) -> (valid: bool)
    ensures
        valid == (password_hash(raw_password@) == stored_hash@),
{
    let encoded = hash_password(raw_password);
    same_text(encoded.as_str(), stored_hash)
}

} // verus!
