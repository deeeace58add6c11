//! Stored user credentials and their tokens: a salted password digest and
//! the signed claims a login hands back.
//!
//! The digest is derived from the password with a salted, iterated key
//! derivation; verification recomputes it in constant time.  A token signs
//! the user's identity, the issuer and an expiry with a shared secret; its
//! validation also checks the expiry against the clock, so nothing exact
//! can be stated of a single validation call.

use vstd::prelude::*;

verus! {

/// Salt length in bytes.
pub const SALT_LEN: usize = 16;

/// Length of the salted password digest: one SHA-512 output.
pub const PASSWORD_DIGEST_LEN: usize = 64;

/// Key-derivation iteration count.
pub const PBKDF2_ITERATIONS: u32 = 100000;

/// The issuer name written into every token.
pub open spec fn issuer_name() -> Seq<char> {
    "attested_rpc"@
}

/// Token-creation failure.
#[derive(Debug, Clone, Copy, PartialEq, Eq, Structural)]
pub enum AuthError {
    TokenCreation,
}

/// The 64-byte key PBKDF2-HMAC-SHA-512 derives from a salt and a password
/// after the given iteration count; a function of its arguments alone.
pub uninterp spec fn pbkdf2_sha512(iterations: int, salt: Seq<u8>, password: Seq<char>) -> Seq<u8>;

/// The HS512 token signing these claims with this secret; a function of its
/// arguments alone.
pub uninterp spec fn jwt_hs512(sub: Seq<char>, iss: Seq<char>, exp: int, secret: Seq<u8>) -> Seq<
    char,
>;

/// Relies on ring::pbkdf2::derive with PBKDF2_HMAC_SHA512: fills the output
/// deterministically from the iteration count, salt and password.
#[verifier::external_body]
fn pbkdf2_derive(iterations: u32, salt: &Vec<u8>, password: &str) -> (r: Vec<u8>)
    requires
        iterations >= 1,
    ensures
        r@ == pbkdf2_sha512(iterations as int, salt@, password@),
        r@.len() == 64,
{
    let mut out = vec![0u8; 64];
    let iters = core::num::NonZeroU32::new(iterations).unwrap();
    ring::pbkdf2::derive(
        ring::pbkdf2::PBKDF2_HMAC_SHA512,
        iters,
        salt,
        password.as_bytes(),
        &mut out,
    );
    out
}

/// Relies on ring::pbkdf2::verify with PBKDF2_HMAC_SHA512: succeeds exactly
/// when the key derived for this salt and password equals the stored bytes,
/// compared in constant time.
#[verifier::external_body]
fn pbkdf2_check(iterations: u32, salt: &Vec<u8>, password: &str, stored: &Vec<u8>) -> (r: bool)
    requires
        iterations >= 1,
        stored@.len() == 64,
    ensures
        r == (stored@ == pbkdf2_sha512(iterations as int, salt@, password@)),
{
    let iters = core::num::NonZeroU32::new(iterations).unwrap();
    ring::pbkdf2::verify(
        ring::pbkdf2::PBKDF2_HMAC_SHA512,
        iters,
        salt,
        password.as_bytes(),
        stored,
    ).is_ok()
}

/// Relies on rand::fill with the thread-local generator: fills the buffer
/// with random bytes; nothing is promised of the values themselves.
#[verifier::external_body]
fn fill_random(buf: &mut Vec<u8>)
    ensures
        final(buf)@.len() == old(buf)@.len(),
{
    rand::fill(buf.as_mut_slice());
}

/// Relies on jsonwebtoken::encode with HS512: signing claims of this shape
/// with an HMAC secret always succeeds, and the token is a function of the
/// claims and the secret alone.
#[verifier::external_body]
fn jwt_encode(sub: &str, iss: &str, exp: u64, secret: &[u8]) -> (r: Result<String, AuthError>)
    ensures
        r is Ok,
        r matches Ok(t) ==> t@ == jwt_hs512(sub@, iss@, exp as int, secret@),
{
    let header = jsonwebtoken::Header::new(jsonwebtoken::Algorithm::HS512);
    let mut claims = serde_json::Map::new();
    claims.insert("sub".to_string(), serde_json::Value::String(sub.to_string()));
    claims.insert("iss".to_string(), serde_json::Value::String(iss.to_string()));
    claims.insert("exp".to_string(), serde_json::Value::from(exp));
    let key = jsonwebtoken::EncodingKey::from_secret(secret);
    jsonwebtoken::encode(&header, &serde_json::Value::Object(claims), &key).map_err(
        |_| AuthError::TokenCreation,
    )
}

/// Relies on jsonwebtoken::decode with HS512: checks the signature with the
/// secret and validates issuer, subject and expiry.  The expiry check reads
/// the clock, so no exact contract can be stated of one call.
#[verifier::external_body]
fn jwt_validate(token: &str, secret: &[u8], iss: &str, sub: &str) -> (r: bool) {
    let mut validation = jsonwebtoken::Validation::new(jsonwebtoken::Algorithm::HS512);
    validation.set_issuer(&[iss]);
    validation.sub = Some(sub.to_string());
    let key = jsonwebtoken::DecodingKey::from_secret(secret);
    jsonwebtoken::decode::<serde_json::Value>(token, &key, &validation).is_ok()
}

/// One user's stored credentials: the identity, the random salt, and the
/// salted password digest.  The password itself is never stored.
#[derive(Clone, Debug)]
pub struct UserInfo {
    pub id: String,
    pub salt: Vec<u8>,
    pub salted_password_hash: Vec<u8>,
}

/// The claims a token carries: the user (subject), the issuer, and the
/// expiration time as seconds since the epoch.
#[derive(Debug)]
pub struct Claims {
    pub sub: String,
    pub iss: String,
    pub exp: u64,
}

impl UserInfo {
    /// Salt and digest have their fixed lengths.
    pub open spec fn wf(&self) -> bool {
        &&& self.salt@.len() == SALT_LEN
        &&& self.salted_password_hash@.len() == PASSWORD_DIGEST_LEN
    }

    /// Whether `password` is the password these credentials were built from.
    pub open spec fn password_matches(&self, password: Seq<char>) -> bool {
        self.salted_password_hash@ == pbkdf2_sha512(
            PBKDF2_ITERATIONS as int,
            self.salt@,
            password,
        )
    }

    /// Builds credentials for a user: draws a fresh random salt and derives
    /// the salted digest from the password.
    pub fn new(id: &str, password: &str) -> (r: UserInfo)
        ensures
            r.wf(),
            r.id@ == id@,
            r.password_matches(password@),
    {
        let mut salt = vec![0u8; SALT_LEN];
        fill_random(&mut salt);
        let salted_password_hash = pbkdf2_derive(PBKDF2_ITERATIONS, &salt, password);
        UserInfo { id: id.to_string(), salt, salted_password_hash }
    }

    /// Recomputes the digest for an attempted password and compares it, in
    /// constant time, against the stored one: true exactly for the password
    /// the credentials were built from.
    pub fn verify_password(&self, password: &str) -> (r: bool)
        requires
            self.wf(),
        ensures
            r == self.password_matches(password@),
    {
        pbkdf2_check(PBKDF2_ITERATIONS, &self.salt, password, &self.salted_password_hash)
    }

    /// Signs a token for this user with the shared secret: subject is the
    /// user's identity, issuer the platform's fixed name, expiry as given.
    pub fn get_token(&self, exp: u64, secret: &[u8]) -> (r: Result<String, AuthError>)
        ensures
            r is Ok,
            r matches Ok(t) ==> t@ == jwt_hs512(self.id@, issuer_name(), exp as int, secret@),
    {
        let claims = Claims { sub: self.id.clone(), iss: "attested_rpc".to_string(), exp };
        jwt_encode(claims.sub.as_str(), claims.iss.as_str(), claims.exp, secret)
    }

    /// Whether a token is currently valid for this user under the shared
    /// secret: signature, issuer, subject and expiry all check out.  The
    /// expiry is read against the clock, so the result is not a function of
    /// the arguments alone.
    pub fn validate_token(&self, secret: &[u8], token: &str) -> bool {
        jwt_validate(token, secret, "attested_rpc", self.id.as_str())
    }
}

} // verus!
