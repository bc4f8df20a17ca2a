//! HTTP basic authentication for the dashboard, and the server settings.

use vstd::prelude::*;
use vstd::utf8::encode_utf8;
use base64::Engine;
use crate::text::{seq_starts_with, starts_with};

verus! {

/// The decoding `base64`'s standard engine gives for the text `s`
/// (`None` when it rejects it).
pub uninterp spec fn base64_standard_decoded(s: Seq<char>) -> Option<Seq<u8>>;

/// Calls `base64::engine::general_purpose::STANDARD.decode` on the text.
/// Claims only that the result is the named decoding of `s`.
#[verifier::external_body]
fn base64_decode(s: &str) -> (r: Option<Vec<u8>>)
    ensures
        match r {
            Some(v) => base64_standard_decoded(s@) == Some(v@),
            None => base64_standard_decoded(s@).is_none(),
        },
{
    base64::engine::general_purpose::STANDARD.decode(s).ok()
}

/// Expected credentials, `"user:password"`, set at most once.
pub struct AuthConfig {
    pub cred: Option<String>,
}

impl AuthConfig {
    /// No credentials: every request passes.
    pub fn new() -> (r: AuthConfig)
        ensures
            r.cred.is_none(),
    {
        AuthConfig { cred: None }
    }
}

/// Set the expected `"user:password"` credentials. Setting them twice is a
/// programming error, so the credentials must still be unset.
pub fn set_basic_auth(auth: &mut AuthConfig, cred: String)
    requires
        old(auth).cred.is_none(),
    ensures
        final(auth).cred == Some(cred),
{
    auth.cred = Some(cred);
}

/// Whether a request with the `Authorization` header text `header` passes:
/// always without credentials; otherwise the header is `Basic ` followed by
/// the standard base64 of exactly the UTF-8 bytes of the credentials.
pub open spec fn basic_auth_passes(expected: Option<Seq<char>>, header: Option<Seq<char>>) -> bool {
    match expected {
        None => true,
        Some(e) => match header {
            Some(h) => seq_starts_with(h, "Basic "@) && base64_standard_decoded(
                h.subrange(6, h.len() as int),
            ) == Some(encode_utf8(e)),
            None => false,
        },
    }
}

/// Byte-wise equality.
fn bytes_eq(a: &[u8], b: &[u8]) -> (r: bool)
    ensures
        r == (a@ == b@),
{
    if a.len() != b.len() {
        return false;
    }
    let mut i: usize = 0;
    while i < a.len()
        invariant
            a@.len() == b@.len(),
            i <= a@.len(),
            forall|j: int| 0 <= j < i ==> a@[j] == b@[j],
        decreases a.len() - i,
    {
        if a[i] != b[i] {
            return false;
        }
        i = i + 1;
    }
    assert(a@ =~= b@);
    true
}

/// Check a request's `Authorization` header (its text, when it has one that
/// is text) against the configured credentials.
pub fn check_basic_auth(auth: &AuthConfig, header: Option<&str>) -> (r: bool)
    ensures
        r == basic_auth_passes(
            match auth.cred {
                Some(c) => Some(c@),
                None => None,
            },
            match header {
                Some(h) => Some(h@),
                None => None,
            },
        ),
{
    let expected = match &auth.cred {
        Some(c) => c,
        None => return true,
    };
    let h = match header {
        Some(h) => h,
        None => return false,
    };
    if !starts_with(h, "Basic ") {
        return false;
    }
    proof {
        reveal_strlit("Basic ");
    }
    let n = h.unicode_len();
    let encoded = h.substring_char(6, n);
    match base64_decode(encoded) {
        Some(decoded) => bytes_eq(decoded.as_slice(), expected.as_str().as_bytes()),
        None => false,
    }
}

/// Dashboard server settings given on the command line.
#[derive(Clone)]
pub struct ServerConfig {
    pub port: u16,
    pub tls_cert: Option<String>,
    pub tls_key: Option<String>,
}

impl Default for ServerConfig {
    fn default() -> (r: ServerConfig)
        ensures
            r.port == 0 && r.tls_cert.is_none() && r.tls_key.is_none(),
    {
        ServerConfig { port: 0, tls_cert: None, tls_key: None }
    }
}

impl ServerConfig {
    /// TLS is on when both a certificate and a key are given.
    pub fn has_tls(&self) -> (r: bool)
        ensures
            r == (self.tls_cert.is_some() && self.tls_key.is_some()),
    {
        self.tls_cert.is_some() && self.tls_key.is_some()
    }
}

} // verus!
