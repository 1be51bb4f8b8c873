//! TLS configuration of the WebSocket server: where the certificate and
//! key live, and how PEM files are turned into certificate chains and a
//! private key.

use crate::errors::{prefixed, ServerError};
use crate::text::string_of;
use std::path::PathBuf;
use vstd::prelude::*;

verus! {

/// A filesystem path (`std::path::PathBuf`).
#[verifier::external_type_specification]
#[verifier::external_body]
pub struct ExPathBuf(std::path::PathBuf);

/// `PathBuf::clone`: a copy of the same path.
pub assume_specification[ <std::path::PathBuf as Clone>::clone ](p: &std::path::PathBuf) -> (r:
    std::path::PathBuf)
    ensures
        r == *p,
;

/// The path `PathBuf::from` makes of a string.
pub uninterp spec fn path_of(s: Seq<char>) -> PathBuf;

/// `PathBuf::from` of a string.
#[verifier::external_body]
fn path_from(s: &str) -> (p: PathBuf)
    ensures
        p == path_of(s@),
{
    PathBuf::from(s)
}

/// TLS configuration for the WebSocket server.
#[derive(Debug, Clone)]
pub struct TlsConfig {
    /// Path to the TLS certificate (PEM)
    pub cert_path: PathBuf,
    /// Path to the TLS private key (PEM)
    pub key_path: PathBuf,
}

impl Default for TlsConfig {
    fn default() -> (c: Self)
        ensures
            c.cert_path == path_of("certs/server.crt"@),
            c.key_path == path_of("certs/server.key"@),
    {
        TlsConfig { cert_path: path_from("certs/server.crt"), key_path: path_from("certs/server.key") }
    }
}

impl TlsConfig {
    /// A configuration with the given paths.
    pub fn new(cert_path: &str, key_path: &str) -> (c: Self)
        ensures
            c.cert_path == path_of(cert_path@),
            c.key_path == path_of(key_path@),
    {
        TlsConfig { cert_path: path_from(cert_path), key_path: path_from(key_path) }
    }
}

/// The DER items of a PEM text that rustls-pemfile returns for one kind of
/// item (`None` when the text cannot be read).
pub open spec fn der_items(v: Seq<Vec<u8>>) -> Seq<Seq<u8>> {
    v.map_values(|x: Vec<u8>| x@)
}

/// The certificates `rustls_pemfile::certs` finds in a PEM text, or `None`
/// when it fails.
pub uninterp spec fn pem_certs(pem: Seq<u8>) -> Option<Seq<Seq<u8>>>;

/// The PKCS#8 keys `rustls_pemfile::pkcs8_private_keys` finds, or `None`.
pub uninterp spec fn pem_pkcs8_keys(pem: Seq<u8>) -> Option<Seq<Seq<u8>>>;

/// The RSA keys `rustls_pemfile::rsa_private_keys` finds, or `None`.
pub uninterp spec fn pem_rsa_keys(pem: Seq<u8>) -> Option<Seq<Seq<u8>>>;

/// `rustls_pemfile::certs` on a PEM text; the error's text on failure.
#[verifier::external_body]
fn read_pem_certs(pem: &[u8]) -> (r: Result<Vec<Vec<u8>>, String>)
    ensures
        r matches Ok(v) ==> pem_certs(pem@) == Some(der_items(v@)),
        r is Err ==> pem_certs(pem@) is None,
{
    rustls_pemfile::certs(&mut &pem[..]).map_err(|e| e.to_string())
}

/// `rustls_pemfile::pkcs8_private_keys` on a PEM text.
#[verifier::external_body]
fn read_pem_pkcs8_keys(pem: &[u8]) -> (r: Result<Vec<Vec<u8>>, String>)
    ensures
        r matches Ok(v) ==> pem_pkcs8_keys(pem@) == Some(der_items(v@)),
        r is Err ==> pem_pkcs8_keys(pem@) is None,
{
    rustls_pemfile::pkcs8_private_keys(&mut &pem[..]).map_err(|e| e.to_string())
}

/// `rustls_pemfile::rsa_private_keys` on a PEM text.
#[verifier::external_body]
fn read_pem_rsa_keys(pem: &[u8]) -> (r: Result<Vec<Vec<u8>>, String>)
    ensures
        r matches Ok(v) ==> pem_rsa_keys(pem@) == Some(der_items(v@)),
        r is Err ==> pem_rsa_keys(pem@) is None,
{
    rustls_pemfile::rsa_private_keys(&mut &pem[..]).map_err(|e| e.to_string())
}

/// An internal server error whose message starts with `prefix`.
pub open spec fn internal_with_prefix(e: ServerError, prefix: Seq<char>) -> bool {
    e matches ServerError::Internal(m) && m@.len() >= prefix.len() && m@.subrange(
        0,
        prefix.len() as int,
    ) == prefix
}

fn internal_error(prefix: &str, detail: String) -> (e: ServerError)
    ensures
        e matches ServerError::Internal(m) && m@ == prefix@ + detail@,
        internal_with_prefix(e, prefix@),
{
    let m = prefixed(prefix, &detail);
    proof {
        assert(m@.subrange(0, prefix@.len() as int) =~= prefix@);
    }
    ServerError::Internal(m)
}

/// The certificate chain of a PEM file's contents: every certificate in
/// it, in order. Fails when the text cannot be read or holds none.
pub fn certs_from_pem(pem: &[u8]) -> (r: Result<Vec<Vec<u8>>, ServerError>)
    ensures
        r is Ok <==> (pem_certs(pem@) matches Some(c) && c.len() > 0),
        r matches Ok(v) ==> pem_certs(pem@) == Some(der_items(v@)),
        pem_certs(pem@) is None ==> (r matches Err(e) && internal_with_prefix(
            e,
            "Failed to parse certificates: "@,
        )),
        pem_certs(pem@) == Some(Seq::<Seq<u8>>::empty()) ==> (r matches Err(
            ServerError::Internal(m),
        ) && m@ == "No certificates found in file"@),
{
    match read_pem_certs(pem) {
        Err(e) => Err(internal_error("Failed to parse certificates: ", e)),
        Ok(certs) => {
            if certs.len() == 0 {
                Err(ServerError::Internal(string_of("No certificates found in file")))
            } else {
                Ok(certs)
            }
        },
    }
}

/// The private key of a PEM file's contents: the first PKCS#8 key, else
/// the first RSA key.
pub fn private_key_from_pem(pem: &[u8]) -> (r: Result<Vec<u8>, ServerError>)
    ensures
        match pem_pkcs8_keys(pem@) {
            None => r matches Err(e) && internal_with_prefix(e, "Failed to parse private key: "@),
            Some(p) => if p.len() > 0 {
                r matches Ok(k) && k@ == p[0]
            } else {
                match pem_rsa_keys(pem@) {
                    None => r matches Err(e) && internal_with_prefix(
                        e,
                        "Failed to parse RSA private key: "@,
                    ),
                    Some(q) => if q.len() > 0 {
                        r matches Ok(k) && k@ == q[0]
                    } else {
                        r matches Err(ServerError::Internal(m)) && m@
                            == "No private key found in file"@
                    },
                }
            },
        },
{
    match read_pem_pkcs8_keys(pem) {
        Err(e) => {
            return Err(internal_error("Failed to parse private key: ", e));
        },
        Ok(keys) => {
            if keys.len() > 0 {
                return Ok(keys[0].clone());
            }
        },
    }
    match read_pem_rsa_keys(pem) {
        Err(e) => Err(internal_error("Failed to parse RSA private key: ", e)),
        Ok(keys) => {
            if keys.len() > 0 {
                Ok(keys[0].clone())
            } else {
                Err(ServerError::Internal(string_of("No private key found in file")))
            }
        },
    }
}

/// The certificate chain and key of the built-in development certificate:
/// every certificate of `cert_pem` and the first PKCS#8 key of `key_pem`.
pub fn dev_credentials(cert_pem: &[u8], key_pem: &[u8]) -> (r: Result<
    (Vec<Vec<u8>>, Vec<u8>),
    ServerError,
>)
    ensures
        match pem_certs(cert_pem@) {
            None => r matches Err(e) && internal_with_prefix(e, "Failed to parse test certificate: "@),
            Some(c) => match pem_pkcs8_keys(key_pem@) {
                None => r matches Err(e) && internal_with_prefix(e, "Failed to parse test key: "@),
                Some(k) => if k.len() > 0 {
                    r matches Ok((cv, kv)) && der_items(cv@) == c && kv@ == k[0]
                } else {
                    r matches Err(ServerError::Internal(m)) && m@ == "No private key found in test key"@
                },
            },
        },
{
    let certs = match read_pem_certs(cert_pem) {
        Err(e) => {
            return Err(internal_error("Failed to parse test certificate: ", e));
        },
        Ok(c) => c,
    };
    let keys = match read_pem_pkcs8_keys(key_pem) {
        Err(e) => {
            return Err(internal_error("Failed to parse test key: ", e));
        },
        Ok(k) => k,
    };
    if keys.len() == 0 {
        return Err(ServerError::Internal(string_of("No private key found in test key")));
    }
    let key = keys[0].clone();
    Ok((certs, key))
}

} // verus!
