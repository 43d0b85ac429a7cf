//! The command-line surface as plain data; the parsing itself happens
//! outside the verified core.

use vstd::prelude::*;

verus! {

/// The command-line options.
pub struct Cli {
    /// `[ip:]port` to forward traffic to.
    pub target: String,
    /// Port to listen on.
    pub port: u16,
    /// Certificate file; when absent, a self-signed certificate is generated.
    pub cert: Option<String>,
    /// Private key file.
    pub key: Option<String>,
    /// Webhook to call when the certificate is renewed.
    pub cert_webhook: Option<String>,
    /// Client mode.
    pub client: bool,
    /// Pinned server certificate hashes (client mode).
    pub sch: Vec<String>,
}

/// Pairs the certificate and key paths: explicit material is used only when
/// both are given.
pub fn pair_cert_key(cert: Option<String>, key: Option<String>) -> (r: Option<(String, String)>)
    ensures
        r is Some <==> (cert is Some && key is Some),
        match r {
            Some(p) => (match cert {
                Some(c) => p.0@ == c@,
                None => false,
            }) && (match key {
                Some(k) => p.1@ == k@,
                None => false,
            }),
            None => true,
        },
{
    match (cert, key) {
        (Some(c), Some(k)) => Some((c, k)),
        _ => None,
    }
}

} // verus!
