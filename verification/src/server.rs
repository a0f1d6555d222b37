//! Where the server listens and where it finds its TLS files.

use vstd::prelude::*;
use crate::text::{decimal, decimal_string, joined};

verus! {

/// The certificate and key files in the folder `tls_dir`, taken as given (relative to
/// the working directory, or absolute): `<tls_dir>/cert.pem` and `<tls_dir>/key.pem`.
pub fn tls_file_paths(tls_dir: &str) -> (paths: (String, String))
    ensures
        paths.0@ == tls_dir@ + "/cert.pem"@,
        paths.1@ == tls_dir@ + "/key.pem"@,
{
    let cert = joined(tls_dir, "/cert.pem");
    let key = joined(tls_dir, "/key.pem");
    (cert, key)
}

/// The address a plain-HTTP server binds: every interface, at `port`.
pub fn plain_listen_address(port: u16) -> (addr: String)
    ensures
        addr@ == "0.0.0.0:"@ + decimal(port as nat),
{
    let digits = decimal_string(port as u64);
    joined("0.0.0.0:", digits.as_str())
}

} // verus!
