//! The command line of the server and its defaults.

use vstd::prelude::*;

verus! {

/// The server's configuration, as given on the command line.
#[derive(Clone, PartialEq, Eq, Debug)]
pub struct Arguments {
    /// Directory of the static website.
    pub html_folder: String,
    /// Listening port.
    pub portnumber: u16,
    /// Serve plain HTTP instead of HTTPS.
    pub no_tls: bool,
    /// Directory that holds `cert.pem` and `key.pem`.
    pub tls_dir: String,
}

/// Where the TLS files are looked for when none is given: the working directory.
pub fn default_tls_directory() -> (dir: String)
    ensures
        dir@ == "./"@,
{
    String::from_str("./")
}

/// The port listened on when none is given.
pub fn default_port() -> (port: u16)
    ensures
        port == 4321,
{
    4321
}

/// Where the website is looked for when no directory is given.
pub fn default_html_folder() -> (dir: String)
    ensures
        dir@ == "/home/nt_user/html/index.html"@,
{
    String::from_str("/home/nt_user/html/index.html")
}

} // verus!
