//! What the server is told by its environment.

use vstd::prelude::*;
use vstd::string::*;

verus! {

/// The path under which the static files are served.
pub const STATIC_ROUTE: &'static str = "/_static";

/// The address the server binds to: every interface of the host.
pub const LISTEN_ON: [u8; 4] = [0, 0, 0, 0];

/// The configuration of a server.
#[derive(Debug)]
pub struct TwelveConfig {
    /// The directory that holds the static files.
    pub static_dir: String,
    /// Where the database is reached.
    pub database_url: String,
    /// The port to listen on.
    pub port: u16,
}

/// The directory of the static files where the environment names none.
pub fn default_static_dir() -> (dir: String)
    ensures
        dir@ == "./_static"@,
{
    String::from_str("./_static")
}

/// The port to listen on where the environment names none.
pub fn default_port() -> (port: u16)
    ensures
        port == 3000,
{
    3000
}

} // verus!
