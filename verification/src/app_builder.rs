//! The configuration of a server that keeps its data in a database.

use vstd::prelude::*;
use vstd::string::*;

verus! {

/// How many connections to the database are kept open at most.
pub const MAX_CONNECTIONS: u32 = 5;

/// What is settled before a server is built: its configuration.
#[derive(Debug)]
pub struct AppBuilder {
    pub config: Config,
}

/// The configuration of a server.
#[derive(Debug)]
pub struct Config {
    /// The directory that holds the static files.
    pub static_dir: String,
    /// Where the database is reached.
    pub database_url: String,
    /// The port to listen on.
    pub port: u16,
}

/// The directory of the static files where the environment names none.
pub fn default_static_dir() -> (dir: String)
    ensures
        dir@ == "./_static"@,
{
    String::from_str("./_static")
}

/// The port to listen on where the environment names none.
pub fn default_port() -> (port: u16)
    ensures
        port == 3000,
{
    3000
}

} // verus!
