//! Server configuration. The environment is its only source, so that a
//! container is configured without files.

use vstd::prelude::*;
use vstd::string::*;

verus! {

/// Where the server listens and where it keeps its data.
#[derive(Debug, Clone)]
pub struct ServerConfig {
    pub bind_addr: String,
    pub data_dir: String,
}

impl ServerConfig {
    /// The configuration from the values of `BIND_ADDR` and `DATA_DIR`
    /// (`None` where a variable is unset or not Unicode): each defaults, to
    /// `0.0.0.0:8080` and `./data`.
    pub fn from_settings(bind_addr: Option<String>, data_dir: Option<String>) -> (c: Self)
        ensures
            c.bind_addr@ == match bind_addr {
                Some(a) => a@,
                None => "0.0.0.0:8080"@,
            },
            c.data_dir@ == match data_dir {
                Some(d) => d@,
                None => "./data"@,
            },
    {
        ServerConfig {
            bind_addr: match bind_addr {
                Some(a) => a,
                None => String::from_str("0.0.0.0:8080"),
            },
            data_dir: match data_dir {
                Some(d) => d,
                None => String::from_str("./data"),
            },
        }
    }
}

} // verus!
