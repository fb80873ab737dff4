//! The server's settings, as read at startup.
use vstd::prelude::*;

use crate::routing::Ports;

verus! {

/// Settings read once at startup: database credentials and connection string,
/// the directory of the PEM files, the two ports and the pool size.
pub struct Config {
    pub username: String,
    pub password: String,
    pub cnxn_str: String,
    pub pem_dir: String,
    pub port_http: u16,
    pub port_https: u16,
    pub max_connections: u32,
}

impl Config {
    /// The listening ports that the settings name.
    pub fn ports(&self) -> (r: Ports)
        ensures
            r.http == self.port_http,
            r.https == self.port_https,
    {
        Ports { http: self.port_http, https: self.port_https }
    }
}

} // verus!
