//! How to reach the remote host.

use vstd::prelude::*;

verus! {

/// The host, port and credentials of one server.
#[derive(Debug)]
pub struct ServerSettings {
    pub id: String,
    pub name: String,
    pub host: String,
    pub port: u16,
    pub username: String,
    pub password: String,
}

} // verus!
