//! Connection configuration supplied by the caller.

use vstd::prelude::*;

verus! {

/// The control port that voice-chat servers listen on by default.
pub const DEFAULT_PORT: u16 = 64738;

/// Settings a transport needs to reach and authenticate with a server.
#[derive(Clone, Debug)]
pub struct MumbleConfig {
    /// Server host name or address; must be non-blank to connect.
    pub server: String,
    /// Control port on the server.
    pub port: u16,
    /// Name to authenticate as; must be non-blank to connect.
    pub username: String,
    /// Optional password sent with the authenticate command.
    pub password: Option<String>,
    /// Optional client certificate in PEM form; carried but not consumed
    /// by the handshake, reserved for future use.
    pub cert_pem: Option<String>,
}

impl MumbleConfig {
    /// Builds a configuration with the required fields and no password or
    /// certificate.
    pub fn new(server: String, port: u16, username: String) -> (r: Self)
        ensures
            r.server == server,
            r.port == port,
            r.username == username,
            r.password is None,
            r.cert_pem is None,
    {
        MumbleConfig { server, port, username, password: None, cert_pem: None }
    }
}

} // verus!
