//! Configuration of the NATS server that relays BryggIO messages, and of the
//! clients that connect to it.
use crate::text::{decimal, push_decimal, push_text};
use vstd::prelude::*;

verus! {

/// User and password accepted by the NATS server.
#[derive(Clone, Debug)]
pub struct Authorization {
    pub user: String,
    pub password: String,
}

impl Authorization {
    pub fn new(user: String, password: String) -> (r: Authorization)
        ensures
            r.user == user,
            r.password == password,
    {
        Authorization { user, password }
    }

    /// Placeholder credentials for development.
    pub fn dummy() -> (r: Authorization)
        ensures
            r.user@ == "user"@,
            r.password@ == "passwd"@,
    {
        Authorization::new("user".to_owned(), "passwd".to_owned())
    }

    /// A copy with the same user and password.
    pub fn duplicate(&self) -> (r: Authorization)
        ensures
            r.user@ == self.user@,
            r.password@ == self.password@,
    {
        Authorization { user: self.user.clone(), password: self.password.clone() }
    }
}

/// Websocket settings of the NATS server, for web clients.
#[derive(Clone, Debug)]
pub struct WebSocket {
    pub port: u32,
    pub no_tls: bool,
}

impl WebSocket {
    /// Websocket on port 9222 without TLS.
    pub fn dummy() -> (r: WebSocket)
        ensures
            r.port == 9222,
            r.no_tls,
    {
        WebSocket { port: 9222, no_tls: true }
    }
}

/// NATS server configuration, as understood by the `nats-server` program.
#[derive(Clone, Debug)]
pub struct NatsServerConfig {
    /// Human-readable server name, displayed in logging.
    pub server_name: String,
    /// Host for client connections.
    pub host: String,
    /// Port for client connections.
    pub port: u32,
    /// HTTP port for server monitoring.
    pub http_port: u32,
    /// Whether the server logs at debug level.
    pub debug: bool,
    /// Credentials accepted by the server.
    pub authorization: Authorization,
    /// Websocket settings.
    pub websocket: WebSocket,
}

impl NatsServerConfig {
    pub fn new(
        server_name: String,
        host: String,
        port: u32,
        http_port: u32,
        debug: bool,
        authorization: Authorization,
        websocket: WebSocket,
    ) -> (r: NatsServerConfig)
        ensures
            r.server_name == server_name,
            r.host == host,
            r.port == port,
            r.http_port == http_port,
            r.debug == debug,
            r.authorization == authorization,
            r.websocket == websocket,
    {
        NatsServerConfig { server_name, host, port, http_port, debug, authorization, websocket }
    }

    /// A local development server.
    pub fn dummy() -> (r: NatsServerConfig)
        ensures
            r.server_name@ == "server-name"@,
            r.host@ == "localhost"@,
            r.port == 4222,
            r.http_port == 8888,
            r.debug,
            r.authorization.user@ == "user"@,
            r.authorization.password@ == "passwd"@,
            r.websocket.port == 9222,
            r.websocket.no_tls,
    {
        NatsServerConfig::new(
            "server-name".to_owned(),
            "localhost".to_owned(),
            4222,
            8888,
            true,
            Authorization::dummy(),
            WebSocket::dummy(),
        )
    }
}

/// What a client needs to connect to the NATS server.
#[derive(Clone, Debug)]
pub struct NatsClientConfig {
    pub host: String,
    pub port: u32,
    pub authorization: Authorization,
}

/// The URL of the server, `host:port`.
pub open spec fn nats_url_text(host: Seq<char>, port: u32) -> Seq<char> {
    host + ":"@ + decimal(port as nat)
}

impl NatsClientConfig {
    pub fn new(host: String, port: u32, authorization: Authorization) -> (r: NatsClientConfig)
        ensures
            r.host == host,
            r.port == port,
            r.authorization == authorization,
    {
        NatsClientConfig { host, port, authorization }
    }

    /// The URL of the server, `host:port`.
    pub fn nats_url(&self) -> (r: String)
        ensures
            r@ == nats_url_text(self.host@, self.port),
    {
        let mut s = self.host.clone();
        push_text(&mut s, ":");
        push_decimal(&mut s, self.port);
        s
    }

    /// A client of the local development server.
    pub fn dummy() -> (r: NatsClientConfig)
        ensures
            r.host@ == "localhost"@,
            r.port == 4222,
            r.authorization.user@ == "user"@,
            r.authorization.password@ == "passwd"@,
    {
        NatsClientConfig::new("localhost".to_owned(), 4222, Authorization::dummy())
    }

    /// The client settings that reach the server `server`: its host, port
    /// and credentials.
    pub fn from_server(server: &NatsServerConfig) -> (r: NatsClientConfig)
        ensures
            r.host@ == server.host@,
            r.port == server.port,
            r.authorization.user@ == server.authorization.user@,
            r.authorization.password@ == server.authorization.password@,
    {
        NatsClientConfig::new(server.host.clone(), server.port, server.authorization.duplicate())
    }
}

} // verus!
