//! The two roles in which a process joins the table, and how each is started.

use vstd::prelude::*;
use crate::NetworkTablesVersion;

verus! {

/// The port on which a server listens for protocol version 3 clients by default.
pub const DEFAULT_NT3_PORT: u16 = 1735;
/// The port on which a server listens for protocol version 4 clients by default.
pub const DEFAULT_NT4_PORT: u16 = 5810;

/// A network address: the text of an IP address and a port.
#[derive(Debug, Clone, PartialEq, Eq, Hash)]
pub struct SocketAddress {
    pub ip: String,
    pub port: u16,
}

/// This process's participation in the table as a client.
#[derive(Debug, Clone, PartialEq, Eq, Structural, Hash)]
pub struct Client {
    instance: u32,
}

impl Client {
    /// The client that owns the engine instance `instance`.
    pub fn from_handle(instance: u32) -> (r: Self)
        ensures
            r.handle_spec() == instance,
    {
        Client { instance }
    }

    /// The engine instance handle, in specifications.
    pub closed spec fn handle_spec(&self) -> u32 {
        self.instance
    }

    /// The engine instance handle.
    pub fn handle(&self) -> (r: u32)
        ensures
            r == self.handle_spec(),
    {
        self.instance
    }

    /// A client never holds the server's clock.
    pub fn is_server(&self) -> (r: bool)
        ensures
            !r,
    {
        false
    }

    pub fn is_client(&self) -> (r: bool)
        ensures
            r,
    {
        !self.is_server()
    }

    /// A builder for the options a client is started with.
    pub fn builder() -> (r: ClientOptionsBuilder)
        ensures
            r.server_name is None,
            r.address is None,
            r.version is None,
    {
        ClientOptionsBuilder { server_name: None, address: None, version: None }
    }
}

/// The options a client is started with.
#[derive(Debug, Clone, PartialEq, Eq, Hash)]
pub struct ClientOptions {
    pub server_name: Option<String>,
    pub address: SocketAddress,
    pub version: NetworkTablesVersion,
}

impl ClientOptions {
    /// The identity the client announces: the text of its server's IP address.
    pub fn identity(&self) -> (r: String)
        ensures
            r@ == self.address.ip@,
    {
        self.address.ip.as_str().to_owned()
    }

    /// The server name handed to the engine: the one given, or the empty name.
    pub fn server_name_or_default(&self) -> (r: String)
        ensures
            r@ == match self.server_name {
                Some(n) => n@,
                None => Seq::<char>::empty(),
            },
    {
        match &self.server_name {
            Some(n) => n.as_str().to_owned(),
            None => String::new(),
        }
    }

    /// The port the client connects to.
    pub fn port(&self) -> (r: u32)
        ensures
            r == self.address.port,
    {
        self.address.port as u32
    }
}

/// Builds [`ClientOptions`]; the address and the version must be given.
#[derive(Debug, Clone, PartialEq, Eq, Hash)]
pub struct ClientOptionsBuilder {
    pub server_name: Option<String>,
    pub address: Option<SocketAddress>,
    pub version: Option<NetworkTablesVersion>,
}

impl ClientOptionsBuilder {
    pub fn server_name(self, server_name: String) -> (r: Self)
        ensures
            r.server_name == Some(server_name),
            r.address == self.address,
            r.version == self.version,
    {
        ClientOptionsBuilder { server_name: Some(server_name), ..self }
    }

    pub fn address(self, address: SocketAddress) -> (r: Self)
        ensures
            r.server_name == self.server_name,
            r.address == Some(address),
            r.version == self.version,
    {
        ClientOptionsBuilder { address: Some(address), ..self }
    }

    pub fn version(self, version: NetworkTablesVersion) -> (r: Self)
        ensures
            r.server_name == self.server_name,
            r.address == self.address,
            r.version == Some(version),
    {
        ClientOptionsBuilder { version: Some(version), ..self }
    }

    /// The options, or `None` when the address or the version is missing.
    pub fn build(self) -> (r: Option<ClientOptions>)
        ensures
            r is Some <==> (self.address is Some && self.version is Some),
            r is Some ==> r->Some_0 == (ClientOptions {
                server_name: self.server_name,
                address: self.address->Some_0,
                version: self.version->Some_0,
            }),
    {
        match (self.address, self.version) {
            (Some(address), Some(version)) => Some(
                ClientOptions { server_name: self.server_name, address, version },
            ),
            _ => None,
        }
    }
}

/// This process's participation in the table as the server.
#[derive(Debug, Clone, PartialEq, Eq, Structural, Hash)]
pub struct Server {
    instance: u32,
}

impl Server {
    /// The server that owns the engine instance `instance`.
    pub fn from_handle(instance: u32) -> (r: Self)
        ensures
            r.handle_spec() == instance,
    {
        Server { instance }
    }

    /// The engine instance handle, in specifications.
    pub closed spec fn handle_spec(&self) -> u32 {
        self.instance
    }

    /// The engine instance handle.
    pub fn handle(&self) -> (r: u32)
        ensures
            r == self.handle_spec(),
    {
        self.instance
    }

    /// The server holds the authoritative clock.
    pub fn is_server(&self) -> (r: bool)
        ensures
            r,
    {
        true
    }

    pub fn is_client(&self) -> (r: bool)
        ensures
            !r,
    {
        !self.is_server()
    }

    /// A builder for the options a server is started with.
    pub fn builder() -> (r: ServerOptionsBuilder)
        ensures
            r.persist_filename is None,
            r.listen_address is None,
            r.nt3_port == DEFAULT_NT3_PORT,
            r.nt4_port == DEFAULT_NT4_PORT,
    {
        ServerOptionsBuilder {
            persist_filename: None,
            listen_address: None,
            nt3_port: DEFAULT_NT3_PORT,
            nt4_port: DEFAULT_NT4_PORT,
        }
    }
}

/// The options a server is started with.
#[derive(Debug, Clone, PartialEq, Eq, Hash)]
pub struct ServerOptions {
    /// The file the engine persists values to; its extension picks the format.
    pub persist_filename: String,
    /// The address to listen on; all addresses when `None`.
    pub listen_address: Option<SocketAddress>,
    pub nt3_port: u16,
    pub nt4_port: u16,
}

impl ServerOptions {
    /// The text of the IP address to listen on, if one was given.
    pub fn listen_ip(&self) -> (r: Option<String>)
        ensures
            r is Some <==> self.listen_address is Some,
            r is Some ==> r->Some_0@ == self.listen_address->Some_0.ip@,
    {
        match &self.listen_address {
            Some(a) => Some(a.ip.as_str().to_owned()),
            None => None,
        }
    }
}

/// Builds [`ServerOptions`]; the persistence file must be given.
#[derive(Debug, Clone, PartialEq, Eq, Hash)]
pub struct ServerOptionsBuilder {
    pub persist_filename: Option<String>,
    pub listen_address: Option<SocketAddress>,
    pub nt3_port: u16,
    pub nt4_port: u16,
}

impl ServerOptionsBuilder {
    pub fn persist_filename(self, persist_filename: String) -> (r: Self)
        ensures
            r == (ServerOptionsBuilder { persist_filename: Some(persist_filename), ..self }),
    {
        ServerOptionsBuilder { persist_filename: Some(persist_filename), ..self }
    }

    pub fn listen_address(self, listen_address: SocketAddress) -> (r: Self)
        ensures
            r == (ServerOptionsBuilder { listen_address: Some(listen_address), ..self }),
    {
        ServerOptionsBuilder { listen_address: Some(listen_address), ..self }
    }

    pub fn nt3_port(self, nt3_port: u16) -> (r: Self)
        ensures
            r == (ServerOptionsBuilder { nt3_port, ..self }),
    {
        ServerOptionsBuilder { nt3_port, ..self }
    }

    pub fn nt4_port(self, nt4_port: u16) -> (r: Self)
        ensures
            r == (ServerOptionsBuilder { nt4_port, ..self }),
    {
        ServerOptionsBuilder { nt4_port, ..self }
    }

    /// The options, or `None` when the persistence file is missing.
    pub fn build(self) -> (r: Option<ServerOptions>)
        ensures
            r is Some <==> self.persist_filename is Some,
            r is Some ==> r->Some_0 == (ServerOptions {
                persist_filename: self.persist_filename->Some_0,
                listen_address: self.listen_address,
                nt3_port: self.nt3_port,
                nt4_port: self.nt4_port,
            }),
    {
        match self.persist_filename {
            Some(persist_filename) => Some(
                ServerOptions {
                    persist_filename,
                    listen_address: self.listen_address,
                    nt3_port: self.nt3_port,
                    nt4_port: self.nt4_port,
                },
            ),
            None => None,
        }
    }
}

} // verus!
