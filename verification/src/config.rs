//! The description of an endpoint, as a check is configured with it.

use vstd::prelude::*;
use crate::driver::text_of;
use crate::types::{HostName, Port};

verus! {

/// The way to authenticate that a configuration asks for.
#[derive(Debug, Clone, Copy, PartialEq, Eq, Structural)]
pub enum AuthType {
    /// A login of SQL Server, by user and password.
    SqlServer,
    /// A Windows account, by user and password.
    Windows,
    /// The identity of the running session.
    Integrated,
    /// An access token.
    Token,
}

impl AuthType {
    /// The way to authenticate that a tag of a configuration stands for.
    pub open spec fn of_tag(tag: Seq<char>) -> Option<AuthType> {
        if tag == "sql_server"@ {
            Some(AuthType::SqlServer)
        } else if tag == "windows"@ {
            Some(AuthType::Windows)
        } else if tag == "integrated"@ {
            Some(AuthType::Integrated)
        } else if tag == "token"@ {
            Some(AuthType::Token)
        } else {
            None
        }
    }

    /// Reads the tag of a configuration. A tag is matched as it is written:
    /// nothing is trimmed and case counts.
    pub fn from_tag(tag: &str) -> (auth_type: Option<AuthType>)
        ensures
            auth_type == AuthType::of_tag(tag@),
    {
        let tag = String::from_str(tag);
        if tag == String::from_str("sql_server") {
            Some(AuthType::SqlServer)
        } else if tag == String::from_str("windows") {
            Some(AuthType::Windows)
        } else if tag == String::from_str("integrated") {
            Some(AuthType::Integrated)
        } else if tag == String::from_str("token") {
            Some(AuthType::Token)
        } else {
            None
        }
    }
}

/// Who connects, as mathematical values.
pub struct AuthenticationView {
    pub username: Seq<char>,
    pub password: Option<Seq<char>>,
    pub auth_type: AuthType,
}

/// Who connects, and how that is proved to the server.
#[derive(Debug, Clone, PartialEq, Eq)]
pub struct Authentication {
    pub username: String,
    pub password: Option<String>,
    pub auth_type: AuthType,
}

impl View for Authentication {
    type V = AuthenticationView;

    open spec fn view(&self) -> AuthenticationView {
        AuthenticationView {
            username: self.username@,
            password: text_of(self.password),
            auth_type: self.auth_type,
        }
    }
}

/// The certificates of a connection over TLS.
#[derive(Debug, Clone, PartialEq, Eq)]
pub struct ConnectionTls {
    pub ca: String,
    pub client_certificate: String,
}

/// Where to connect, as mathematical values.
pub struct ConnectionView {
    pub hostname: Seq<char>,
    pub port: u16,
    pub timeout: u64,
    pub client_certificate: Option<Seq<char>>,
    pub trust_server_certificate: bool,
}

/// Where to connect, how long to try, and which certificates to trust.
#[derive(Debug, Clone, PartialEq, Eq)]
pub struct Connection {
    pub hostname: HostName,
    pub port: Port,
    /// The seconds that an attempt to connect may take.
    pub timeout: u64,
    pub tls: Option<ConnectionTls>,
    pub trust_server_certificate: bool,
}

impl View for Connection {
    type V = ConnectionView;

    open spec fn view(&self) -> ConnectionView {
        ConnectionView {
            hostname: self.hostname@,
            port: self.port.0,
            timeout: self.timeout,
            client_certificate: match self.tls {
                Some(tls) => Some(tls.client_certificate@),
                None => None,
            },
            trust_server_certificate: self.trust_server_certificate,
        }
    }
}

/// An endpoint as mathematical values.
pub struct EndpointView {
    pub auth: AuthenticationView,
    pub conn: ConnectionView,
}

/// A configured endpoint: who connects, and where.
#[derive(Debug, Clone, PartialEq, Eq)]
pub struct Endpoint {
    pub auth: Authentication,
    pub conn: Connection,
}

impl View for Endpoint {
    type V = EndpointView;

    open spec fn view(&self) -> EndpointView {
        EndpointView { auth: self.auth@, conn: self.conn@ }
    }
}

impl Endpoint {
    /// The two halves of the endpoint.
    pub fn split(&self) -> (halves: (&Authentication, &Connection))
        ensures
            halves.0 == &self.auth,
            halves.1 == &self.conn,
    {
        (&self.auth, &self.conn)
    }

    /// The port that the endpoint is configured with.
    pub fn port(&self) -> (port: Port)
        ensures
            port == self.conn.port,
    {
        self.conn.port
    }
}

} // verus!
