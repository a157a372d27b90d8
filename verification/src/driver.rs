//! The settings that the driver is given for a connection.

use vstd::prelude::*;
use crate::text::decimal;

verus! {

/// How the driver is to treat encryption of the transport.
#[derive(Debug, Clone, Copy, PartialEq, Eq, Structural)]
pub enum Encryption {
    /// Whatever the driver does when it is told nothing.
    DriverDefault,
    /// The connection fails unless the transport is encrypted.
    Required,
    /// The transport is not encrypted at all.
    NotSupported,
}

/// How the driver is to authenticate, as mathematical values.
pub enum AuthMethodView {
    SqlServer { user: Seq<char>, password: Seq<char> },
    Windows { user: Seq<char>, password: Seq<char> },
    Integrated,
}

/// How the driver is to authenticate.
#[derive(Debug, PartialEq, Eq)]
pub enum AuthMethod {
    /// A login of SQL Server.
    SqlServer { user: String, password: String },
    /// The credentials of a Windows account.
    Windows { user: String, password: String },
    /// The identity of the running session.
    Integrated,
}

impl View for AuthMethod {
    type V = AuthMethodView;

    open spec fn view(&self) -> AuthMethodView {
        match self {
            AuthMethod::SqlServer { user, password } => AuthMethodView::SqlServer {
                user: user@,
                password: password@,
            },
            AuthMethod::Windows { user, password } => AuthMethodView::Windows {
                user: user@,
                password: password@,
            },
            AuthMethod::Integrated => AuthMethodView::Integrated,
        }
    }
}

impl Clone for AuthMethod {
    fn clone(&self) -> (copy: AuthMethod)
        ensures
            copy == *self,
    {
        match self {
            AuthMethod::SqlServer { user, password } => AuthMethod::SqlServer {
                user: user.clone(),
                password: password.clone(),
            },
            AuthMethod::Windows { user, password } => AuthMethod::Windows {
                user: user.clone(),
                password: password.clone(),
            },
            AuthMethod::Integrated => AuthMethod::Integrated,
        }
    }
}

/// Which server certificates the driver accepts, as mathematical values.
pub enum TrustView {
    SystemStore,
    TrustAll,
    CaCertificate(Seq<char>),
}

/// Which server certificates the driver accepts.
#[derive(Debug, PartialEq, Eq)]
pub enum Trust {
    /// Those that the certificate store of the system vouches for.
    SystemStore,
    /// Any certificate, unchecked.
    TrustAll,
    /// Also those signed by the certificate in the file at this path.
    CaCertificate(String),
}

impl View for Trust {
    type V = TrustView;

    open spec fn view(&self) -> TrustView {
        match self {
            Trust::SystemStore => TrustView::SystemStore,
            Trust::TrustAll => TrustView::TrustAll,
            Trust::CaCertificate(path) => TrustView::CaCertificate(path@),
        }
    }
}

impl Clone for Trust {
    fn clone(&self) -> (copy: Trust)
        ensures
            copy == *self,
    {
        match self {
            Trust::SystemStore => Trust::SystemStore,
            Trust::TrustAll => Trust::TrustAll,
            Trust::CaCertificate(path) => Trust::CaCertificate(path.clone()),
        }
    }
}

/// The text of an optional string.
pub open spec fn text_of(value: Option<String>) -> Option<Seq<char>> {
    match value {
        Some(text) => Some(text@),
        None => None,
    }
}

/// The settings of a connection, as mathematical values.
pub struct DriverConfigView {
    pub host: Option<Seq<char>>,
    pub port: u16,
    pub database: Option<Seq<char>>,
    pub instance_name: Option<Seq<char>>,
    pub encryption: Encryption,
    pub trust: TrustView,
    pub auth: AuthMethodView,
}

/// The settings that the driver is given for a connection. A setting that is
/// `None` is left to the driver.
#[derive(Debug, PartialEq, Eq)]
pub struct DriverConfig {
    pub host: Option<String>,
    pub port: u16,
    pub database: Option<String>,
    pub instance_name: Option<String>,
    pub encryption: Encryption,
    pub trust: Trust,
    pub auth: AuthMethod,
}

impl View for DriverConfig {
    type V = DriverConfigView;

    open spec fn view(&self) -> DriverConfigView {
        DriverConfigView {
            host: text_of(self.host),
            port: self.port,
            database: text_of(self.database),
            instance_name: text_of(self.instance_name),
            encryption: self.encryption,
            trust: self.trust@,
            auth: self.auth@,
        }
    }
}

/// The address of a host and a port, as the driver writes it: the host,
/// then a colon, then the port in decimal notation. Where no host is given,
/// or the host is a single dot, the host is `localhost`.
pub open spec fn driver_address(host: Option<Seq<char>>, port: u16) -> Seq<char> {
    let host = match host {
        Some(host) => if host == "."@ {
            "localhost"@
        } else {
            host
        },
        None => "localhost"@,
    };
    host + ":"@ + decimal(port as nat)
}

/// Asks the driver for the address of a host and a port. The call is
/// `tiberius::Config::get_addr`, on a fresh configuration whose port, and
/// whose host where one is given, were set. The contract claims what the
/// source of that function shows: it formats the host of the configuration,
/// a colon and the port, where the host is `localhost` if none was set or a
/// single dot was. Nothing of this is proved.
#[verifier::external_body]
fn get_addr(host: &Option<String>, port: u16) -> (address: String)
    ensures
        address@ == driver_address(text_of(*host), port),
{
    let mut config = tiberius::Config::new();
    if let Some(host) = host {
        config.host(host);
    }
    config.port(port);
    config.get_addr()
}

impl Clone for DriverConfig {
    fn clone(&self) -> (copy: DriverConfig)
        ensures
            copy == *self,
    {
        DriverConfig {
            host: self.host.clone(),
            port: self.port,
            database: self.database.clone(),
            instance_name: self.instance_name.clone(),
            encryption: self.encryption,
            trust: self.trust.clone(),
            auth: self.auth.clone(),
        }
    }
}

impl DriverConfig {
    /// The address of the server, as the driver writes it.
    pub fn address(&self) -> (address: String)
        ensures
            address@ == driver_address(self@.host, self@.port),
    {
        get_addr(&self.host, self.port)
    }

    /// The same settings with another treatment of encryption.
    pub fn with_encryption(self, encryption: Encryption) -> (config: DriverConfig)
        ensures
            config@ == (DriverConfigView { encryption, ..self@ }),
    {
        DriverConfig { encryption, ..self }
    }
}

} // verus!
