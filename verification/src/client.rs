//! The builder of a connection: where to connect, as whom, and what to trust.

use vstd::prelude::*;
use crate::attempt::{Attempt, AttemptView};
use crate::config::{AuthType, Authentication, AuthenticationView, Endpoint, EndpointView};
use crate::driver::{
    text_of, AuthMethod, AuthMethodView, DriverConfig, DriverConfigView,
    Encryption, Trust, TrustView,
};
use crate::error::{outcome_view, ConnectError, ConnectErrorView, Refusal};
use crate::platform::Platform;
use crate::types::{CertPath, HostName, InstanceName, Port, SQL_BROWSER_PORT, STANDARD_PORT};

verus! {

/// Whether a builder trusts any server certificate unless told otherwise.
pub const TRUST_SERVER_CERTIFICATE: bool = true;

/// A user and a password, as mathematical values.
pub enum CredentialsView {
    SqlServer { user: Seq<char>, password: Seq<char> },
    Windows { user: Seq<char>, password: Seq<char> },
}

impl CredentialsView {
    /// The way in which the driver authenticates with the credentials.
    pub open spec fn auth_method(self) -> AuthMethodView {
        match self {
            CredentialsView::SqlServer { user, password } => AuthMethodView::SqlServer {
                user,
                password,
            },
            CredentialsView::Windows { user, password } => AuthMethodView::Windows {
                user,
                password,
            },
        }
    }
}

/// A user and a password, for a login of SQL Server or for a Windows account.
/// They are taken as they are written.
#[derive(Debug, Clone, Copy, PartialEq, Eq)]
pub enum Credentials<'a> {
    SqlServer { user: &'a str, password: &'a str },
    Windows { user: &'a str, password: &'a str },
}

impl<'a> View for Credentials<'a> {
    type V = CredentialsView;

    open spec fn view(&self) -> CredentialsView {
        match self {
            Credentials::SqlServer { user, password } => CredentialsView::SqlServer {
                user: user@,
                password: password@,
            },
            Credentials::Windows { user, password } => CredentialsView::Windows {
                user: user@,
                password: password@,
            },
        }
    }
}

/// A server on the network.
#[derive(Debug, Clone, PartialEq, Eq)]
pub struct Remote<'a> {
    pub host: HostName,
    pub port: Option<Port>,
    pub credentials: Credentials<'a>,
}

/// The default instance of this host.
#[derive(Debug, Clone, Copy, PartialEq, Eq, Default)]
pub struct Local {
    pub port: Option<Port>,
}

/// A named instance of this host, found through the SQL Server Browser.
#[derive(Debug, Clone, PartialEq, Eq)]
pub struct LocalInstance {
    pub instance_name: InstanceName,
    pub browser_port: Option<Port>,
}

/// The number of an optional port.
pub open spec fn number_of(port: Option<Port>) -> Option<u16> {
    match port {
        Some(port) => Some(port.0),
        None => None,
    }
}

/// Where a builder connects to, as mathematical values.
pub enum TopologyView {
    Remote { host: Seq<char>, port: Option<u16>, credentials: CredentialsView },
    LocalInstance { instance_name: Seq<char>, browser_port: Option<u16> },
    Local { port: Option<u16> },
}

/// Where a builder connects to.
#[derive(Debug, Clone, PartialEq, Eq)]
pub enum ClientConnection<'a> {
    Remote(Remote<'a>),
    LocalInstance(LocalInstance),
    Local(Local),
}

impl<'a> View for ClientConnection<'a> {
    type V = TopologyView;

    open spec fn view(&self) -> TopologyView {
        match self {
            ClientConnection::Remote(remote) => TopologyView::Remote {
                host: remote.host@,
                port: number_of(remote.port),
                credentials: remote.credentials@,
            },
            ClientConnection::LocalInstance(instance) => TopologyView::LocalInstance {
                instance_name: instance.instance_name@,
                browser_port: number_of(instance.browser_port),
            },
            ClientConnection::Local(local) => TopologyView::Local { port: number_of(local.port) },
        }
    }
}

/// What a builder was told, as mathematical values.
pub struct ClientBuilderView {
    pub client_connection: Option<TopologyView>,
    pub database: Option<Seq<char>>,
    pub certificate: Option<Seq<char>>,
    pub trust_server_certificate: bool,
}

impl ClientBuilderView {
    /// A builder that was told nothing.
    pub open spec fn fresh() -> ClientBuilderView {
        ClientBuilderView {
            client_connection: None,
            database: None,
            certificate: None,
            trust_server_certificate: TRUST_SERVER_CERTIFICATE,
        }
    }

    /// The builder after it was told where to connect.
    pub open spec fn with_topology(self, topology: TopologyView) -> ClientBuilderView {
        ClientBuilderView { client_connection: Some(topology), ..self }
    }

    /// The certificates that the driver is to accept: those that the file of
    /// the builder vouches for where it names one, else any where it trusts
    /// the server, else those of the system.
    pub open spec fn trust(self) -> TrustView {
        match self.certificate {
            Some(path) => TrustView::CaCertificate(path),
            None => if self.trust_server_certificate {
                TrustView::TrustAll
            } else {
                TrustView::SystemStore
            },
        }
    }

    /// The settings that the builder gives the driver on a platform, or why
    /// it gives none.
    pub open spec fn config(self, platform: Platform) -> Result<
        DriverConfigView,
        ConnectErrorView,
    > {
        match self.client_connection {
            None => Err(ConnectErrorView::NoTopology),
            Some(TopologyView::Remote { host, port, credentials }) => {
                if credentials is Windows && !platform.integrated_auth {
                    Err(ConnectErrorView::UnsupportedAuthType(Refusal::Credentials))
                } else {
                    Ok(
                        DriverConfigView {
                            host: Some(host),
                            port: port.unwrap_or(STANDARD_PORT),
                            database: self.database,
                            instance_name: None,
                            encryption: Encryption::DriverDefault,
                            trust: self.trust(),
                            auth: credentials.auth_method(),
                        },
                    )
                }
            },
            Some(TopologyView::LocalInstance { instance_name, browser_port }) => {
                if !platform.local_discovery || !platform.integrated_auth {
                    Err(ConnectErrorView::UnsupportedTopology)
                } else {
                    Ok(
                        DriverConfigView {
                            host: Some("localhost"@),
                            port: browser_port.unwrap_or(SQL_BROWSER_PORT),
                            database: self.database,
                            instance_name: Some(instance_name),
                            encryption: Encryption::DriverDefault,
                            trust: self.trust(),
                            auth: AuthMethodView::Integrated,
                        },
                    )
                }
            },
            Some(TopologyView::Local { port }) => {
                if !platform.integrated_auth {
                    Err(ConnectErrorView::UnsupportedTopology)
                } else {
                    Ok(
                        DriverConfigView {
                            host: None,
                            port: port.unwrap_or(STANDARD_PORT),
                            database: None,
                            instance_name: None,
                            encryption: Encryption::DriverDefault,
                            trust: self.trust(),
                            auth: AuthMethodView::Integrated,
                        },
                    )
                }
            },
        }
    }

    /// The attempt that the builder starts on a platform, or why it starts
    /// none.
    pub open spec fn attempt(self, platform: Platform) -> Result<AttemptView, ConnectErrorView> {
        match self.config(platform) {
            Err(error) => Err(error),
            Ok(config) => match self.client_connection {
                Some(TopologyView::Remote { .. }) => Ok(remote_attempt(config, platform)),
                Some(TopologyView::LocalInstance { .. }) => instance_attempt(config, platform),
                Some(TopologyView::Local { .. }) => Ok(AttemptView::open(config, false, false)),
                None => Err(ConnectErrorView::NoTopology),
            },
        }
    }
}

/// The attempt to reach a server on the network: encryption is required, and
/// where the platform allows it a second try without encryption is left for
/// a server that does not support encryption.
pub open spec fn remote_attempt(config: DriverConfigView, platform: Platform) -> AttemptView {
    AttemptView::open(
        DriverConfigView { encryption: Encryption::Required, ..config },
        false,
        platform.plaintext_fallback,
    )
}

/// The attempt to reach a named instance of this host, on a platform that
/// can find one.
pub open spec fn instance_attempt(config: DriverConfigView, platform: Platform) -> Result<
    AttemptView,
    ConnectErrorView,
> {
    if platform.local_discovery {
        Ok(AttemptView::open(config, true, false))
    } else {
        Err(ConnectErrorView::UnsupportedTopology)
    }
}

/// Collects where to connect, as whom and what to trust, and turns that into
/// the settings of the driver. Telling it again where to connect replaces
/// what it was told before.
#[derive(Debug, Clone, PartialEq, Eq)]
pub struct ClientBuilder<'a> {
    client_connection: Option<ClientConnection<'a>>,
    database: Option<String>,
    certificate: Option<CertPath>,
    trust_server_certificate: bool,
}

impl<'a> View for ClientBuilder<'a> {
    type V = ClientBuilderView;

    closed spec fn view(&self) -> ClientBuilderView {
        ClientBuilderView {
            client_connection: match self.client_connection {
                Some(connection) => Some(connection@),
                None => None,
            },
            database: text_of(self.database),
            certificate: match self.certificate {
                Some(path) => Some(path@),
                None => None,
            },
            trust_server_certificate: self.trust_server_certificate,
        }
    }
}

impl<'a> Default for ClientBuilder<'a> {
    fn default() -> (builder: Self)
        ensures
            builder@ == ClientBuilderView::fresh(),
    {
        Self {
            client_connection: None,
            database: None,
            certificate: None,
            trust_server_certificate: TRUST_SERVER_CERTIFICATE,
        }
    }
}

impl<'a> ClientBuilder<'a> {
    /// A builder that was told nothing yet.
    pub fn new() -> (builder: ClientBuilder<'a>)
        ensures
            builder@ == ClientBuilderView::fresh(),
    {
        ClientBuilder::default()
    }

    /// Connect to a server on the network.
    pub fn remote(
        self,
        host: &HostName,
        port: Option<Port>,
        credentials: Credentials<'a>,
    ) -> (builder: Self)
        ensures
            builder@ == self@.with_topology(
                TopologyView::Remote {
                    host: host@,
                    port: number_of(port),
                    credentials: credentials@,
                },
            ),
    {
        let r = ClientConnection::Remote(
            Remote { host: host.clone(), port, credentials },
        );
        let mut builder = self;
        builder.client_connection = Some(r);
        builder
    }

    /// Connect to a named instance of this host.
    pub fn local_instance(self, instance: &InstanceName, browser_port: Option<Port>) -> (builder:
        Self)
        ensures
            builder@ == self@.with_topology(
                TopologyView::LocalInstance {
                    instance_name: instance@,
                    browser_port: number_of(browser_port),
                },
            ),
    {
        let i = LocalInstance { instance_name: instance.clone(), browser_port };
        let mut builder = self;
        builder.client_connection = Some(ClientConnection::LocalInstance(i));
        builder
    }

    /// Connect to the default instance of this host.
    pub fn local(self, port: Option<Port>) -> (builder: Self)
        ensures
            builder@ == self@.with_topology(TopologyView::Local { port: number_of(port) }),
    {
        let l = ClientConnection::Local(Local { port });
        let mut builder = self;
        builder.client_connection = Some(l);
        builder
    }

    /// Use this database, or the one that the server chooses.
    pub fn database(self, database: Option<String>) -> (builder: Self)
        ensures
            builder@ == (ClientBuilderView { database: text_of(database), ..self@ }),
    {
        let mut builder = self;
        builder.database = database;
        builder
    }

    /// Accept the server certificates that the certificate in this file
    /// vouches for.
    pub fn certificate(self, certificate: Option<CertPath>) -> (builder: Self)
        ensures
            builder@ == (ClientBuilderView {
                certificate: match certificate {
                    Some(path) => Some(path@),
                    None => None,
                },
                ..self@
            }),
    {
        let mut builder = self;
        builder.certificate = certificate;
        builder
    }

    /// Accept any server certificate, or only those that can be checked.
    pub fn trust_server_certificate(self, trust: bool) -> (builder: Self)
        ensures
            builder@ == (ClientBuilderView { trust_server_certificate: trust, ..self@ }),
    {
        let mut builder = self;
        builder.trust_server_certificate = trust;
        builder
    }

    /// Where the builder connects to, if it was told.
    pub fn client_connection(&self) -> (connection: &Option<ClientConnection<'a>>)
        ensures
            match *connection {
                Some(connection) => self@.client_connection == Some(connection@),
                None => self@.client_connection.is_none(),
            },
    {
        &self.client_connection
    }

    /// The settings for the driver. Without a place to connect to there are
    /// none, whatever else the builder was told; nor are there for a way to
    /// connect or to authenticate that the platform lacks.
    pub fn make_config(&self, platform: Platform) -> (config: Result<DriverConfig, ConnectError>)
        ensures
            outcome_view(config) == self@.config(platform),
            self@.client_connection.is_none() ==> config == Err::<DriverConfig, ConnectError>(
                ConnectError::NoTopology,
            ),
    {
        let trust = match &self.certificate {
            Some(certificate) => Trust::CaCertificate(certificate.0.clone()),
            None => if self.trust_server_certificate {
                Trust::TrustAll
            } else {
                Trust::SystemStore
            },
        };
        match &self.client_connection {
            Some(ClientConnection::Remote(r)) => {
                let port = match r.port {
                    Some(p) => p.value(),
                    None => STANDARD_PORT,
                };
                let auth = match r.credentials {
                    Credentials::SqlServer { user, password } => AuthMethod::SqlServer {
                        user: String::from_str(user),
                        password: String::from_str(password),
                    },
                    Credentials::Windows { user, password } => {
                        if !platform.integrated_auth {
                            return Err(ConnectError::UnsupportedAuthType(Refusal::Credentials));
                        }
                        AuthMethod::Windows {
                            user: String::from_str(user),
                            password: String::from_str(password),
                        }
                    },
                };
                Ok(
                    DriverConfig {
                        host: Some(r.host.0.clone()),
                        port,
                        database: self.database.clone(),
                        instance_name: None,
                        encryption: Encryption::DriverDefault,
                        trust,
                        auth,
                    },
                )
            },
            Some(ClientConnection::LocalInstance(i)) => {
                if !platform.local_discovery || !platform.integrated_auth {
                    return Err(ConnectError::UnsupportedTopology);
                }
                let port = match i.browser_port {
                    Some(p) => p.value(),
                    None => SQL_BROWSER_PORT,
                };
                Ok(
                    DriverConfig {
                        host: Some(String::from_str("localhost")),
                        port,
                        database: self.database.clone(),
                        instance_name: Some(i.instance_name.0.clone()),
                        encryption: Encryption::DriverDefault,
                        trust,
                        auth: AuthMethod::Integrated,
                    },
                )
            },
            Some(ClientConnection::Local(l)) => {
                if !platform.integrated_auth {
                    return Err(ConnectError::UnsupportedTopology);
                }
                let port = match l.port {
                    Some(p) => p.value(),
                    None => STANDARD_PORT,
                };
                Ok(
                    DriverConfig {
                        host: None,
                        port,
                        database: None,
                        instance_name: None,
                        encryption: Encryption::DriverDefault,
                        trust,
                        auth: AuthMethod::Integrated,
                    },
                )
            },
            None => Err(ConnectError::NoTopology),
        }
    }

    /// Starts the attempt to connect: with the settings of `make_config`, in
    /// the way that the place to connect to asks for. Nothing is started
    /// where `make_config` gives no settings.
    pub fn build(self, platform: Platform) -> (attempt: Result<Attempt, ConnectError>)
        ensures
            outcome_view(attempt) == self@.attempt(platform),
    {
        let config = match self.make_config(platform) {
            Ok(config) => config,
            Err(error) => {
                return Err(error);
            },
        };
        match self.client_connection {
            Some(ClientConnection::Remote(_)) => Ok(create_remote(config, platform)),
            Some(ClientConnection::LocalInstance(_)) => create_instance_local(config, platform),
            Some(ClientConnection::Local(_)) => Ok(connect_via_tcp(config)),
            None => Err(ConnectError::NoTopology),
        }
    }
}

/// The credentials that an authentication gives on a platform: those of a
/// login of SQL Server always, those of a Windows account where the platform
/// can use them, and none for any other way to authenticate. A password that
/// is missing is the empty password.
pub open spec fn credentials_of(auth: AuthenticationView, platform: Platform) -> Option<
    CredentialsView,
> {
    let password = match auth.password {
        Some(password) => password,
        None => Seq::empty(),
    };
    match auth.auth_type {
        AuthType::SqlServer => Some(CredentialsView::SqlServer { user: auth.username, password }),
        AuthType::Windows => if platform.integrated_auth {
            Some(CredentialsView::Windows { user: auth.username, password })
        } else {
            None
        },
        _ => None,
    }
}

/// The user and the password of an authentication, exactly as they are
/// configured, where it asks for a login by user and password that the
/// platform has.
pub fn obtain_config_credentials(auth: &Authentication, platform: Platform) -> (credentials: Option<
    Credentials<'_>,
>)
    ensures
        match credentials {
            Some(credentials) => credentials_of(auth@, platform) == Some(credentials@),
            None => credentials_of(auth@, platform).is_none(),
        },
{
    proof {
        reveal_strlit("");
    }
    let password = match &auth.password {
        Some(password) => password.as_str(),
        None => "",
    };
    assert(auth@.password.is_none() ==> password@ =~= Seq::<char>::empty());
    match auth.auth_type {
        AuthType::SqlServer => Some(
            Credentials::SqlServer { user: auth.username.as_str(), password },
        ),
        AuthType::Windows => if platform.integrated_auth {
            Some(Credentials::Windows { user: auth.username.as_str(), password })
        } else {
            None
        },
        _ => None,
    }
}

/// Starts the attempt to reach a server on the network. Encryption is
/// required at first. Where the platform allows it, a failure which shows
/// that the server does not support encryption is answered by one more try
/// without encryption, and by no further one. Any other failure is final.
pub fn create_remote(config: DriverConfig, platform: Platform) -> (attempt: Attempt)
    ensures
        attempt@ == remote_attempt(config@, platform),
{
    Attempt::open(config.with_encryption(Encryption::Required), false, platform.plaintext_fallback)
}

/// Starts the attempt to reach a named instance of this host through the SQL
/// Server Browser. A platform that cannot find named instances starts none.
pub fn create_instance_local(config: DriverConfig, platform: Platform) -> (attempt: Result<
    Attempt,
    ConnectError,
>)
    ensures
        outcome_view(attempt) == instance_attempt(config@, platform),
{
    if platform.local_discovery {
        Ok(Attempt::open(config, true, false))
    } else {
        Err(ConnectError::UnsupportedTopology)
    }
}

/// Starts the attempt to reach a server by its address, with the settings as
/// they are.
pub fn connect_via_tcp(config: DriverConfig) -> (attempt: Attempt)
    ensures
        attempt@ == AttemptView::open(config@, false, false),
{
    Attempt::open(config, false, false)
}

/// The attempt, limited to a number of seconds, if there is one.
pub open spec fn limited(outcome: Result<AttemptView, ConnectErrorView>, seconds: u64) -> Result<
    AttemptView,
    ConnectErrorView,
> {
    match outcome {
        Ok(attempt) => Ok(AttemptView { deadline: Some(seconds), ..attempt }),
        Err(error) => Err(error),
    }
}

/// The attempt that an endpoint starts on a port, or why it starts none.
///
/// A login by user and password goes to the host of the endpoint, with the
/// credentials of the endpoint; without credentials nothing is started. The
/// identity of the running session goes to the default instance of this
/// host, where the platform has such an identity. No other way to
/// authenticate starts anything. An attempt that is started has as many
/// seconds as the endpoint gives it.
pub open spec fn endpoint_attempt(endpoint: EndpointView, port: u16, platform: Platform) -> Result<
    AttemptView,
    ConnectErrorView,
> {
    let builder = ClientBuilderView {
        certificate: endpoint.conn.client_certificate,
        trust_server_certificate: endpoint.conn.trust_server_certificate,
        ..ClientBuilderView::fresh()
    };
    match endpoint.auth.auth_type {
        AuthType::SqlServer | AuthType::Windows => match credentials_of(endpoint.auth, platform) {
            Some(credentials) => limited(
                builder.with_topology(
                    TopologyView::Remote {
                        host: endpoint.conn.hostname,
                        port: Some(port),
                        credentials,
                    },
                ).attempt(platform),
                endpoint.conn.timeout,
            ),
            None => Err(ConnectErrorView::MissingCredentials),
        },
        AuthType::Integrated => if platform.integrated_auth {
            limited(
                builder.with_topology(TopologyView::Local { port: Some(port) }).attempt(platform),
                endpoint.conn.timeout,
            )
        } else {
            Err(ConnectErrorView::UnsupportedAuthType(Refusal::AuthType))
        },
        AuthType::Token => Err(ConnectErrorView::UnsupportedAuthType(Refusal::AuthType)),
    }
}

/// Starts the attempt to connect to an endpoint, on the port that the
/// endpoint is configured with.
pub fn connect_main_endpoint(endpoint: &Endpoint, platform: Platform) -> (attempt: Result<
    Attempt,
    ConnectError,
>)
    ensures
        outcome_view(attempt) == endpoint_attempt(endpoint@, endpoint@.conn.port, platform),
{
    connect_custom_endpoint(endpoint, endpoint.port(), platform)
}

/// Starts the attempt to connect to an endpoint, on a port of the caller's
/// choice. An endpoint that asks for a login by user and password and has no
/// credentials starts nothing: no socket is ever asked for.
pub fn connect_custom_endpoint(endpoint: &Endpoint, port: Port, platform: Platform) -> (attempt:
    Result<Attempt, ConnectError>)
    ensures
        outcome_view(attempt) == endpoint_attempt(endpoint@, port.0, platform),
        (endpoint@.auth.auth_type == AuthType::SqlServer || endpoint@.auth.auth_type
            == AuthType::Windows) && credentials_of(endpoint@.auth, platform).is_none()
            ==> attempt == Err::<Attempt, ConnectError>(ConnectError::MissingCredentials),
{
    let (auth, conn) = endpoint.split();
    let certificate = match &conn.tls {
        Some(tls) => Some(CertPath(tls.client_certificate.clone())),
        None => None,
    };
    let started = match auth.auth_type {
        AuthType::SqlServer | AuthType::Windows => {
            match obtain_config_credentials(auth, platform) {
                Some(credentials) => ClientBuilder::new().remote(
                    &conn.hostname,
                    Some(port),
                    credentials,
                ).certificate(certificate).trust_server_certificate(
                    conn.trust_server_certificate,
                ).build(platform),
                None => {
                    return Err(ConnectError::MissingCredentials);
                },
            }
        },
        AuthType::Integrated => {
            if !platform.integrated_auth {
                return Err(ConnectError::UnsupportedAuthType(Refusal::AuthType));
            }
            ClientBuilder::new().local(Some(port)).certificate(
                certificate,
            ).trust_server_certificate(conn.trust_server_certificate).build(platform)
        },
        AuthType::Token => {
            return Err(ConnectError::UnsupportedAuthType(Refusal::AuthType));
        },
    };
    match started {
        Ok(attempt) => Ok(attempt.with_deadline(conn.timeout)),
        Err(error) => Err(error),
    }
}

/// Of two places to connect to that a builder is told one after the other,
/// only the second counts: the builder, its settings and its attempt are
/// those of a builder that was told the second alone.
pub proof fn lemma_last_topology_wins(
    builder: ClientBuilderView,
    first: TopologyView,
    second: TopologyView,
    platform: Platform,
)
    ensures
        builder.with_topology(first).with_topology(second) == builder.with_topology(second),
        builder.with_topology(first).with_topology(second).config(platform)
            == builder.with_topology(second).config(platform),
        builder.with_topology(first).with_topology(second).attempt(platform)
            == builder.with_topology(second).attempt(platform),
{
}

/// A builder that was not told where to connect gives no settings and starts
/// no attempt, whatever else it was told.
pub proof fn lemma_no_topology_no_config(builder: ClientBuilderView, platform: Platform)
    requires
        builder.client_connection.is_none(),
    ensures
        builder.config(platform) == Err::<DriverConfigView, ConnectErrorView>(
            ConnectErrorView::NoTopology,
        ),
        builder.attempt(platform) == Err::<AttemptView, ConnectErrorView>(
            ConnectErrorView::NoTopology,
        ),
{
}

} // verus!
