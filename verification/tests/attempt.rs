use mk_sql::attempt::{Action, Attempt, Event, Phase};
use mk_sql::client::{
    connect_main_endpoint, connect_via_tcp, create_instance_local, create_remote, ClientBuilder,
    Credentials,
};
use mk_sql::config::{AuthType, Authentication, Connection, Endpoint};
use mk_sql::driver::{AuthMethod, DriverConfig, Encryption, Trust};
use mk_sql::error::{ConnectError, SQL_LOGIN_ERROR_TAG, SQL_TCP_ERROR_TAG};
use mk_sql::platform::Platform;
use mk_sql::text::decimal_string;
use mk_sql::types::{HostName, InstanceName};

fn sql_server_endpoint() -> Endpoint {
    Endpoint {
        auth: Authentication {
            username: "bad_user".to_owned(),
            password: Some("bad_password".to_owned()),
            auth_type: AuthType::from_tag("sql_server").unwrap(),
        },
        conn: Connection {
            hostname: "localhost".to_owned().into(),
            port: 65345u16.into(),
            timeout: 1,
            tls: None,
            trust_server_certificate: true,
        },
    }
}

fn settings(host: Option<&str>, port: u16) -> DriverConfig {
    DriverConfig {
        host: host.map(|h| h.to_owned()),
        port,
        database: None,
        instance_name: None,
        encryption: Encryption::DriverDefault,
        trust: Trust::TrustAll,
        auth: AuthMethod::SqlServer {
            user: "u".to_owned(),
            password: "p".to_owned(),
        },
    }
}

fn socket_failed(cause: &str) -> Event {
    Event::SocketFailed {
        cause: cause.to_owned(),
        encryption_unsupported: false,
    }
}

fn login_failed(cause: &str) -> Event {
    Event::LoginFailed {
        cause: cause.to_owned(),
        encryption_unsupported: false,
    }
}

fn encryption_refused(cause: &str) -> Event {
    Event::LoginFailed {
        cause: cause.to_owned(),
        encryption_unsupported: true,
    }
}

fn remote_attempt(platform: Platform) -> Attempt {
    let host: HostName = "host".to_owned().into();
    ClientBuilder::new()
        .remote(
            &host,
            Some(123u16.into()),
            Credentials::SqlServer {
                user: "u",
                password: "p",
            },
        )
        .build(platform)
        .unwrap()
}

#[test]
fn test_create_client_from_config_timeout() {
    let refused = "Connection refused (os error 111)";
    let attempt = connect_main_endpoint(&sql_server_endpoint(), Platform::unix()).unwrap();
    let (_, action) = attempt.step(socket_failed(refused));
    let s = match action {
        Action::Fail(failure) => failure.to_string(),
        other => panic!("{other:?}"),
    };
    assert!(s.contains("Connection refused"), "{s}");

    let attempt = connect_main_endpoint(&sql_server_endpoint(), Platform::windows()).unwrap();
    let (_, action) = attempt.step(Event::TimedOut("deadline has elapsed".to_owned()));
    let s = match action {
        Action::Fail(failure) => failure.to_string(),
        other => panic!("{other:?}"),
    };
    assert!(s.contains("Timeout: "), "{s}");
}

#[test]
fn address_comes_from_the_driver() {
    assert_eq!(settings(Some("host"), 123).address(), "host:123");
    assert_eq!(settings(Some("10.1.2.3"), 65345).address(), "10.1.2.3:65345");
    assert_eq!(settings(None, 1433).address(), "localhost:1433");
    assert_eq!(settings(Some("."), 1434).address(), "localhost:1434");
    assert_eq!(
        remote_attempt(Platform::unix()).action(),
        Action::OpenSocket {
            address: "host:123".to_owned(),
            warning: None
        }
    );
}

#[test]
fn remote_attempt_requires_encryption_first() {
    for platform in [Platform::unix(), Platform::windows()] {
        let attempt = remote_attempt(platform);
        assert_eq!(attempt.phase(), &Phase::Opening);
        assert!(!attempt.is_finished());
        assert_eq!(attempt.deadline(), None);
        assert_eq!(attempt.config().encryption, Encryption::Required);
        let (attempt, action) = attempt.step(Event::SocketOpened);
        assert_eq!(attempt.phase(), &Phase::Handshaking);
        assert_eq!(
            action,
            Action::Handshake {
                config: settings(Some("host"), 123).with_encryption(Encryption::Required)
            }
        );
        let (attempt, action) = attempt.step(Event::LoggedIn);
        assert_eq!(action, Action::Succeed);
        assert_eq!(attempt.phase(), &Phase::Connected);
        assert!(attempt.is_finished());
    }
}

#[test]
fn fallback_happens_once_and_can_connect() {
    let attempt = remote_attempt(Platform::unix());
    let (attempt, _) = attempt.step(Event::SocketOpened);
    let (attempt, action) = attempt.step(encryption_refused("encryption is not supported"));
    assert_eq!(
        action,
        Action::OpenSocket {
            address: "host:123".to_owned(),
            warning: Some(
                "Encryption is not supported by the host, err is [SQL LOGIN ERROR] encryption \
                 is not supported. Trying without encryption..."
                    .to_owned()
            ),
        }
    );
    assert_eq!(attempt.phase(), &Phase::Opening);
    assert_eq!(attempt.config().encryption, Encryption::NotSupported);
    let (attempt, action) = attempt.step(Event::SocketOpened);
    assert_eq!(
        action,
        Action::Handshake {
            config: settings(Some("host"), 123).with_encryption(Encryption::NotSupported)
        }
    );
    let (attempt, action) = attempt.step(Event::LoggedIn);
    assert_eq!(action, Action::Succeed);
    assert_eq!(attempt.phase(), &Phase::Connected);
}

#[test]
fn second_failure_is_final() {
    let attempt = remote_attempt(Platform::unix());
    let (attempt, _) = attempt.step(Event::SocketOpened);
    let (attempt, action) = attempt.step(encryption_refused("first"));
    assert!(matches!(action, Action::OpenSocket { .. }));
    let (attempt, action) = attempt.step(Event::SocketOpened);
    assert!(matches!(action, Action::Handshake { .. }));
    let (attempt, action) = attempt.step(encryption_refused("second"));
    let failure = ConnectError::Login {
        cause: "second".to_owned(),
    };
    assert_eq!(action, Action::Fail(failure.clone()));
    assert_eq!(attempt.phase(), &Phase::Failed(failure.clone()));
    assert!(attempt.is_finished());
    let mut attempt = attempt;
    for event in [
        Event::SocketOpened,
        socket_failed("x"),
        Event::LoggedIn,
        login_failed("x"),
        encryption_refused("x"),
        Event::TimedOut("x".to_owned()),
    ] {
        let (next, action) = attempt.step(event);
        assert_eq!(action, Action::Fail(failure.clone()));
        assert_eq!(next.phase(), &Phase::Failed(failure.clone()));
        attempt = next;
    }
}

#[test]
fn other_failures_are_final() {
    let attempt = remote_attempt(Platform::unix());
    let (attempt, action) = attempt.step(socket_failed("Connection refused"));
    let failure = ConnectError::Tcp {
        address: "host:123".to_owned(),
        cause: "Connection refused".to_owned(),
    };
    assert_eq!(action, Action::Fail(failure.clone()));
    assert_eq!(attempt.phase(), &Phase::Failed(failure));
    assert_eq!(attempt.config().encryption, Encryption::Required);

    let attempt = remote_attempt(Platform::unix());
    let (attempt, _) = attempt.step(Event::SocketOpened);
    let (attempt, action) = attempt.step(login_failed("wrong password"));
    let failure = ConnectError::Login {
        cause: "wrong password".to_owned(),
    };
    assert_eq!(action, Action::Fail(failure.clone()));
    assert_eq!(attempt.phase(), &Phase::Failed(failure));
    assert_eq!(attempt.config().encryption, Encryption::Required);
}

#[test]
fn a_socket_can_show_missing_encryption_too() {
    let attempt = remote_attempt(Platform::unix());
    let (attempt, action) = attempt.step(Event::SocketFailed {
        cause: "no tls".to_owned(),
        encryption_unsupported: true,
    });
    assert_eq!(
        action,
        Action::OpenSocket {
            address: "host:123".to_owned(),
            warning: Some(
                "Encryption is not supported by the host, err is [SQL TCP ERROR] \
                 address:host:123 error:`no tls`. Trying without encryption..."
                    .to_owned()
            ),
        }
    );
    assert_eq!(attempt.config().encryption, Encryption::NotSupported);
}

#[test]
fn no_fallback_where_the_platform_forbids_it() {
    let attempt = remote_attempt(Platform::windows());
    let (attempt, _) = attempt.step(Event::SocketOpened);
    let (attempt, action) = attempt.step(encryption_refused("no tls"));
    let failure = ConnectError::Login {
        cause: "no tls".to_owned(),
    };
    assert_eq!(action, Action::Fail(failure.clone()));
    assert_eq!(attempt.phase(), &Phase::Failed(failure));
    assert_eq!(attempt.config().encryption, Encryption::Required);

    let attempt = remote_attempt(Platform::windows());
    let (attempt, action) = attempt.step(socket_failed("refused"));
    let failure = ConnectError::Tcp {
        address: "host:123".to_owned(),
        cause: "refused".to_owned(),
    };
    assert_eq!(action, Action::Fail(failure.clone()));
    assert_eq!(attempt.phase(), &Phase::Failed(failure.clone()));
    assert_eq!(
        failure.to_string(),
        "[SQL TCP ERROR] address:host:123 error:`refused`"
    );
    assert_eq!(failure.tag(), Some(SQL_TCP_ERROR_TAG));
    assert_eq!(attempt.config().encryption, Encryption::Required);

    let attempt = remote_attempt(Platform::windows());
    let (attempt, _) = attempt.step(Event::SocketOpened);
    let (attempt, action) = attempt.step(login_failed("bad password"));
    let failure = ConnectError::Login {
        cause: "bad password".to_owned(),
    };
    assert_eq!(action, Action::Fail(failure.clone()));
    assert!(attempt.is_finished());
    assert_eq!(failure.to_string(), "[SQL LOGIN ERROR] bad password");
    assert_eq!(failure.tag(), Some(SQL_LOGIN_ERROR_TAG));
}

#[test]
fn local_attempts_do_not_fall_back() {
    let attempt = connect_via_tcp(settings(None, 1433));
    assert_eq!(
        attempt.action(),
        Action::OpenSocket {
            address: "localhost:1433".to_owned(),
            warning: None
        }
    );
    assert_eq!(attempt.config().encryption, Encryption::DriverDefault);
    let (attempt, action) = attempt.step(Event::SocketFailed {
        cause: "refused".to_owned(),
        encryption_unsupported: true,
    });
    assert_eq!(
        action,
        Action::Fail(ConnectError::Tcp {
            address: "localhost:1433".to_owned(),
            cause: "refused".to_owned()
        })
    );
    assert!(attempt.is_finished());

    let attempt = ClientBuilder::new()
        .local(None)
        .build(Platform::windows())
        .unwrap();
    let (attempt, _) = attempt.step(Event::SocketOpened);
    let (_, action) = attempt.step(encryption_refused("no"));
    assert_eq!(
        action,
        Action::Fail(ConnectError::Login {
            cause: "no".to_owned()
        })
    );
}

#[test]
fn create_remote_follows_the_platform() {
    let allowed = create_remote(settings(Some("h"), 1), Platform::unix());
    assert_eq!(allowed.config().encryption, Encryption::Required);
    let (allowed, _) = allowed.step(Event::SocketOpened);
    let (_, action) = allowed.step(encryption_refused("x"));
    assert!(matches!(action, Action::OpenSocket { .. }));
    let forbidden = create_remote(settings(Some("h"), 1), Platform::windows());
    let (forbidden, _) = forbidden.step(Event::SocketOpened);
    let (_, action) = forbidden.step(encryption_refused("x"));
    assert!(matches!(action, Action::Fail(_)));
}

#[test]
fn named_instance_is_found_through_the_browser() {
    let instance: InstanceName = "INST".to_owned().into();
    let builder = ClientBuilder::new().local_instance(&instance, None);
    assert_eq!(
        builder.clone().build(Platform::unix()).unwrap_err(),
        ConnectError::UnsupportedTopology
    );
    let attempt = builder.build(Platform::windows()).unwrap();
    let config = DriverConfig {
        host: Some("localhost".to_owned()),
        port: 1434,
        database: None,
        instance_name: Some("INST".to_owned()),
        encryption: Encryption::DriverDefault,
        trust: Trust::TrustAll,
        auth: AuthMethod::Integrated,
    };
    assert_eq!(
        attempt.action(),
        Action::Discover {
            config: config.clone()
        }
    );
    let (opened, action) = attempt.step(Event::SocketOpened);
    assert_eq!(
        action,
        Action::Handshake {
            config: config.clone()
        }
    );
    let (_, action) = opened.step(login_failed("denied"));
    assert_eq!(
        action,
        Action::Fail(ConnectError::Login {
            cause: "denied".to_owned()
        })
    );

    let attempt = create_instance_local(config.clone(), Platform::windows()).unwrap();
    let (attempt, action) = attempt.step(socket_failed("no browser"));
    let failure = ConnectError::Discovery {
        instance_name: "INST".to_owned(),
        cause: "no browser".to_owned(),
    };
    assert_eq!(action, Action::Fail(failure.clone()));
    assert!(attempt.is_finished());
    assert_eq!(failure.to_string(), "[SQL TCP ERROR] no browser");
    assert_eq!(failure.tag(), Some(SQL_TCP_ERROR_TAG));
    assert_eq!(
        create_instance_local(config, Platform::unix()).unwrap_err(),
        ConnectError::UnsupportedTopology
    );
}

#[test]
fn timeout_names_the_configured_seconds() {
    let attempt = connect_main_endpoint(&sql_server_endpoint(), Platform::unix()).unwrap();
    assert_eq!(attempt.deadline(), Some(1));
    let (attempt, action) = attempt.step(Event::TimedOut("deadline has elapsed".to_owned()));
    let failure = ConnectError::Timeout {
        configured_timeout: 1,
        cause: "deadline has elapsed".to_owned(),
    };
    assert_eq!(action, Action::Fail(failure.clone()));
    assert_eq!(attempt.phase(), &Phase::Failed(failure.clone()));
    assert_eq!(
        failure.to_string(),
        "Timeout: deadline has elapsed when creating client from config 1s"
    );
    assert_eq!(failure.tag(), None);

    let late = remote_attempt(Platform::unix()).with_deadline(120);
    let (late, _) = late.step(Event::SocketOpened);
    let (_, action) = late.step(Event::TimedOut("late".to_owned()));
    match action {
        Action::Fail(failure) => assert_eq!(
            failure.to_string(),
            "Timeout: late when creating client from config 120s"
        ),
        other => panic!("{other:?}"),
    }
}

#[test]
fn timeout_ends_a_second_try_too() {
    let attempt = remote_attempt(Platform::unix()).with_deadline(5);
    let (attempt, _) = attempt.step(Event::SocketOpened);
    let (attempt, action) = attempt.step(encryption_refused("first"));
    assert!(matches!(action, Action::OpenSocket { .. }));
    let (attempt, action) = attempt.step(Event::TimedOut("over".to_owned()));
    assert_eq!(
        action,
        Action::Fail(ConnectError::Timeout {
            configured_timeout: 5,
            cause: "over".to_owned()
        })
    );
    assert!(attempt.is_finished());
}

#[test]
fn events_out_of_turn_change_nothing() {
    let attempt = remote_attempt(Platform::unix());
    let start = attempt.action();
    let (attempt, action) = attempt.step(Event::LoggedIn);
    assert_eq!(action, start);
    let (attempt, action) = attempt.step(encryption_refused("x"));
    assert_eq!(action, start);
    let (attempt, action) = attempt.step(Event::TimedOut("x".to_owned()));
    assert_eq!(action, start);
    assert_eq!(attempt.phase(), &Phase::Opening);
    let (attempt, login) = attempt.step(Event::SocketOpened);
    let (attempt, action) = attempt.step(Event::SocketOpened);
    assert_eq!(action, login);
    let (attempt, action) = attempt.step(Event::SocketFailed {
        cause: "x".to_owned(),
        encryption_unsupported: true,
    });
    assert_eq!(action, login);
    assert_eq!(attempt.phase(), &Phase::Handshaking);
    let (attempt, _) = attempt.step(Event::LoggedIn);
    let (attempt, action) = attempt.step(login_failed("x"));
    assert_eq!(action, Action::Succeed);
    assert_eq!(attempt.phase(), &Phase::Connected);
}

#[test]
fn numbers_in_decimal() {
    assert_eq!(decimal_string(0), "0");
    assert_eq!(decimal_string(9), "9");
    assert_eq!(decimal_string(10), "10");
    assert_eq!(decimal_string(1234567890), "1234567890");
    assert_eq!(decimal_string(65345), "65345");
    assert_eq!(decimal_string(u64::MAX), "18446744073709551615");
}

#[test]
fn tags_are_stable() {
    assert_eq!(SQL_LOGIN_ERROR_TAG, "[SQL LOGIN ERROR]");
    assert_eq!(SQL_TCP_ERROR_TAG, "[SQL TCP ERROR]");
}
