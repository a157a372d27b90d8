//! Why a connection attempt ended without a connection.

use vstd::prelude::*;
use crate::text::{decimal, decimal_string};

verus! {

/// Marks a failure of the login or of the protocol after the socket was open.
pub const SQL_LOGIN_ERROR_TAG: &'static str = "[SQL LOGIN ERROR]";

/// Marks a failure to reach the server over TCP.
pub const SQL_TCP_ERROR_TAG: &'static str = "[SQL TCP ERROR]";

/// Who found that a way to authenticate cannot be used.
#[derive(Debug, Clone, Copy, PartialEq, Eq, Structural)]
pub enum Refusal {
    /// The builder: the platform cannot hand its credentials to the driver.
    Credentials,
    /// The endpoint: it asks for a way to authenticate that cannot be used.
    AuthType,
}

/// A failure of a connection attempt, as mathematical values.
pub enum ConnectErrorView {
    NoTopology,
    MissingCredentials,
    UnsupportedAuthType(Refusal),
    UnsupportedTopology,
    Tcp { address: Seq<char>, cause: Seq<char> },
    Discovery { instance_name: Seq<char>, cause: Seq<char> },
    Login { cause: Seq<char> },
    Timeout { configured_timeout: u64, cause: Seq<char> },
}

impl ConnectErrorView {
    /// The message of the failure.
    pub open spec fn message(self) -> Seq<char> {
        match self {
            ConnectErrorView::NoTopology => "No client connection provided"@,
            ConnectErrorView::MissingCredentials => "Not provided credentials"@,
            ConnectErrorView::UnsupportedAuthType(Refusal::Credentials) => "not supported"@,
            ConnectErrorView::UnsupportedAuthType(Refusal::AuthType) =>
                "Not supported authorization type"@,
            ConnectErrorView::UnsupportedTopology => "not supported"@,
            ConnectErrorView::Tcp { address, cause } => SQL_TCP_ERROR_TAG@ + " address:"@ + address
                + " error:`"@ + cause + "`"@,
            ConnectErrorView::Discovery { instance_name, cause } => SQL_TCP_ERROR_TAG@ + " "@
                + cause,
            ConnectErrorView::Login { cause } => SQL_LOGIN_ERROR_TAG@ + " "@ + cause,
            ConnectErrorView::Timeout { configured_timeout, cause } => "Timeout: "@ + cause
                + " when creating client from config "@ + decimal(configured_timeout as nat)
                + "s"@,
        }
    }

    /// The tag that the message of the failure starts with, if it has one.
    pub open spec fn tag(self) -> Option<Seq<char>> {
        match self {
            ConnectErrorView::Tcp { .. } | ConnectErrorView::Discovery { .. } => Some(
                SQL_TCP_ERROR_TAG@,
            ),
            ConnectErrorView::Login { .. } => Some(SQL_LOGIN_ERROR_TAG@),
            _ => None,
        }
    }
}

/// A failure of a connection attempt.
#[derive(Debug, PartialEq, Eq)]
pub enum ConnectError {
    /// The builder was never told where to connect.
    NoTopology,
    /// A login by user and password was asked for and none could be had.
    MissingCredentials,
    /// The way to authenticate is not available. The message tells who found
    /// that out.
    UnsupportedAuthType(Refusal),
    /// The platform cannot connect to a local server in the way asked for.
    UnsupportedTopology,
    /// The server could not be reached at `address`.
    Tcp { address: String, cause: String },
    /// The named instance could not be reached through the SQL Server
    /// Browser. The failure is reported as one of TCP.
    Discovery { instance_name: String, cause: String },
    /// The server was reached and refused the login or broke the protocol.
    Login { cause: String },
    /// The attempt took longer than the configured number of seconds.
    Timeout { configured_timeout: u64, cause: String },
}

impl View for ConnectError {
    type V = ConnectErrorView;

    open spec fn view(&self) -> ConnectErrorView {
        match self {
            ConnectError::NoTopology => ConnectErrorView::NoTopology,
            ConnectError::MissingCredentials => ConnectErrorView::MissingCredentials,
            ConnectError::UnsupportedAuthType(refusal) => ConnectErrorView::UnsupportedAuthType(
                *refusal,
            ),
            ConnectError::UnsupportedTopology => ConnectErrorView::UnsupportedTopology,
            ConnectError::Tcp { address, cause } => ConnectErrorView::Tcp {
                address: address@,
                cause: cause@,
            },
            ConnectError::Discovery { instance_name, cause } => ConnectErrorView::Discovery {
                instance_name: instance_name@,
                cause: cause@,
            },
            ConnectError::Login { cause } => ConnectErrorView::Login { cause: cause@ },
            ConnectError::Timeout { configured_timeout, cause } => ConnectErrorView::Timeout {
                configured_timeout: *configured_timeout,
                cause: cause@,
            },
        }
    }
}

impl ConnectError {
    /// The message of the failure. A failure of TCP or of the login starts
    /// with its tag; a timeout names the configured number of seconds.
    pub fn to_string(&self) -> (message: String)
        ensures
            message@ == self@.message(),
    {
        match self {
            ConnectError::NoTopology => String::from_str("No client connection provided"),
            ConnectError::MissingCredentials => String::from_str("Not provided credentials"),
            ConnectError::UnsupportedAuthType(Refusal::Credentials) => String::from_str(
                "not supported",
            ),
            ConnectError::UnsupportedAuthType(Refusal::AuthType) => String::from_str(
                "Not supported authorization type",
            ),
            ConnectError::UnsupportedTopology => String::from_str("not supported"),
            ConnectError::Tcp { address, cause } => {
                let mut message = String::from_str(SQL_TCP_ERROR_TAG);
                message.append(" address:");
                message.append(address.as_str());
                message.append(" error:`");
                message.append(cause.as_str());
                message.append("`");
                message
            },
            ConnectError::Discovery { instance_name: _, cause } => {
                let mut message = String::from_str(SQL_TCP_ERROR_TAG);
                message.append(" ");
                message.append(cause.as_str());
                message
            },
            ConnectError::Login { cause } => {
                let mut message = String::from_str(SQL_LOGIN_ERROR_TAG);
                message.append(" ");
                message.append(cause.as_str());
                message
            },
            ConnectError::Timeout { configured_timeout, cause } => {
                let mut message = String::from_str("Timeout: ");
                message.append(cause.as_str());
                message.append(" when creating client from config ");
                message.append(decimal_string(*configured_timeout).as_str());
                message.append("s");
                message
            },
        }
    }

    /// The tag that the message of the failure starts with, if it has one.
    pub fn tag(&self) -> (tag: Option<&'static str>)
        ensures
            match tag {
                Some(tag) => self@.tag() == Some(tag@),
                None => self@.tag().is_none(),
            },
    {
        match self {
            ConnectError::Tcp { .. } | ConnectError::Discovery { .. } => Some(SQL_TCP_ERROR_TAG),
            ConnectError::Login { .. } => Some(SQL_LOGIN_ERROR_TAG),
            _ => None,
        }
    }
}

impl Clone for ConnectError {
    fn clone(&self) -> (copy: ConnectError)
        ensures
            copy == *self,
    {
        match self {
            ConnectError::NoTopology => ConnectError::NoTopology,
            ConnectError::MissingCredentials => ConnectError::MissingCredentials,
            ConnectError::UnsupportedAuthType(refusal) => ConnectError::UnsupportedAuthType(
                *refusal,
            ),
            ConnectError::UnsupportedTopology => ConnectError::UnsupportedTopology,
            ConnectError::Tcp { address, cause } => ConnectError::Tcp {
                address: address.clone(),
                cause: cause.clone(),
            },
            ConnectError::Discovery { instance_name, cause } => ConnectError::Discovery {
                instance_name: instance_name.clone(),
                cause: cause.clone(),
            },
            ConnectError::Login { cause } => ConnectError::Login { cause: cause.clone() },
            ConnectError::Timeout { configured_timeout, cause } => ConnectError::Timeout {
                configured_timeout: *configured_timeout,
                cause: cause.clone(),
            },
        }
    }
}

/// What a result holds, as mathematical values.
pub open spec fn outcome_view<T: View>(outcome: Result<T, ConnectError>) -> Result<
    T::V,
    ConnectErrorView,
> {
    match outcome {
        Ok(value) => Ok(value@),
        Err(error) => Err(error@),
    }
}

/// The message of a failure that has a tag starts with the tag.
pub proof fn lemma_message_starts_with_tag(error: ConnectErrorView)
    requires
        error.tag().is_some(),
    ensures
        error.tag().unwrap().is_prefix_of(error.message()),
{
    let tag = error.tag().unwrap();
    assert(error.message().subrange(0, tag.len() as int) =~= tag);
}

/// The message of a timeout holds the configured number of seconds, in
/// decimal notation, right before its last character.
pub proof fn lemma_timeout_message_names_timeout(configured_timeout: u64, cause: Seq<char>)
    ensures
        ({
            let message = (ConnectErrorView::Timeout { configured_timeout, cause }).message();
            let number = decimal(configured_timeout as nat);
            &&& message.len() > number.len()
            &&& message.subrange(message.len() - 1 - number.len(), message.len() - 1) == number
        }),
{
    reveal_strlit("s");
    let message = (ConnectErrorView::Timeout { configured_timeout, cause }).message();
    let number = decimal(configured_timeout as nat);
    assert(message.subrange(message.len() - 1 - number.len(), message.len() - 1) =~= number);
}

} // verus!
