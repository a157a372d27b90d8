//! What the host platform can do for a connection.

use vstd::prelude::*;

verus! {

/// The abilities of a host platform that decide how a connection is made.
#[derive(Debug, Clone, Copy, PartialEq, Eq, Structural)]
pub struct Platform {
    /// The platform can log in with the identity of a Windows account or of
    /// the running session.
    pub integrated_auth: bool,
    /// The platform can ask the SQL Server Browser for a named instance.
    pub local_discovery: bool,
    /// A remote connection that failed with encryption may be tried once
    /// more without it.
    pub plaintext_fallback: bool,
}

impl Platform {
    /// A Windows host: integrated authentication and named instances, and no
    /// connection without encryption.
    pub fn windows() -> (p: Platform)
        ensures
            p == (Platform { integrated_auth: true, local_discovery: true, plaintext_fallback: false }),
    {
        Platform { integrated_auth: true, local_discovery: true, plaintext_fallback: false }
    }

    /// A Unix host: SQL Server logins only, with a retry without encryption.
    pub fn unix() -> (p: Platform)
        ensures
            p == (Platform { integrated_auth: false, local_discovery: false, plaintext_fallback: true }),
    {
        Platform { integrated_auth: false, local_discovery: false, plaintext_fallback: true }
    }
}

} // verus!
