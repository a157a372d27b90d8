//! Names and numbers that describe where a server is.

use vstd::prelude::*;
use vstd::std_specs::convert::FromSpecImpl;

verus! {

/// The port that SQL Server listens on unless told otherwise.
pub const STANDARD_PORT: u16 = 1433;

/// The port of the SQL Server Browser, which knows the ports of the named
/// instances of a host.
pub const SQL_BROWSER_PORT: u16 = 1434;

/// A TCP port.
#[derive(Debug, Clone, Copy, PartialEq, Eq, Structural)]
pub struct Port(pub u16);

impl Port {
    /// The number of the port.
    pub fn value(&self) -> (r: u16)
        ensures
            r == self.0,
    {
        self.0
    }
}

impl From<u16> for Port {
    fn from(value: u16) -> (r: Port) {
        Port(value)
    }
}

impl FromSpecImpl<u16> for Port {
    open spec fn obeys_from_spec() -> bool {
        true
    }

    open spec fn from_spec(value: u16) -> Port {
        Port(value)
    }
}

/// The name or address of a host.
#[derive(Debug, PartialEq, Eq)]
pub struct HostName(pub String);

impl Clone for HostName {
    fn clone(&self) -> (copy: HostName)
        ensures
            copy == *self,
    {
        HostName(self.0.clone())
    }
}

impl View for HostName {
    type V = Seq<char>;

    open spec fn view(&self) -> Seq<char> {
        self.0@
    }
}

impl HostName {
    /// The name as text.
    pub fn as_str(&self) -> (r: &str)
        ensures
            r@ == self@,
    {
        self.0.as_str()
    }
}

impl From<String> for HostName {
    fn from(value: String) -> (r: HostName) {
        HostName(value)
    }
}

impl FromSpecImpl<String> for HostName {
    open spec fn obeys_from_spec() -> bool {
        true
    }

    open spec fn from_spec(value: String) -> HostName {
        HostName(value)
    }
}

/// The name of an instance of SQL Server on a host.
#[derive(Debug, PartialEq, Eq)]
pub struct InstanceName(pub String);

impl Clone for InstanceName {
    fn clone(&self) -> (copy: InstanceName)
        ensures
            copy == *self,
    {
        InstanceName(self.0.clone())
    }
}

impl View for InstanceName {
    type V = Seq<char>;

    open spec fn view(&self) -> Seq<char> {
        self.0@
    }
}

impl InstanceName {
    /// The name as text.
    pub fn as_str(&self) -> (r: &str)
        ensures
            r@ == self@,
    {
        self.0.as_str()
    }
}

impl From<String> for InstanceName {
    fn from(value: String) -> (r: InstanceName) {
        InstanceName(value)
    }
}

impl FromSpecImpl<String> for InstanceName {
    open spec fn obeys_from_spec() -> bool {
        true
    }

    open spec fn from_spec(value: String) -> InstanceName {
        InstanceName(value)
    }
}

/// The path of a certificate file.
#[derive(Debug, PartialEq, Eq)]
pub struct CertPath(pub String);

impl Clone for CertPath {
    fn clone(&self) -> (copy: CertPath)
        ensures
            copy == *self,
    {
        CertPath(self.0.clone())
    }
}

impl View for CertPath {
    type V = Seq<char>;

    open spec fn view(&self) -> Seq<char> {
        self.0@
    }
}

impl CertPath {
    /// The path as text.
    pub fn as_str(&self) -> (r: &str)
        ensures
            r@ == self@,
    {
        self.0.as_str()
    }
}

impl From<String> for CertPath {
    fn from(value: String) -> (r: CertPath) {
        CertPath(value)
    }
}

impl FromSpecImpl<String> for CertPath {
    open spec fn obeys_from_spec() -> bool {
        true
    }

    open spec fn from_spec(value: String) -> CertPath {
        CertPath(value)
    }
}

} // verus!
