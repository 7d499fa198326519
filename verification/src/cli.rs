//! Command-line inputs and the listening port.

use vstd::prelude::*;

verus! {

/// The port used when neither the command line nor the store names one.
pub const DEFAULT_PORT: u16 = 9527;

/// What the command line can override.
#[derive(Clone, Copy, Debug)]
pub struct Args {
    /// Port to listen on; the stored or default port when absent.
    pub port: Option<u16>,
    /// Whether to register the supervisor to start at login.
    pub auto_launch: bool,
    /// Whether to download from the official release host.
    pub github_download: bool,
}

/// The TCP port shared by the control surface and the managed web binary.
#[derive(Clone, Copy, Debug, PartialEq, Eq, Structural)]
pub struct Port {
    port: u16,
}

/// The settings handed to the managed web binary.
#[derive(Clone, Copy, Debug, PartialEq, Eq, Structural)]
pub struct WebConfig {
    pub server: Port,
}

impl Port {
    /// The number this port stands for.
    pub closed spec fn value(self) -> u16 {
        self.port
    }

    pub fn new(port: u16) -> (r: Self)
        ensures
            r.value() == port,
    {
        Port { port }
    }

    pub fn get_value(&self) -> (r: u16)
        ensures
            r == self.value(),
    {
        self.port
    }
}

impl Default for Port {
    fn default() -> (r: Self)
        ensures
            r.value() == DEFAULT_PORT,
    {
        Port { port: DEFAULT_PORT }
    }
}

/// Two ports are the same port exactly when their numbers agree.
pub proof fn port_equality_is_by_value(a: Port, b: Port)
    ensures
        (a == b) <==> (a.value() == b.value()),
{
}

} // verus!
