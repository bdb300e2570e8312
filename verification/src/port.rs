//! Which port the backend listens on.
//!
//! The host asks the operating system for a free port by binding a loopback
//! socket to port 0, reading the assigned port back and closing the socket at
//! once. That is a best-effort pick, not a reservation. When the probe fails
//! the launch goes on with a fixed port instead of failing.

use vstd::prelude::*;
use vstd::string::*;

verus! {

/// The port used when the operating system assigns none.
pub const FALLBACK_PORT: u16 = 3210;

/// The loopback address: the probe binds to it, and the backend listens on it.
pub open spec fn loopback() -> Seq<char> {
    "127.0.0.1"@
}

/// The socket address that the probe binds to: the loopback address, with
/// port 0 to have the operating system assign a free one.
pub open spec fn probe_address() -> Seq<char> {
    loopback() + ":0"@
}

/// Builds the socket address that the probe binds to.
pub fn build_probe_address() -> (address: String)
    ensures
        address@ == probe_address(),
{
    let mut address = "127.0.0.1".to_owned();
    address.append(":0");
    address
}

/// How the host's probe for a free port ended.
#[derive(Clone, Copy, Debug, PartialEq, Eq, Structural)]
pub enum Probe {
    /// The socket could not be bound.
    BindFailed,
    /// The socket was bound, but its address could not be read back.
    AddressUnreadable,
    /// The operating system assigned this port.
    Assigned(u16),
}

/// The port to use after `probe`: the assigned port as it is, or the fallback
/// when the probe failed either way.
pub open spec fn chosen_port(probe: Probe) -> u16 {
    match probe {
        Probe::Assigned(port) => port,
        _ => FALLBACK_PORT,
    }
}

/// Picks the port to use after `probe`. Never fails.
pub fn choose_port(probe: Probe) -> (port: u16)
    ensures
        port == chosen_port(probe),
{
    match probe {
        Probe::Assigned(port) => port,
        Probe::BindFailed => FALLBACK_PORT,
        Probe::AddressUnreadable => FALLBACK_PORT,
    }
}

} // verus!
