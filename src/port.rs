//! Acceptance of the port that the operating system assigned to an
//! ephemeral loopback listener.

use vstd::prelude::*;

verus! {

/// A TCP port number.
pub type Port = u16;

/// The port value that stands for "not yet published".
pub const SENTINEL_PORT: u16 = 0;

/// Why no port could be obtained for the worker.
#[derive(Clone, Copy, Debug, PartialEq, Eq, Structural)]
pub enum PortAllocationError {
    /// The loopback listener could not be bound, or its address not read back.
    BindFailed,
    /// The listener reported port 0, which no worker can be told to use.
    NoPortAssigned,
}

/// A port that a worker can be told to listen on.
pub open spec fn is_usable_port(p: u16) -> bool {
    p != SENTINEL_PORT
}

/// What the allocator returns for the port read back from the listener
/// (`None` when binding or reading the address failed).
pub open spec fn allocation_result(assigned: Option<u16>) -> Result<u16, PortAllocationError> {
    match assigned {
        None => Err(PortAllocationError::BindFailed),
        Some(p) => if is_usable_port(p) {
            Ok(p)
        } else {
            Err(PortAllocationError::NoPortAssigned)
        },
    }
}

/// Turns the outcome of binding a loopback listener on port 0 into the
/// allocated port. Every port it returns lies in 1..=65535.
pub fn accept_assigned_port(assigned: Option<u16>) -> (r: Result<u16, PortAllocationError>)
    ensures
        r == allocation_result(assigned),
        r matches Ok(p) ==> 1 <= p <= 65535,
{
    match assigned {
        None => Err(PortAllocationError::BindFailed),
        Some(p) => {
            if p == SENTINEL_PORT {
                Err(PortAllocationError::NoPortAssigned)
            } else {
                Ok(p)
            }
        },
    }
}

} // verus!
