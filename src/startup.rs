//! The startup sequence: take the allocated port, publish it, and prepare
//! the worker's launch on it.

use vstd::prelude::*;
use crate::port::{accept_assigned_port, allocation_result, PortAllocationError};
use crate::sidecar::{arg_views, launch_args, Phase, SidecarSupervisor};
use crate::state::SharedPortState;

verus! {

/// Runs the startup steps that come between allocating the port and
/// launching the worker. `assigned` is the port read back from the
/// ephemeral listener (`None` when binding failed). On success the port is
/// published in `state` and the worker's arguments are returned; on failure
/// nothing is published and the worker is not launched.
pub fn prepare_launch(
    assigned: Option<u16>,
    state: &mut SharedPortState,
    supervisor: &mut SidecarSupervisor,
) -> (r: Result<Vec<String>, PortAllocationError>)
    requires
        old(state)@ is None,
        old(supervisor)@ == Phase::NotStarted,
    ensures
        match allocation_result(assigned) {
            Ok(p) => {
                &&& r matches Ok(a) && arg_views(a@) == launch_args(p)
                &&& final(state)@ == Some(p)
                &&& final(supervisor)@ == Phase::Spawning
            },
            Err(e) => {
                &&& r == Err::<Vec<String>, PortAllocationError>(e)
                &&& final(state)@ is None
                &&& final(supervisor)@ == Phase::NotStarted
            },
        },
{
    match accept_assigned_port(assigned) {
        Err(e) => Err(e),
        Ok(port) => {
            state.initialize(port);
            Ok(supervisor.begin_spawn(port).unwrap())
        },
    }
}

} // verus!
