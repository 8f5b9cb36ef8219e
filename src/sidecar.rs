//! The worker process's supervisor: its launch arguments, the phases of
//! the supervised process, and the routing of its output events.
//!
//! Launching the process and receiving its events is left to the caller;
//! the supervisor decides what each step means.

use vstd::prelude::*;
use crate::decimal::{decimal_digits, to_decimal};

verus! {

/// The flag that precedes the port number on the worker's command line.
pub open spec fn port_flag() -> Seq<char> {
    seq!['-', '-', 'p', 'o', 'r', 't']
}

/// The worker's full argument list for `port`: the flag, then the port in
/// decimal.
pub open spec fn launch_args(port: u16) -> Seq<Seq<char>> {
    seq![port_flag(), decimal_digits(port as nat)]
}

/// The characters of each argument.
pub open spec fn arg_views(v: Seq<String>) -> Seq<Seq<char>> {
    v.map_values(|s: String| s@)
}

/// The startup contract with the worker: which flag carries which port.
#[derive(Debug)]
pub struct LaunchConfig {
    pub flag: String,
    pub port: u16,
}

impl LaunchConfig {
    /// The configuration that tells the worker to listen on `port`.
    pub fn for_port(port: u16) -> (c: Self)
        ensures
            c.flag@ == port_flag(),
            c.port == port,
    {
        proof {
            reveal_strlit("--port");
        }
        let flag = String::from_str("--port");
        assert(flag@ =~= port_flag());
        LaunchConfig { flag, port }
    }

    /// The process arguments: the flag, then the port in decimal.
    pub fn to_args(&self) -> (r: Vec<String>)
        ensures
            arg_views(r@) == seq![self.flag@, decimal_digits(self.port as nat)],
    {
        let mut r: Vec<String> = Vec::new();
        r.push(self.flag.clone());
        r.push(to_decimal(self.port));
        assert(arg_views(r@) =~= seq![self.flag@, decimal_digits(self.port as nat)]);
        r
    }
}

/// The arguments the worker is started with when it is to listen on `port`.
pub fn sidecar_args(port: u16) -> (r: Vec<String>)
    ensures
        arg_views(r@) == launch_args(port),
{
    LaunchConfig::for_port(port).to_args()
}

/// Why the worker process could not be started.
#[derive(Clone, Copy, Debug, PartialEq, Eq, Structural)]
pub enum SidecarSpawnError {
    /// The worker executable could not be located.
    ExecutableNotFound,
    /// The operating system refused to create the process.
    SpawnRefused,
}

/// One event from the worker's output channel.
#[derive(Debug, PartialEq, Eq)]
pub enum OutputEvent {
    /// A line the worker wrote to standard output.
    Stdout(Vec<u8>),
    /// A line the worker wrote to standard error.
    Stderr(Vec<u8>),
    /// The worker ended, with its exit code and terminating signal if known.
    Exited { code: Option<i32>, signal: Option<i32> },
    /// Any other event, including a malformed one.
    Other,
}

/// Where an output event goes.
#[derive(Clone, Copy, Debug, PartialEq, Eq, Structural)]
pub enum Route {
    StdoutSink,
    StderrSink,
    Ignore,
}

/// Standard output and standard error lines go to their own sinks; every
/// other event is dropped.
pub open spec fn route_of(e: OutputEvent) -> Route {
    match e {
        OutputEvent::Stdout(_) => Route::StdoutSink,
        OutputEvent::Stderr(_) => Route::StderrSink,
        _ => Route::Ignore,
    }
}

/// Sends an output event to its sink.
pub fn classify(e: &OutputEvent) -> (r: Route)
    ensures
        r == route_of(*e),
{
    match e {
        OutputEvent::Stdout(_) => Route::StdoutSink,
        OutputEvent::Stderr(_) => Route::StderrSink,
        _ => Route::Ignore,
    }
}

/// The phases of the supervised process. There is no restart: a process
/// that has exited stays exited.
#[derive(Clone, Copy, Debug, PartialEq, Eq, Structural)]
pub enum Phase {
    NotStarted,
    Spawning,
    Running,
    Exited,
}

/// Where an event received in `phase` goes: only a running worker's output
/// is routed.
pub open spec fn route_in(phase: Phase, e: OutputEvent) -> Route {
    if phase == Phase::Running {
        route_of(e)
    } else {
        Route::Ignore
    }
}

/// The phase after the output channel closes in `phase`.
pub open spec fn phase_after_close(phase: Phase) -> Phase {
    if phase == Phase::Running {
        Phase::Exited
    } else {
        phase
    }
}

/// Owner of the worker process's lifecycle.
pub struct SidecarSupervisor {
    phase: Phase,
}

impl View for SidecarSupervisor {
    type V = Phase;

    closed spec fn view(&self) -> Phase {
        self.phase
    }
}

impl SidecarSupervisor {
    /// A supervisor whose worker has not been started.
    pub fn new() -> (s: Self)
        ensures
            s@ == Phase::NotStarted,
    {
        SidecarSupervisor { phase: Phase::NotStarted }
    }

    /// The current phase.
    pub fn phase(&self) -> (r: Phase)
        ensures
            r == self@,
    {
        self.phase
    }

    /// Starts a launch of the worker on `port`, returning the arguments to
    /// start it with. Only a worker that was never started is launched:
    /// otherwise nothing changes and `None` is returned.
    pub fn begin_spawn(&mut self, port: u16) -> (r: Option<Vec<String>>)
        ensures
            old(self)@ == Phase::NotStarted ==> {
                &&& final(self)@ == Phase::Spawning
                &&& r matches Some(a) && arg_views(a@) == launch_args(port)
            },
            old(self)@ != Phase::NotStarted ==> r is None && final(self)@ == old(self)@,
    {
        if self.phase == Phase::NotStarted {
            self.phase = Phase::Spawning;
            Some(sidecar_args(port))
        } else {
            None
        }
    }

    /// Records the operating system's answer to the launch. On success the
    /// worker runs; on failure the error is handed back and no process is
    /// left behind, so the supervisor is back where it started.
    pub fn spawn_finished(&mut self, outcome: Result<(), SidecarSpawnError>) -> (r: Result<
        (),
        SidecarSpawnError,
    >)
        requires
            old(self)@ == Phase::Spawning,
        ensures
            r == outcome,
            final(self)@ == (if outcome is Ok {
                Phase::Running
            } else {
                Phase::NotStarted
            }),
    {
        match &outcome {
            Ok(_) => {
                self.phase = Phase::Running;
            },
            Err(_) => {
                self.phase = Phase::NotStarted;
            },
        }
        outcome
    }

    /// Routes one event received from the worker's output channel.
    pub fn on_output(&self, e: &OutputEvent) -> (r: Route)
        ensures
            r == route_in(self@, *e),
    {
        if self.phase == Phase::Running {
            classify(e)
        } else {
            Route::Ignore
        }
    }

    /// Records that the output channel closed: the worker has exited and
    /// all its output has been received.
    pub fn on_channel_closed(&mut self)
        ensures
            final(self)@ == phase_after_close(old(self)@),
    {
        if self.phase == Phase::Running {
            self.phase = Phase::Exited;
        }
    }

    /// Drains a complete output stream: routes each event in the order in
    /// which it was emitted, then observes the channel's closure, after
    /// which no event is routed.
    pub fn drain(&mut self, events: &Vec<OutputEvent>) -> (routes: Vec<Route>)
        ensures
            routes@ == events@.map_values(|e: OutputEvent| route_in(old(self)@, e)),
            final(self)@ == phase_after_close(old(self)@),
    {
        let mut routes: Vec<Route> = Vec::new();
        let mut i: usize = 0;
        while i < events.len()
            invariant
                i <= events@.len(),
                self@ == old(self)@,
                routes@ =~= events@.subrange(0, i as int).map_values(
                    |e: OutputEvent| route_in(old(self)@, e),
                ),
            decreases events@.len() - i,
        {
            let r = self.on_output(&events[i]);
            routes.push(r);
            i = i + 1;
            assert(routes@ =~= events@.subrange(0, i as int).map_values(
                |e: OutputEvent| route_in(old(self)@, e),
            ));
        }
        self.on_channel_closed();
        assert(events@.subrange(0, events@.len() as int) =~= events@);
        routes
    }
}

impl Default for SidecarSupervisor {
    fn default() -> (s: Self)
        ensures
            s@ == Phase::NotStarted,
    {
        SidecarSupervisor::new()
    }
}

} // verus!
