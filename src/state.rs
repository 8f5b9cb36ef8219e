//! The published port: written once at startup, then read by anyone.
//!
//! Writing takes `&mut self` and reading `&self`, so once the cell is shared
//! by reference no write can overlap a read: every reader sees either the
//! sentinel (before publication) or the whole published port.

use vstd::prelude::*;
use crate::port::{is_usable_port, SENTINEL_PORT};

verus! {

/// What a read of a cell with contents `v` returns: the published port, or
/// the sentinel 0 before publication.
pub open spec fn observed(v: Option<u16>) -> u16 {
    match v {
        Some(p) => p,
        None => SENTINEL_PORT,
    }
}

/// Single-writer, many-reader cell holding the worker's port.
pub struct SharedPortState {
    port: u16,
}

impl View for SharedPortState {
    /// `None` before publication, `Some(p)` once `p` is published.
    type V = Option<u16>;

    closed spec fn view(&self) -> Option<u16> {
        if self.port == SENTINEL_PORT {
            None
        } else {
            Some(self.port)
        }
    }
}

impl SharedPortState {
    /// A cell with no port published yet.
    pub fn new() -> (s: Self)
        ensures
            s@ == None::<u16>,
    {
        SharedPortState { port: SENTINEL_PORT }
    }

    /// Whether a port has been published.
    pub fn is_initialized(&self) -> (r: bool)
        ensures
            r == self@ is Some,
    {
        self.port != SENTINEL_PORT
    }

    /// Publishes `port`. This happens once, during startup, before the cell
    /// is shared.
    pub fn initialize(&mut self, port: u16)
        requires
            old(self)@ is None,
            is_usable_port(port),
        ensures
            final(self)@ == Some(port),
    {
        self.port = port;
    }

    /// The published port, or the sentinel 0 before publication.
    pub fn read(&self) -> (r: u16)
        ensures
            r == observed(self@),
    {
        self.port
    }
}

impl Default for SharedPortState {
    fn default() -> (s: Self)
        ensures
            s@ == None::<u16>,
    {
        SharedPortState::new()
    }
}

/// The shell's port query: a plain read of the shared cell, which never
/// fails and never blocks.
pub fn get_api_port(state: &SharedPortState) -> (r: u16)
    ensures
        r == observed(state@),
{
    state.read()
}

/// Before publication every read returns the sentinel 0, however many
/// readers there are: a read only looks at the cell.
pub proof fn lemma_read_before_initialize(s: SharedPortState)
    requires
        s@ is None,
    ensures
        observed(s@) == 0,
{
}

/// Once `p` is published, every read returns exactly `p`, never the
/// sentinel: publication can happen only once and reads leave the cell as
/// it is.
pub proof fn lemma_read_after_initialize(before: SharedPortState, after: SharedPortState, p: u16)
    requires
        before@ is None,
        is_usable_port(p),
        after@ == Some(p),
    ensures
        observed(after@) == p,
        observed(after@) != observed(before@),
{
}

} // verus!
