//! Supervisor core of a desktop shell that runs a local backend worker:
//! port allocation and publication, the worker's launch arguments, and the
//! classification of the worker's output events.

pub mod decimal;
pub mod port;
pub mod state;
pub mod sidecar;
pub mod startup;
