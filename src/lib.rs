//! A process-launching shim: reads a sidecar descriptor, builds the child's
//! command line, relays the child's output streams and decides how the shim
//! itself terminates.

pub mod config;
pub mod launch;
pub mod relay;
pub mod supervisor;
