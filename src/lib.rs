//! Resolution of shortened URLs by walking their HTTP redirect chain.
//!
//! The network is not touched here. A caller probes each URL that the
//! [`resolver::Resolver`] names, hands back what came of the probe, and is told
//! whether to follow a redirect or stop with a final result.

mod location;

pub mod chain;
pub mod identity;
pub mod report;
pub mod resolver;
pub mod status;
