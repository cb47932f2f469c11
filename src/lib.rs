//! Control logic of a harness that deploys a SQL-caching topology (an upstream database, cache
//! servers and adapters), drives it, and checks what an outside observer can see: where a
//! query was served, whether results converge, and whether replication artifacts are removed.
//!
//! - `topology`: the specification of what a deployment launches.
//! - `lifecycle`: the deployment state machine, from build through start to teardown.
//! - `routing`: decoding where the previous statement was served.
//! - `artifacts`: reading the catalog lookups of replication slots and publications.
//! - `eventually`: the retry-until-accepted state machine for asynchronous convergence.
//!
//! Every decision here is a function of plain values; the caller performs the I/O it asks for.

pub mod artifacts;
pub mod eventually;
pub mod lifecycle;
pub mod routing;
pub mod topology;
