//! A sidecar process supervisor: resolves the worker's runtime configuration
//! from layered sources, computes storage and migration paths per mode,
//! assembles the environment the worker is spawned with, relays the worker's
//! output into structured log entries, and guarantees the worker is killed
//! exactly once on shutdown.

use vstd::prelude::*;

pub mod config;
pub mod health;
pub mod launch;
pub mod lifecycle;
pub mod paths;
pub mod relay;

verus! {

/// The operating context, fixed at build time. It selects both the
/// configuration-resolution strategy and the storage-path strategy.
#[derive(Clone, Copy, PartialEq, Eq, Structural, Debug)]
pub enum RuntimeMode {
    Development,
    Production,
}

impl RuntimeMode {
    /// The name the worker sees in its environment (`NODE_ENV`).
    pub open spec fn name_spec(self) -> Seq<char> {
        match self {
            RuntimeMode::Development => "development"@,
            RuntimeMode::Production => "production"@,
        }
    }

    pub fn name(&self) -> (r: String)
        ensures
            r@ == self.name_spec(),
    {
        match self {
            RuntimeMode::Development => String::from_str("development"),
            RuntimeMode::Production => String::from_str("production"),
        }
    }

    pub fn is_dev(&self) -> (r: bool)
        ensures
            r == (*self is Development),
    {
        match self {
            RuntimeMode::Development => true,
            RuntimeMode::Production => false,
        }
    }
}

} // verus!
