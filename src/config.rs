use vstd::prelude::*;

use crate::permissions::Level;

verus! {

/// A configuration value that the runtime carries without reading it.
#[derive(Debug, Clone, PartialEq, Eq)]
pub struct AnyConfig {
    pub raw: String,
}

impl AnyConfig {
    pub fn new(raw: String) -> (r: AnyConfig)
        ensures
            r.raw == raw,
    {
        AnyConfig { raw }
    }

    /// A copy of the same configuration.
    pub fn duplicate(&self) -> (r: AnyConfig)
        ensures
            r == *self,
    {
        AnyConfig { raw: self.raw.clone() }
    }
}

} // verus!

verus! {

/// What the logging subsystem writes.
#[derive(Debug, Clone, Copy, PartialEq, Eq, Structural)]
pub struct LoggingConfig {
    pub max_level: Option<Level>,
}

/// Whether messages are dumped.
#[derive(Debug, Clone, Copy, PartialEq, Eq, Structural)]
pub struct DumpingConfig {
    pub disabled: bool,
}

/// Which telemetry is recorded.
#[derive(Debug, Clone, Copy, PartialEq, Eq, Structural)]
pub struct TelemetryConfig {
    pub per_actor_group: bool,
    pub per_actor_key: bool,
}

/// The part of a group's configuration that the runtime reads itself.
#[derive(Debug, Clone, Copy, PartialEq, Eq, Structural)]
pub struct SystemConfig {
    pub logging: LoggingConfig,
    pub dumping: DumpingConfig,
    pub telemetry: TelemetryConfig,
}

} // verus!
