use vstd::prelude::*;
use std::sync::Arc;

use crate::actor::{ActorMeta, ActorStatus};
use crate::config::AnyConfig;

verus! {

/// Checks that the actor is able to handle messages.
/// Routed to all actors in a group by default and handled implicitly by actors.
#[derive(Debug, Clone, Copy, PartialEq, Eq, Structural)]
pub struct Ping;

/// The first phase of a configuration rollout: may the new config be applied?
#[derive(Debug, Clone)]
pub struct ValidateConfig {
    pub config: AnyConfig,
}

impl ValidateConfig {
    pub fn new(config: AnyConfig) -> (r: ValidateConfig)
        ensures
            r.config == config,
    {
        ValidateConfig { config }
    }
}

/// The second phase of a configuration rollout: apply the new config.
#[derive(Debug, Clone)]
pub struct UpdateConfig {
    pub config: AnyConfig,
}

impl UpdateConfig {
    pub fn new(config: AnyConfig) -> (r: UpdateConfig)
        ensures
            r.config == config,
    {
        UpdateConfig { config }
    }
}

/// The answer of an actor that refuses a configuration.
#[derive(Debug, Clone, PartialEq, Eq)]
pub struct ConfigRejected {
    pub reason: String,
}

impl<R: std::fmt::Display> From<R> for ConfigRejected {
    /// A rejection whose reason is the text of any displayable value.
    fn from(reason: R) -> (r: ConfigRejected)
        ensures
            vstd::string::to_string_from_display_ensures::<R>(&reason, r.reason),
    {
        ConfigRejected { reason: reason.to_string() }
    }
}

impl<R: std::fmt::Display> vstd::std_specs::convert::FromSpecImpl<R> for ConfigRejected {
    open spec fn obeys_from_spec() -> bool {
        false
    }

    open spec fn from_spec(reason: R) -> ConfigRejected {
        vstd::pervasive::arbitrary()
    }
}

/// Broadcast to a group once a new configuration has been applied.
#[derive(Debug, Clone, Copy, PartialEq, Eq, Structural)]
pub struct ConfigUpdated {}

/// Asks a group to terminate.
#[derive(Debug, Clone, Copy, PartialEq, Eq, Structural)]
pub struct Terminate {
    pub(crate) closing: bool,
}

impl Terminate {
    pub closed spec fn is_closing(self) -> bool {
        self.closing
    }

    /// A termination request that follows the group's `TerminationPolicy`.
    pub fn new() -> (r: Terminate)
        ensures
            !r.is_closing(),
    {
        Terminate { closing: false }
    }

    /// The message closes a target's mailbox ignoring `TerminationPolicy`.
    pub fn closing() -> (r: Terminate)
        ensures
            r.is_closing(),
    {
        Terminate { closing: true }
    }

    pub fn is_closing_request(&self) -> (r: bool)
        ensures
            r == self.is_closing(),
    {
        self.closing
    }
}

impl Default for Terminate {
    fn default() -> (r: Terminate)
        ensures
            !r.is_closing(),
    {
        Terminate::new()
    }
}

/// Registers the sender as a subscriber of status reports.
#[derive(Debug, Clone, Copy, PartialEq, Eq, Structural, Default)]
#[non_exhaustive]
pub struct SubscribeToActorStatuses {}

/// Pushed to subscribers on every status change of an actor.
#[derive(Debug, Clone)]
#[non_exhaustive]
pub struct ActorStatusReport {
    pub meta: Arc<ActorMeta>,
    pub status: ActorStatus,
}

impl ActorStatusReport {
    pub fn new(meta: Arc<ActorMeta>, status: ActorStatus) -> (r: ActorStatusReport)
        ensures
            r.meta == meta,
            r.status == status,
    {
        ActorStatusReport { meta, status }
    }
}

} // verus!
