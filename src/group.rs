use vstd::prelude::*;
use std::marker::PhantomData;

use crate::config::AnyConfig;
use crate::messages::Terminate;
use crate::supervisor::Supervisor;

verus! {

/// A group under construction: its termination policy, its router and
/// the type of its configuration.
#[derive(Debug)]
pub struct ActorGroup<R, C> {
    termination_policy: TerminationPolicy,
    router: R,
    _config: PhantomData<C>,
}

impl<R, C> ActorGroup<R, C> {
    pub closed spec fn policy(&self) -> TerminationPolicy {
        self.termination_policy
    }

    pub closed spec fn router_spec(&self) -> R {
        self.router
    }
}

impl ActorGroup<(), ()> {
    /// A group with the default (`closing`) termination policy and no router.
    #[allow(clippy::new_without_default)]
    pub fn new() -> (r: Self)
        ensures
            r.policy().stops_spawning(),
            r.policy().closes_mailbox(),
    {
        ActorGroup { termination_policy: TerminationPolicy::closing(), router: (), _config: PhantomData }
    }
}

impl<R, C> ActorGroup<R, C> {
    /// Sets the type of the group's configuration.
    pub fn config<C1>(self) -> (r: ActorGroup<R, C1>)
        ensures
            r.policy() == self.policy(),
            r.router_spec() == self.router_spec(),
    {
        ActorGroup { termination_policy: self.termination_policy, router: self.router, _config: PhantomData }
    }

    /// The behaviour on the `Terminate` message.
    /// `TerminationPolicy::closing` is used by default.
    pub fn termination_policy(self, policy: TerminationPolicy) -> (r: Self)
        ensures
            r.policy() == policy,
            r.router_spec() == self.router_spec(),
    {
        ActorGroup { termination_policy: policy, router: self.router, _config: self._config }
    }

    /// Sets the router that maps messages to the keys of instances.
    pub fn router<R1>(self, router: R1) -> (r: ActorGroup<R1, C>)
        ensures
            r.policy() == self.policy(),
            r.router_spec() == router,
    {
        ActorGroup { termination_policy: self.termination_policy, router, _config: self._config }
    }

    /// Finishes the group with the body that each instance runs.
    pub fn exec<X>(self, body: X) -> (r: Schema<R, X>)
        ensures
            r.policy() == self.policy(),
            r.router_spec() == self.router_spec(),
            r.body_spec() == body,
    {
        Schema { termination_policy: self.termination_policy, router: self.router, body }
    }

    /// The termination policy the group was built with.
    pub fn policy_of(&self) -> (r: TerminationPolicy)
        ensures
            r == self.policy(),
    {
        self.termination_policy
    }
}

/// A finished group: what its supervisor needs to start it.
pub struct Schema<R, X> {
    termination_policy: TerminationPolicy,
    router: R,
    body: X,
}

impl<R, X> Schema<R, X> {
    pub closed spec fn policy(&self) -> TerminationPolicy {
        self.termination_policy
    }

    pub closed spec fn router_spec(&self) -> R {
        self.router
    }

    pub closed spec fn body_spec(&self) -> X {
        self.body
    }

    /// The supervisor that starts the group under `config`: no instance
    /// yet, spawning allowed, and the group's termination policy.
    pub fn supervisor(&self, config: AnyConfig) -> (r: Supervisor)
        ensures
            r.wf(),
            r.instances().len() == 0,
            r.policy() == self.policy(),
            !r.spawning_stopped(),
            r.active_config() == config,
    {
        Supervisor::new(self.termination_policy, config)
    }

    pub fn router(&self) -> (r: &R)
        ensures
            *r == self.router_spec(),
    {
        &self.router
    }

    pub fn body(&self) -> (r: &X)
        ensures
            *r == self.body_spec(),
    {
        &self.body
    }
}

/// The behaviour on the `Terminate` message.
#[derive(Debug, Clone, Copy, PartialEq, Eq, Structural)]
pub struct TerminationPolicy {
    pub(crate) stop_spawning: bool,
    pub(crate) close_mailbox: bool,
}

/// What a supervisor does on a `Terminate` message.
#[derive(Debug, Clone, Copy, PartialEq, Eq, Structural)]
pub struct TerminationEffect {
    pub stop_spawning: bool,
    pub close_mailboxes: bool,
}

impl TerminationPolicy {
    pub closed spec fn stops_spawning(self) -> bool {
        self.stop_spawning
    }

    pub closed spec fn closes_mailbox(self) -> bool {
        self.close_mailbox
    }

    /// On `Terminate`:
    /// * A supervisor stops spawning new actors.
    /// * New messages are not accepted more.
    /// * Mailboxes are closed.
    ///
    /// This behaviour is used by default.
    pub fn closing() -> (r: Self)
        ensures
            r.stops_spawning(),
            r.closes_mailbox(),
    {
        TerminationPolicy { stop_spawning: true, close_mailbox: true }
    }

    /// On `Terminate`:
    /// * A supervisor stops spawning new actors.
    /// * The `Terminate` message can be handled by actors manually.
    /// * Mailboxes receive messages (use `Context::close()` to stop it).
    pub fn manually() -> (r: Self)
        ensures
            r.stops_spawning(),
            !r.closes_mailbox(),
    {
        TerminationPolicy { stop_spawning: true, close_mailbox: false }
    }

    /// What the policy makes of a `Terminate` message: a closing request
    /// closes mailboxes whatever the policy says.
    pub open spec fn effect_spec(self, msg: Terminate) -> TerminationEffect {
        TerminationEffect {
            stop_spawning: self.stops_spawning(),
            close_mailboxes: msg.is_closing() || self.closes_mailbox(),
        }
    }

    pub fn on_terminate(&self, msg: &Terminate) -> (r: TerminationEffect)
        ensures
            r == self.effect_spec(*msg),
    {
        TerminationEffect {
            stop_spawning: self.stop_spawning,
            close_mailboxes: msg.is_closing_request() || self.close_mailbox,
        }
    }
}

impl Default for TerminationPolicy {
    fn default() -> (r: Self)
        ensures
            r.stops_spawning(),
            r.closes_mailbox(),
    {
        Self::closing()
    }
}

/// A closing `Terminate` closes every mailbox whatever the group's policy,
/// `manually()` included.
pub proof fn closing_terminate_overrides_policy(policy: TerminationPolicy, msg: Terminate)
    requires
        msg.is_closing(),
    ensures
        policy.effect_spec(msg).close_mailboxes,
        policy.effect_spec(msg).stop_spawning == policy.stops_spawning(),
{
}

/// A non-closing `Terminate` closes mailboxes exactly where the policy says so.
pub proof fn plain_terminate_follows_policy(policy: TerminationPolicy, msg: Terminate)
    requires
        !msg.is_closing(),
    ensures
        policy.effect_spec(msg).close_mailboxes == policy.closes_mailbox(),
{
}

} // verus!
