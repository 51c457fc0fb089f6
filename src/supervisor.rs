use vstd::prelude::*;

use crate::backoff::{backoff_delay, Backoff, HEALTHY_RUN_MS};
use crate::config::AnyConfig;
use crate::group::{TerminationEffect, TerminationPolicy};
use std::sync::Arc;

use crate::actor::{ActorMeta, ActorStatus, ActorStatusKind};
use crate::config::SystemConfig;
use crate::messages::{ActorStatusReport, ConfigRejected, ConfigUpdated, Terminate};
use crate::permissions::Permissions;
use crate::scope::ScopeShared;
use crate::routers::Outcome;

verus! {

/// Where an instance of a group stands.
#[derive(Debug, Clone, Copy, PartialEq, Eq, Structural)]
pub enum InstanceState {
    Running,
    BackingOff,
    Closed,
}

/// How the body of an instance ended.
#[derive(Debug, Clone, Copy, PartialEq, Eq, Structural)]
pub enum Exit {
    /// The body returned.
    Graceful,
    /// The body failed.
    Fault,
}

/// What the supervisor does once the body of an instance has ended.
#[derive(Debug, Clone, Copy, PartialEq, Eq, Structural)]
pub enum Restart {
    /// Start the body again at once.
    Now,
    /// Start the body again after so many milliseconds.
    After(u64),
    /// Leave the instance closed.
    Close,
}

/// What an instance in `state` reports: running is normal, waiting out a
/// backoff follows a failure, closed is terminated.
pub open spec fn status_kind(state: InstanceState) -> ActorStatusKind {
    match state {
        InstanceState::Running => ActorStatusKind::Normal,
        InstanceState::BackingOff => ActorStatusKind::Failed,
        InstanceState::Closed => ActorStatusKind::Terminated,
    }
}

/// A committed rollout: the permissions published to the group, and the
/// notice to broadcast.
pub struct Committed {
    pub permissions: Permissions,
    pub notice: ConfigUpdated,
}

/// Where a message routed to a key goes.
#[derive(Debug, Clone, Copy, PartialEq, Eq, Structural)]
pub enum Delivery {
    /// To the instance at this index of the table.
    Deliver(usize),
    /// To an instance spawned for it, at this index of the table.
    Spawned(usize),
    /// Nowhere: the key has no instance and no new one may be spawned.
    Discard,
}

/// One instance of a group, known by its router key.
pub struct Instance {
    pub key: u64,
    pub state: InstanceState,
    pub mailbox_open: bool,
    pub backoff: Backoff,
    pub config: AnyConfig,
}

/// The supervisor of one group: a table of instances, one per key,
/// and the group's termination policy and active configuration.
pub struct Supervisor {
    policy: TerminationPolicy,
    spawning_stopped: bool,
    config: AnyConfig,
    instances: Vec<Instance>,
}

/// Whether no two instances share a key.
pub open spec fn keys_unique(s: Seq<Instance>) -> bool {
    forall|i: int, j: int| 0 <= i < s.len() && 0 <= j < s.len() && i != j ==> s[i].key != s[j].key
}

/// Whether `d` is where a message for `key` went in table `s`.
pub open spec fn delivered_to(s: Seq<Instance>, d: Delivery, key: u64) -> bool {
    match d {
        Delivery::Deliver(i) => i < s.len() && s[i as int].key == key,
        Delivery::Spawned(i) => i < s.len() && s[i as int].key == key,
        Delivery::Discard => forall|i: int| 0 <= i < s.len() ==> s[i].key != key,
    }
}

/// Whether `t` holds every instance of `s`, at the same place, and maybe more.
pub open spec fn extends(t: Seq<Instance>, s: Seq<Instance>) -> bool {
    &&& t.len() >= s.len()
    &&& forall|i: int| 0 <= i < s.len() ==> t[i] == s[i]
}

/// A delivery to each instance that is not closed, in table order.
pub open spec fn live_deliveries(s: Seq<Instance>) -> Seq<Delivery>
    decreases s.len(),
{
    if s.len() == 0 {
        Seq::empty()
    } else if s.last().state != InstanceState::Closed {
        live_deliveries(s.drop_last()).push(Delivery::Deliver((s.len() - 1) as usize))
    } else {
        live_deliveries(s.drop_last())
    }
}

/// The keys of the instances that are not closed, in order.
pub open spec fn live_keys(s: Seq<Instance>) -> Seq<u64>
    decreases s.len(),
{
    if s.len() == 0 {
        Seq::empty()
    } else if s.last().state != InstanceState::Closed {
        live_keys(s.drop_last()).push(s.last().key)
    } else {
        live_keys(s.drop_last())
    }
}

/// A table whose keys are those of a table with unique keys, place by
/// place, has unique keys too.
proof fn lemma_keys_kept_unique(before: Seq<Instance>, after: Seq<Instance>)
    requires
        keys_unique(before),
        after.len() == before.len(),
        forall|i: int| 0 <= i < after.len() ==> #[trigger] after[i].key == before[i].key,
    ensures
        keys_unique(after),
{
    assert forall|a: int, b: int| 0 <= a < after.len() && 0 <= b < after.len() && a != b implies after[a].key
        != after[b].key by {
        assert(after[a].key == before[a].key);
        assert(after[b].key == before[b].key);
    }
}

/// The index of the first rejection among validation replies, if any.
pub open spec fn is_first_rejection(replies: Seq<Result<(), ConfigRejected>>, i: int) -> bool {
    &&& 0 <= i < replies.len()
    &&& replies[i] is Err
    &&& forall|j: int| 0 <= j < i ==> replies[j] is Ok
}

/// Folds the replies of every instance to `ValidateConfig` into one outcome:
/// `Ok` where all accepted, else the first rejection.
pub fn aggregate_validation(replies: &Vec<Result<(), ConfigRejected>>) -> (r: Result<(), ConfigRejected>)
    ensures
        r is Ok <==> forall|i: int| 0 <= i < replies@.len() ==> replies@[i] is Ok,
        r matches Err(e) ==> exists|i: int| is_first_rejection(replies@, i) && replies@[i] == Err::<(), ConfigRejected>(e),
{
    let mut i: usize = 0;
    while i < replies.len()
        invariant
            i <= replies@.len(),
            forall|j: int| 0 <= j < i ==> replies@[j] is Ok,
        decreases replies@.len() - i,
    {
        match &replies[i] {
            Ok(()) => {},
            Err(e) => {
                let rejected = ConfigRejected { reason: e.reason.clone() };
                assert(is_first_rejection(replies@, i as int));
                return Err(rejected);
            },
        }
        i = i + 1;
    }
    Ok(())
}

impl Supervisor {
    pub closed spec fn instances(&self) -> Seq<Instance> {
        self.instances@
    }

    pub closed spec fn policy(&self) -> TerminationPolicy {
        self.policy
    }

    pub closed spec fn spawning_stopped(&self) -> bool {
        self.spawning_stopped
    }

    pub closed spec fn active_config(&self) -> AnyConfig {
        self.config
    }

    pub open spec fn wf(&self) -> bool {
        keys_unique(self.instances())
    }

    /// Whether `key` has an instance in the table.
    pub open spec fn knows(&self, key: u64) -> bool {
        exists|i: int| 0 <= i < self.instances().len() && self.instances()[i].key == key
    }

    /// A supervisor with no instance yet.
    pub fn new(policy: TerminationPolicy, config: AnyConfig) -> (r: Supervisor)
        ensures
            r.wf(),
            r.instances().len() == 0,
            r.policy() == policy,
            !r.spawning_stopped(),
            r.active_config() == config,
    {
        Supervisor { policy, spawning_stopped: false, config, instances: Vec::new() }
    }

    pub fn len(&self) -> (r: usize)
        ensures
            r == self.instances().len(),
    {
        self.instances.len()
    }

    pub fn is_spawning_stopped(&self) -> (r: bool)
        ensures
            r == self.spawning_stopped(),
    {
        self.spawning_stopped
    }

    pub fn state_of(&self, i: usize) -> (r: InstanceState)
        requires
            i < self.instances().len(),
        ensures
            r == self.instances()[i as int].state,
    {
        self.instances[i].state
    }

    pub fn is_mailbox_open(&self, i: usize) -> (r: bool)
        requires
            i < self.instances().len(),
        ensures
            r == self.instances()[i as int].mailbox_open,
    {
        self.instances[i].mailbox_open
    }

    pub fn config_of(&self, i: usize) -> (r: &AnyConfig)
        requires
            i < self.instances().len(),
        ensures
            *r == self.instances()[i as int].config,
    {
        &self.instances[i].config
    }

    /// The index of the instance for `key`, if there is one.
    pub fn find(&self, key: u64) -> (r: Option<usize>)
        ensures
            r matches Some(i) ==> i < self.instances().len() && self.instances()[i as int].key == key,
            r is None ==> !self.knows(key),
    {
        let mut i: usize = 0;
        while i < self.instances.len()
            invariant
                i <= self.instances@.len(),
                forall|j: int| 0 <= j < i ==> self.instances@[j].key != key,
            decreases self.instances@.len() - i,
        {
            if self.instances[i].key == key {
                return Some(i);
            }
            i = i + 1;
        }
        None
    }

    /// Routes a message for `key`: to its instance, to a new instance spawned
    /// on demand the first time the key is seen, or nowhere once spawning
    /// has stopped.
    pub fn route(&mut self, key: u64) -> (r: Delivery)
        requires
            old(self).wf(),
        ensures
            final(self).wf(),
            final(self).policy() == old(self).policy(),
            final(self).spawning_stopped() == old(self).spawning_stopped(),
            final(self).active_config() == old(self).active_config(),
            delivered_to(final(self).instances(), r, key),
            old(self).knows(key) ==> (r matches Delivery::Deliver(i) && i < old(self).instances().len()
                && old(self).instances()[i as int].key == key && final(self).instances() == old(self).instances()),
            !old(self).knows(key) && old(self).spawning_stopped() ==> r == Delivery::Discard
                && final(self).instances() == old(self).instances(),
            !old(self).knows(key) && !old(self).spawning_stopped() ==> r == Delivery::Spawned(
                old(self).instances().len() as usize,
            ) && final(self).instances().len() == old(self).instances().len() + 1
                && final(self).instances().drop_last() == old(self).instances()
                && final(self).instances().last().key == key
                && final(self).instances().last().state == InstanceState::Running
                && final(self).instances().last().mailbox_open
                && final(self).instances().last().backoff.faults() == 0
                && final(self).instances().last().config == old(self).active_config(),
    {
        match self.find(key) {
            Some(i) => Delivery::Deliver(i),
            None => {
                if self.spawning_stopped {
                    Delivery::Discard
                } else {
                    let n = self.instances.len();
                    let instance = Instance {
                        key,
                        state: InstanceState::Running,
                        mailbox_open: true,
                        backoff: Backoff::new(),
                        config: self.config.duplicate(),
                    };
                    self.instances.push(instance);
                    assert(self.instances@.drop_last() =~= old(self).instances@);
                    assert(self.instances@[n as int].key == key);
                    Delivery::Spawned(n)
                }
            },
        }
    }

    /// Routes a message by a router's outcome: one key, several keys in
    /// order, every instance that is not closed, or none. Keys seen for the
    /// first time spawn their instance while spawning is allowed.
    pub fn dispatch(&mut self, outcome: &Outcome) -> (r: Vec<Delivery>)
        requires
            old(self).wf(),
        ensures
            final(self).wf(),
            final(self).policy() == old(self).policy(),
            final(self).spawning_stopped() == old(self).spawning_stopped(),
            final(self).active_config() == old(self).active_config(),
            extends(final(self).instances(), old(self).instances()),
            old(self).spawning_stopped() ==> final(self).instances() == old(self).instances(),
            match outcome {
                Outcome::Unicast(k) => r@.len() == 1 && delivered_to(final(self).instances(), r@[0], *k) && (
                r@[0] is Discard ==> old(self).spawning_stopped()),
                Outcome::Multicast(keys) => r@.len() == keys@.len() && (forall|i: int|
                    0 <= i < keys@.len() ==> delivered_to(final(self).instances(), #[trigger] r@[i], keys@[i]))
                    && (forall|i: int| 0 <= i < keys@.len() ==> #[trigger] r@[i] is Discard ==> old(self).spawning_stopped()),
                Outcome::Broadcast => final(self).instances() == old(self).instances() && r@ == live_deliveries(
                    old(self).instances(),
                ),
                Outcome::Discard => r@.len() == 0 && final(self).instances() == old(self).instances(),
            },
    {
        match outcome {
            Outcome::Unicast(k) => {
                let d = self.route(*k);
                let mut r: Vec<Delivery> = Vec::new();
                r.push(d);
                r
            },
            Outcome::Multicast(keys) => {
                let mut r: Vec<Delivery> = Vec::new();
                let mut i: usize = 0;
                while i < keys.len()
                    invariant
                        i <= keys@.len(),
                        r@.len() == i,
                        self.wf(),
                        self.policy() == old(self).policy(),
                        self.spawning_stopped() == old(self).spawning_stopped(),
                        self.active_config() == old(self).active_config(),
                        extends(self.instances(), old(self).instances()),
                        old(self).spawning_stopped() ==> self.instances() == old(self).instances(),
                        forall|j: int| 0 <= j < i ==> delivered_to(self.instances(), #[trigger] r@[j], keys@[j]),
                        forall|j: int| 0 <= j < i ==> #[trigger] r@[j] is Discard ==> old(self).spawning_stopped(),
                    decreases keys@.len() - i,
                {
                    let ghost before = self.instances();
                    let d = self.route(keys[i]);
                    assert(extends(self.instances(), before));
                    assert(d is Discard ==> old(self).spawning_stopped());
                    assert forall|j: int| 0 <= j < i implies delivered_to(self.instances(), #[trigger] r@[j], keys@[j]) by {
                        assert(delivered_to(before, r@[j], keys@[j]));
                        if r@[j] is Discard {
                            assert(self.instances() == before);
                        }
                    }
                    r.push(d);
                    i = i + 1;
                }
                r
            },
            Outcome::Broadcast => {
                let mut r: Vec<Delivery> = Vec::new();
                let mut i: usize = 0;
                while i < self.instances.len()
                    invariant
                        i <= self.instances@.len(),
                        r@ == live_deliveries(self.instances@.take(i as int)),
                    decreases self.instances@.len() - i,
                {
                    assert(self.instances@.take(i + 1).drop_last() =~= self.instances@.take(i as int));
                    if self.instances[i].state != InstanceState::Closed {
                        r.push(Delivery::Deliver(i));
                    }
                    i = i + 1;
                }
                assert(self.instances@.take(i as int) =~= self.instances@);
                r
            },
            Outcome::Discard => Vec::new(),
        }
    }

    /// Decides what follows the end of the body of instance `i`, which ran
    /// for `ran_for_ms`. A normal return restarts at once with no wait; a
    /// fault restarts after the backoff of the consecutive faults; an
    /// instance whose mailbox is closed, or of a group that stopped spawning,
    /// stays closed.
    pub fn on_exit(&mut self, i: usize, exit: Exit, ran_for_ms: u64) -> (r: Restart)
        requires
            old(self).wf(),
            i < old(self).instances().len(),
        ensures
            final(self).wf(),
            final(self).policy() == old(self).policy(),
            final(self).spawning_stopped() == old(self).spawning_stopped(),
            final(self).active_config() == old(self).active_config(),
            final(self).instances().len() == old(self).instances().len(),
            forall|j: int| 0 <= j < old(self).instances().len() && j != i ==> final(self).instances()[j]
                == old(self).instances()[j],
            ({
                let before = old(self).instances()[i as int];
                let after = final(self).instances()[i as int];
                &&& after.key == before.key
                &&& after.mailbox_open == before.mailbox_open
                &&& after.config == before.config
                &&& (old(self).spawning_stopped() || !before.mailbox_open) ==> r == Restart::Close
                    && after.state == InstanceState::Closed && after.backoff == before.backoff
                &&& (!old(self).spawning_stopped() && before.mailbox_open && exit == Exit::Graceful) ==> r
                    == Restart::Now && after.state == InstanceState::Running && after.backoff.faults() == 0
                &&& (!old(self).spawning_stopped() && before.mailbox_open && exit == Exit::Fault) ==> (r
                    matches Restart::After(d) && d == backoff_delay(after.backoff.faults()))
                    && after.state == InstanceState::BackingOff && (ran_for_ms >= HEALTHY_RUN_MS
                    ==> after.backoff.faults() == 1) && (ran_for_ms < HEALTHY_RUN_MS
                    && before.backoff.faults() < u64::MAX ==> after.backoff.faults()
                    == before.backoff.faults() + 1)
            }),
    {
        let mut instance = self.instances.remove(i);
        let r = if self.spawning_stopped || !instance.mailbox_open {
            instance.state = InstanceState::Closed;
            Restart::Close
        } else {
            match exit {
                Exit::Graceful => {
                    instance.backoff.on_graceful_exit();
                    instance.state = InstanceState::Running;
                    Restart::Now
                },
                Exit::Fault => {
                    let d = instance.backoff.on_fault(ran_for_ms);
                    instance.state = InstanceState::BackingOff;
                    Restart::After(d)
                },
            }
        };
        self.instances.insert(i, instance);
        proof {
            lemma_keys_kept_unique(old(self).instances@, self.instances@);
        }
        r
    }

    /// The wait of instance `i` is over: it runs again, unless spawning has
    /// stopped meanwhile, in which case it is closed.
    pub fn on_backoff_elapsed(&mut self, i: usize) -> (r: bool)
        requires
            old(self).wf(),
            i < old(self).instances().len(),
            old(self).instances()[i as int].state == InstanceState::BackingOff,
        ensures
            final(self).wf(),
            final(self).policy() == old(self).policy(),
            final(self).spawning_stopped() == old(self).spawning_stopped(),
            final(self).active_config() == old(self).active_config(),
            r == (!old(self).spawning_stopped() && old(self).instances()[i as int].mailbox_open),
            final(self).instances().len() == old(self).instances().len(),
            forall|j: int| 0 <= j < old(self).instances().len() && j != i ==> final(self).instances()[j]
                == old(self).instances()[j],
            final(self).instances()[i as int].key == old(self).instances()[i as int].key,
            final(self).instances()[i as int].mailbox_open == old(self).instances()[i as int].mailbox_open,
            final(self).instances()[i as int].config == old(self).instances()[i as int].config,
            final(self).instances()[i as int].backoff == old(self).instances()[i as int].backoff,
            final(self).instances()[i as int].state == if r {
                InstanceState::Running
            } else {
                InstanceState::Closed
            },
    {
        let mut instance = self.instances.remove(i);
        let resume = !self.spawning_stopped && instance.mailbox_open;
        instance.state = if resume {
            InstanceState::Running
        } else {
            InstanceState::Closed
        };
        self.instances.insert(i, instance);
        proof {
            lemma_keys_kept_unique(old(self).instances@, self.instances@);
        }
        resume
    }

    /// Handles `Terminate`: spawning stops where the policy says so, and every
    /// mailbox is closed where the policy says so or the message is closing.
    pub fn terminate(&mut self, msg: &Terminate) -> (r: TerminationEffect)
        requires
            old(self).wf(),
        ensures
            final(self).wf(),
            r == old(self).policy().effect_spec(*msg),
            final(self).policy() == old(self).policy(),
            final(self).active_config() == old(self).active_config(),
            final(self).spawning_stopped() == (old(self).spawning_stopped() || r.stop_spawning),
            final(self).instances().len() == old(self).instances().len(),
            forall|j: int|
                0 <= j < old(self).instances().len() ==> {
                    let before = old(self).instances()[j];
                    let after = #[trigger] final(self).instances()[j];
                    &&& after.key == before.key
                    &&& after.state == before.state
                    &&& after.backoff == before.backoff
                    &&& after.config == before.config
                    &&& after.mailbox_open == (before.mailbox_open && !r.close_mailboxes)
                },
    {
        let effect = self.policy.on_terminate(msg);
        if effect.stop_spawning {
            self.spawning_stopped = true;
        }
        if effect.close_mailboxes {
            let mut i: usize = 0;
            while i < self.instances.len()
                invariant
                    i <= self.instances@.len(),
                    self.instances@.len() == old(self).instances@.len(),
                    self.policy == old(self).policy,
                    self.config == old(self).config,
                    self.spawning_stopped == (old(self).spawning_stopped || effect.stop_spawning),
                    forall|j: int|
                        0 <= j < self.instances@.len() ==> {
                            let before = old(self).instances@[j];
                            let after = #[trigger] self.instances@[j];
                            &&& after.key == before.key
                            &&& after.state == before.state
                            &&& after.backoff == before.backoff
                            &&& after.config == before.config
                            &&& after.mailbox_open == (before.mailbox_open && j >= i)
                        },
                decreases self.instances@.len() - i,
            {
                let mut instance = self.instances.remove(i);
                instance.mailbox_open = false;
                self.instances.insert(i, instance);
                i = i + 1;
            }
        }
        proof {
            lemma_keys_kept_unique(old(self).instances@, self.instances@);
        }
        effect
    }

    /// The keys of every instance that is not closed, in table order: the
    /// recipients of group-wide control messages (`Ping`, `Terminate`,
    /// config updates).
    pub fn control_targets(&self) -> (r: Vec<u64>)
        ensures
            r@ == live_keys(self.instances()),
    {
        let mut r: Vec<u64> = Vec::new();
        let mut i: usize = 0;
        while i < self.instances.len()
            invariant
                i <= self.instances@.len(),
                r@ == live_keys(self.instances@.take(i as int)),
            decreases self.instances@.len() - i,
        {
            assert(self.instances@.take(i + 1).drop_last() =~= self.instances@.take(i as int));
            if self.instances[i].state != InstanceState::Closed {
                r.push(self.instances[i].key);
            }
            i = i + 1;
        }
        assert(self.instances@.take(i as int) =~= self.instances@);
        r
    }

    /// Runs the second phase of a configuration rollout, given the replies of
    /// every instance to `ValidateConfig`. Where any instance rejected, no
    /// configuration changes and the first rejection is returned. Else every
    /// instance and the group take the new configuration, the group's shared
    /// controls are configured once from `system`, and what was published is
    /// returned with the `ConfigUpdated` notice to broadcast.
    pub fn rollout(
        &mut self,
        config: &AnyConfig,
        system: &SystemConfig,
        shared: &ScopeShared,
        replies: &Vec<Result<(), ConfigRejected>>,
    ) -> (r: Result<Committed, ConfigRejected>)
        requires
            old(self).wf(),
            replies@.len() == old(self).instances().len(),
        ensures
            final(self).wf(),
            final(self).policy() == old(self).policy(),
            final(self).spawning_stopped() == old(self).spawning_stopped(),
            final(self).instances().len() == old(self).instances().len(),
            r is Ok <==> forall|i: int| 0 <= i < replies@.len() ==> replies@[i] is Ok,
            r matches Err(e) ==> exists|i: int| is_first_rejection(replies@, i) && replies@[i] == Err::<(), ConfigRejected>(e),
            r is Err ==> final(self).instances() == old(self).instances() && final(self).active_config()
                == old(self).active_config(),
            r is Ok ==> final(self).active_config() == *config,
            r matches Ok(c) ==> c.permissions.grants(*system),
            forall|j: int|
                0 <= j < old(self).instances().len() ==> {
                    let before = old(self).instances()[j];
                    let after = #[trigger] final(self).instances()[j];
                    &&& after.key == before.key
                    &&& after.state == before.state
                    &&& after.backoff == before.backoff
                    &&& after.mailbox_open == before.mailbox_open
                    &&& after.config == if r is Ok {
                        *config
                    } else {
                        before.config
                    }
                },
    {
        match aggregate_validation(replies) {
            Ok(()) => {},
            Err(e) => {
                return Err(e);
            },
        }
        let mut i: usize = 0;
        while i < self.instances.len()
            invariant
                i <= self.instances@.len(),
                self.instances@.len() == old(self).instances@.len(),
                self.policy == old(self).policy,
                self.spawning_stopped == old(self).spawning_stopped,
                forall|j: int|
                    0 <= j < self.instances@.len() ==> {
                        let before = old(self).instances@[j];
                        let after = #[trigger] self.instances@[j];
                        &&& after.key == before.key
                        &&& after.state == before.state
                        &&& after.backoff == before.backoff
                        &&& after.mailbox_open == before.mailbox_open
                        &&& after.config == if j < i {
                            *config
                        } else {
                            before.config
                        }
                    },
            decreases self.instances@.len() - i,
        {
            let mut instance = self.instances.remove(i);
            instance.config = config.duplicate();
            self.instances.insert(i, instance);
            i = i + 1;
        }
        self.config = config.duplicate();
        proof {
            lemma_keys_kept_unique(old(self).instances@, self.instances@);
        }
        let permissions = shared.configure(system);
        Ok(Committed { permissions, notice: ConfigUpdated {} })
    }

    /// The status report of instance `i`, to push to subscribers after each
    /// change of its state.
    pub fn status_report(&self, i: usize, meta: Arc<ActorMeta>) -> (r: ActorStatusReport)
        requires
            i < self.instances().len(),
        ensures
            r.meta == meta,
            r.status.kind == status_kind(self.instances()[i as int].state),
            r.status.details.is_none(),
    {
        let kind = match self.instances[i].state {
            InstanceState::Running => ActorStatusKind::Normal,
            InstanceState::BackingOff => ActorStatusKind::Failed,
            InstanceState::Closed => ActorStatusKind::Terminated,
        };
        ActorStatusReport::new(meta, ActorStatus::new(kind))
    }
}

} // verus!
