use std::sync::Arc;

use elfo_core::actor::{ActorMeta, ActorStatus, ActorStatusKind};
use elfo_core::addr::Addr;
use elfo_core::backoff::{Backoff, BACKOFF_MAX_MS, HEALTHY_RUN_MS};
use elfo_core::config::{AnyConfig, DumpingConfig, LoggingConfig, SystemConfig, TelemetryConfig};
use elfo_core::context::{Context, Received, Source};
use elfo_core::group::{ActorGroup, TerminationPolicy};
use elfo_core::messages::{ConfigRejected, ConfigUpdated, Terminate, UpdateConfig, ValidateConfig};
use elfo_core::permissions::{Level, Permissions};
use elfo_core::routers::{Outcome, Router};
use elfo_core::scope::{self, Ambient, Scope, ScopeShared};
use elfo_core::stream::{Emitter, Stream};
use elfo_core::supervisor::{aggregate_validation, Delivery, Exit, InstanceState, Restart, Supervisor};
use elfo_core::trace_id::TraceId;

fn tid(v: u64) -> TraceId {
    TraceId::new(v).unwrap()
}

fn meta(group: &str, key: &str) -> Arc<ActorMeta> {
    Arc::new(ActorMeta { group: group.to_string(), key: key.to_string() })
}

fn test_scope(trace: u64) -> Scope {
    Scope::test(Addr::from_bits(7), meta("workers", "1"), tid(trace))
}

fn system_config() -> SystemConfig {
    SystemConfig {
        logging: LoggingConfig { max_level: Some(Level::Warn) },
        dumping: DumpingConfig { disabled: true },
        telemetry: TelemetryConfig { per_actor_group: true, per_actor_key: false },
    }
}

fn cfg(s: &str) -> AnyConfig {
    AnyConfig::new(s.to_string())
}

#[test]
fn addr_round_trips_bits() {
    let a = Addr::from_bits(42);
    assert_eq!(a.into_bits(), 42);
    assert_eq!(a, Addr::from_bits(42));
    assert_ne!(a, Addr::from_bits(43));
    assert!(Addr::null().is_null());
    assert!(!a.is_null());
}

#[test]
fn trace_id_rejects_zero() {
    assert!(TraceId::new(0).is_none());
    assert_eq!(TraceId::new(5).unwrap().to_u64(), 5);
}

#[test]
fn termination_policies() {
    let closing = TerminationPolicy::closing();
    let manually = TerminationPolicy::manually();
    assert_eq!(TerminationPolicy::default(), closing);
    assert_ne!(closing, manually);

    let e = closing.on_terminate(&Terminate::new());
    assert!(e.stop_spawning && e.close_mailboxes);
    let e = manually.on_terminate(&Terminate::default());
    assert!(e.stop_spawning && !e.close_mailboxes);
    let e = manually.on_terminate(&Terminate::closing());
    assert!(e.stop_spawning && e.close_mailboxes);
    assert!(Terminate::closing().is_closing_request());
    assert!(!Terminate::default().is_closing_request());
}

#[test]
fn group_builder_keeps_settings() {
    let g = ActorGroup::new();
    assert_eq!(g.policy_of(), TerminationPolicy::closing());
    let g = g.termination_policy(TerminationPolicy::manually()).config::<u8>().router(5u32);
    assert_eq!(g.policy_of(), TerminationPolicy::manually());
}

#[test]
fn config_messages() {
    let r = ConfigRejected::from("bad port");
    assert_eq!(ConfigRejected::from(42u32).reason, "42");
    assert_eq!(r.reason, "bad port");
    assert_eq!(ValidateConfig::new(cfg("a")).config, cfg("a"));
    assert_eq!(UpdateConfig::new(cfg("b")).config, cfg("b"));
    assert_eq!(cfg("c").duplicate(), cfg("c"));
}

#[test]
fn actor_status_finished() {
    assert!(ActorStatus::new(ActorStatusKind::Failed).is_finished());
    assert!(ActorStatus::new(ActorStatusKind::Terminated).is_finished());
    assert!(!ActorStatus::new(ActorStatusKind::Normal).is_finished());
}

#[test]
fn permissions_follow_config() {
    let p = Permissions::new();
    assert_eq!(p.to_bits(), 0);
    assert!(!p.is_logging_enabled(Level::Error));
    let config = SystemConfig {
        logging: LoggingConfig { max_level: Some(Level::Info) },
        dumping: DumpingConfig { disabled: false },
        telemetry: TelemetryConfig { per_actor_group: true, per_actor_key: false },
    };
    let p = p.configured(&config);
    assert!(p.is_logging_enabled(Level::Error));
    assert!(p.is_logging_enabled(Level::Warn));
    assert!(p.is_logging_enabled(Level::Info));
    assert!(!p.is_logging_enabled(Level::Debug));
    assert!(!p.is_logging_enabled(Level::Trace));
    assert!(p.is_dumping_enabled());
    assert!(p.is_telemetry_per_actor_group_enabled());
    assert!(!p.is_telemetry_per_actor_key_enabled());
    assert_eq!(p.to_bits(), 0b0110_0111);

    let off = SystemConfig {
        logging: LoggingConfig { max_level: None },
        dumping: DumpingConfig { disabled: true },
        telemetry: TelemetryConfig { per_actor_group: false, per_actor_key: true },
    };
    let q = p.configured(&off);
    assert_eq!(q.to_bits(), 0b1000_0000);
}

#[test]
fn scope_shared_configure_publishes_snapshot() {
    let shared = ScopeShared::new(Addr::from_bits(3));
    assert_eq!(shared.group(), Addr::from_bits(3));
    assert_eq!(shared.permissions().to_bits(), 0);
    let config = SystemConfig {
        logging: LoggingConfig { max_level: Some(Level::Trace) },
        dumping: DumpingConfig { disabled: true },
        telemetry: TelemetryConfig { per_actor_group: false, per_actor_key: false },
    };
    let p = shared.configure(&config);
    assert_eq!(p.to_bits(), 0b0001_1111);
    assert_eq!(shared.permissions(), p);
    let scope = Scope::new(tid(1), Addr::from_bits(4), meta("g", "k"), Arc::new(shared));
    assert_eq!(scope.permissions().to_bits(), 0b0001_1111);
    assert_eq!(scope.group(), Addr::from_bits(3));
}

#[test]
fn scope_accessors_and_counters() {
    let mut s = test_scope(9);
    assert_eq!(s.actor(), Addr::from_bits(7));
    #[allow(deprecated)]
    let a = s.addr();
    assert_eq!(a, Addr::from_bits(7));
    assert_eq!(s.group(), Addr::null());
    assert_eq!(s.meta().group, "workers");
    assert_eq!(s.trace_id(), tid(9));
    s.set_trace_id(tid(10));
    assert_eq!(s.trace_id(), tid(10));

    s.increment_allocated_bytes(100);
    s.increment_allocated_bytes(28);
    s.increment_deallocated_bytes(64);
    assert_eq!(s.take_allocated_bytes(), 128);
    assert_eq!(s.take_allocated_bytes(), 0);
    assert_eq!(s.take_deallocated_bytes(), 64);
    assert_eq!(s.take_deallocated_bytes(), 0);

    let out = s.sync_within(|sc: &Scope| sc.trace_id().to_u64() + 1);
    assert_eq!(out, 11);
}

#[test]
fn ambient_access_outside_and_inside() {
    let mut outside = Ambient::outside();
    assert!(!outside.is_inside());
    assert!(scope::try_expose(&outside).is_none());
    assert!(scope::try_trace_id(&outside).is_none());
    assert!(scope::try_meta(&outside).is_none());
    assert!(!scope::try_set_trace_id(&mut outside, tid(3)));
    assert!(scope::try_with(&outside, |s: &Scope| s.actor()).is_none());

    let mut inside = Ambient::inside(test_scope(4));
    assert_eq!(scope::trace_id(&inside), tid(4));
    assert_eq!(scope::try_trace_id(&inside), Some(tid(4)));
    scope::set_trace_id(&mut inside, tid(5));
    assert_eq!(scope::trace_id(&inside), tid(5));
    assert!(scope::try_set_trace_id(&mut inside, tid(6)));
    assert_eq!(scope::trace_id(&inside), tid(6));
    assert_eq!(scope::meta(&inside).key, "1");
    assert_eq!(scope::try_meta(&inside).unwrap().group, "workers");
    assert_eq!(scope::with(&inside, |s: &Scope| s.actor()), Addr::from_bits(7));
    assert_eq!(scope::try_with(&inside, |s: &Scope| s.trace_id()), Some(tid(6)));
    let exposed = scope::expose(&inside);
    assert_eq!(exposed.trace_id(), tid(6));
    assert_eq!(scope::try_expose(&inside).unwrap().actor(), Addr::from_bits(7));
}

#[test]
fn ambient_enter_restores_previous() {
    let mut amb = Ambient::outside();
    let prev = amb.enter(test_scope(1));
    assert!(prev.is_none());
    let prev2 = amb.enter(test_scope(2));
    assert_eq!(prev2.as_ref().unwrap().trace_id(), tid(1));
    let left = amb.leave(prev2);
    assert_eq!(left.unwrap().trace_id(), tid(2));
    assert_eq!(scope::trace_id(&amb), tid(1));
    amb.leave(None);
    assert!(!amb.is_inside());
}

#[test]
fn backoff_grows_and_caps() {
    let mut b = Backoff::new();
    assert_eq!(b.delay_ms(), 0);
    let mut prev = 0;
    for k in 1..=8u64 {
        let d = b.on_fault(10);
        assert_eq!(b.consecutive_faults(), k);
        assert_eq!(d, std::cmp::min(5000 * k, BACKOFF_MAX_MS));
        assert!(d >= prev);
        assert!(d <= BACKOFF_MAX_MS);
        prev = d;
    }
    assert_eq!(b.on_fault(HEALTHY_RUN_MS), 5000);
    assert_eq!(b.consecutive_faults(), 1);
    b.on_graceful_exit();
    assert_eq!(b.consecutive_faults(), 0);
}

#[test]
fn supervisor_spawns_on_demand() {
    let mut sv = Supervisor::new(TerminationPolicy::closing(), cfg("v1"));
    assert_eq!(sv.len(), 0);
    assert_eq!(sv.route(10), Delivery::Spawned(0));
    assert_eq!(sv.route(20), Delivery::Spawned(1));
    assert_eq!(sv.route(10), Delivery::Deliver(0));
    assert_eq!(sv.len(), 2);
    assert_eq!(sv.find(20), Some(1));
    assert_eq!(sv.find(30), None);
    assert_eq!(sv.config_of(1), &cfg("v1"));
    assert_eq!(sv.control_targets(), vec![10, 20]);
}

#[test]
fn graceful_exit_restarts_without_delay() {
    // The body answers each message and returns; it is restarted at once
    // every time, four times over.
    let mut sv = Supervisor::new(TerminationPolicy::closing(), cfg("v1"));
    assert_eq!(sv.route(1), Delivery::Spawned(0));
    let mut scope = test_scope(1);
    for round in 0..4u64 {
        let mut ctx: Context<u64> = Context::new();
        assert!(ctx.deliver(tid(100 + round), round));
        match ctx.try_recv(&mut scope, Source::Mailbox) {
            Received::Message(m) => assert_eq!(m, round),
            _ => panic!("the message was not received"),
        }
        assert_eq!(sv.on_exit(0, Exit::Graceful, 1), Restart::Now);
        assert_eq!(sv.state_of(0), InstanceState::Running);
    }
}

#[test]
fn faults_back_off_monotonically() {
    let mut sv = Supervisor::new(TerminationPolicy::closing(), cfg("v1"));
    sv.route(1);
    let mut prev = 0;
    for k in 1..5u64 {
        match sv.on_exit(0, Exit::Fault, 5) {
            Restart::After(d) => {
                assert_eq!(d, 5000 * k);
                assert!(d >= prev);
                prev = d;
            }
            _ => panic!("a fault must back off"),
        }
        assert_eq!(sv.state_of(0), InstanceState::BackingOff);
        assert!(sv.on_backoff_elapsed(0));
        assert_eq!(sv.state_of(0), InstanceState::Running);
    }
}

#[test]
fn terminate_closing_overrides_manual_policy() {
    let mut sv = Supervisor::new(TerminationPolicy::manually(), cfg("v1"));
    sv.route(1);
    sv.route(2);
    let e = sv.terminate(&Terminate::new());
    assert!(e.stop_spawning && !e.close_mailboxes);
    assert!(sv.is_mailbox_open(0) && sv.is_mailbox_open(1));
    assert!(sv.is_spawning_stopped());
    assert_eq!(sv.route(3), Delivery::Discard);

    let e = sv.terminate(&Terminate::closing());
    assert!(e.close_mailboxes);
    assert!(!sv.is_mailbox_open(0) && !sv.is_mailbox_open(1));
    assert_eq!(sv.on_exit(0, Exit::Graceful, 1), Restart::Close);
    assert_eq!(sv.state_of(0), InstanceState::Closed);
    assert_eq!(sv.control_targets(), vec![2]);
}

#[test]
fn terminate_with_closing_policy_closes_mailboxes() {
    let mut sv = Supervisor::new(TerminationPolicy::closing(), cfg("v1"));
    sv.route(1);
    let e = sv.terminate(&Terminate::default());
    assert!(e.close_mailboxes);
    assert!(!sv.is_mailbox_open(0));
    assert_eq!(sv.on_exit(0, Exit::Fault, 1), Restart::Close);
}

#[test]
fn rollout_rejected_changes_nothing() {
    let mut sv = Supervisor::new(TerminationPolicy::closing(), cfg("v1"));
    sv.route(1);
    sv.route(2);
    sv.route(3);
    let replies = vec![Ok(()), Err(ConfigRejected::from("no".to_string())), Err(ConfigRejected::from("never".to_string()))];
    let shared = ScopeShared::new(Addr::from_bits(1));
    let r = sv.rollout(&cfg("v2"), &system_config(), &shared, &replies);
    assert_eq!(r.err(), Some(ConfigRejected::from("no")));
    assert_eq!(shared.permissions().to_bits(), 0);
    for i in 0..3 {
        assert_eq!(sv.config_of(i), &cfg("v1"));
    }
    sv.route(4);
    assert_eq!(sv.config_of(3), &cfg("v1"));
}

#[test]
fn rollout_accepted_updates_all() {
    let mut sv = Supervisor::new(TerminationPolicy::closing(), cfg("v1"));
    sv.route(1);
    sv.route(2);
    let shared = ScopeShared::new(Addr::from_bits(1));
    let r = sv.rollout(&cfg("v2"), &system_config(), &shared, &vec![Ok(()), Ok(())]);
    let committed = r.unwrap();
    assert_eq!(committed.permissions.to_bits(), 0b0100_0011);
    assert_eq!(committed.notice, ConfigUpdated {});
    assert_eq!(shared.permissions().to_bits(), 0b0100_0011);
    assert_eq!(sv.config_of(0), &cfg("v2"));
    assert_eq!(sv.config_of(1), &cfg("v2"));
    sv.route(9);
    assert_eq!(sv.config_of(2), &cfg("v2"));
}

#[test]
fn aggregate_validation_picks_first_rejection() {
    assert_eq!(aggregate_validation(&vec![]), Ok(()));
    assert_eq!(aggregate_validation(&vec![Ok(()), Ok(())]), Ok(()));
    let r = aggregate_validation(&vec![Ok(()), Err(ConfigRejected::from("a".to_string())), Err(ConfigRejected::from("b".to_string()))]);
    assert_eq!(r.unwrap_err().reason, "a");
}

#[test]
fn stream_items_keep_order_and_trace() {
    let mut scope = test_scope(1);
    let mut ctx: Context<u32> = Context::new();
    let j = ctx.with(Stream::new(vec![(tid(5), 5), (tid(6), 6)]));
    assert_eq!(j, 0);
    match ctx.try_recv(&mut scope, Source::Stream(0)) {
        Received::Message(m) => assert_eq!(m, 5),
        _ => panic!("expected an item"),
    }
    assert_eq!(scope.trace_id(), tid(5));
    match ctx.try_recv(&mut scope, Source::Stream(0)) {
        Received::Message(m) => assert_eq!(m, 6),
        _ => panic!("expected an item"),
    }
    assert_eq!(scope.trace_id(), tid(6));
    assert!(matches!(ctx.try_recv(&mut scope, Source::Stream(0)), Received::Empty));
    ctx.close();
    assert!(ctx.is_mailbox_closed());
    assert!(matches!(ctx.try_recv(&mut scope, Source::Mailbox), Received::Closed));
    assert!(!ctx.deliver(tid(2), 9));
}

#[test]
fn stream_set_drops_old_items() {
    let mut scope = test_scope(1);
    let mut ctx: Context<u32> = Context::new();
    ctx.with(Stream::new(vec![(tid(1), 1), (tid(2), 2), (tid(3), 3)]));
    match ctx.try_recv(&mut scope, Source::Stream(0)) {
        Received::Message(m) => assert_eq!(m, 1),
        _ => panic!("expected an item"),
    }
    ctx.set(0, vec![(tid(7), 7)]);
    match ctx.try_recv(&mut scope, Source::Stream(0)) {
        Received::Message(m) => assert_eq!(m, 7),
        _ => panic!("expected an item"),
    }
    assert!(matches!(ctx.try_recv(&mut scope, Source::Stream(0)), Received::Empty));
}

#[test]
fn stream_replace_returns_old_source() {
    let mut scope = test_scope(1);
    let mut ctx: Context<u32> = Context::new();
    ctx.with(Stream::new(vec![(tid(1), 1), (tid(2), 2)]));
    let mut old = ctx.replace(0, vec![(tid(6), 6), (tid(7), 7)]);
    assert_eq!(old.pull(), Some((tid(1), 1)));
    assert_eq!(old.pull(), Some((tid(2), 2)));
    assert_eq!(old.pull(), None);
    assert!(old.is_exhausted());
    for want in [6u32, 7] {
        match ctx.try_recv(&mut scope, Source::Stream(0)) {
            Received::Message(m) => assert_eq!(m, want),
            _ => panic!("expected an item"),
        }
    }
}

#[test]
fn the_source_ready_first_wins() {
    let mut scope = test_scope(1);
    let mut ctx: Context<u32> = Context::new();
    ctx.with(Stream::new(vec![(tid(5), 50)]));
    assert!(ctx.deliver(tid(3), 30));
    match ctx.try_recv(&mut scope, Source::Stream(0)) {
        Received::Message(m) => assert_eq!(m, 50),
        _ => panic!("expected an item"),
    }
    assert_eq!(scope.trace_id(), tid(5));
    assert!(matches!(ctx.try_recv(&mut scope, Source::Stream(0)), Received::Empty));
    assert_eq!(scope.trace_id(), tid(5));
    match ctx.try_recv(&mut scope, Source::Mailbox) {
        Received::Message(m) => assert_eq!(m, 30),
        _ => panic!("expected a message"),
    }
    assert_eq!(scope.trace_id(), tid(3));
    ctx.close();
    assert!(matches!(ctx.try_recv(&mut scope, Source::Mailbox), Received::Closed));
}

#[test]
fn closed_mailbox_waits_for_streams() {
    let mut scope = test_scope(1);
    let mut ctx: Context<u32> = Context::new();
    ctx.with(Stream::new(vec![(tid(5), 50)]));
    ctx.close();
    assert!(matches!(ctx.try_recv(&mut scope, Source::Mailbox), Received::Empty));
    match ctx.try_recv(&mut scope, Source::Stream(0)) {
        Received::Message(m) => assert_eq!(m, 50),
        _ => panic!("expected an item"),
    }
    assert!(matches!(ctx.try_recv(&mut scope, Source::Mailbox), Received::Closed));
}

#[test]
fn generated_stream_keeps_emission_order_and_trace() {
    let mut scope = test_scope(11);
    let mut em: Emitter<u32> = Emitter::new();
    em.emit(&scope, 1);
    scope.set_trace_id(tid(12));
    em.emit(&scope, 2);
    let mut ctx: Context<u32> = Context::new();
    ctx.with(Stream::generate(em));
    let mut other = test_scope(99);
    match ctx.try_recv(&mut other, Source::Stream(0)) {
        Received::Message(m) => assert_eq!(m, 1),
        _ => panic!("expected an item"),
    }
    assert_eq!(other.trace_id(), tid(11));
    match ctx.try_recv(&mut other, Source::Stream(0)) {
        Received::Message(m) => assert_eq!(m, 2),
        _ => panic!("expected an item"),
    }
    assert_eq!(other.trace_id(), tid(12));
    assert_eq!(ctx.stream_count(), 1);
}

#[test]
fn schema_hands_policy_to_supervisor() {
    let schema = ActorGroup::new()
        .termination_policy(TerminationPolicy::manually())
        .router(3u8)
        .exec(|x: u32| x + 1);
    assert_eq!(*schema.router(), 3u8);
    assert_eq!((schema.body())(1), 2);
    let mut sv = schema.supervisor(cfg("v1"));
    assert_eq!(sv.len(), 0);
    assert!(!sv.is_spawning_stopped());
    sv.route(1);
    let e = sv.terminate(&Terminate::new());
    assert!(!e.close_mailboxes);
    assert!(sv.is_mailbox_open(0));
}

#[test]
fn addr_text_has_index_and_version() {
    assert_eq!(Addr::from_bits(42).to_text(), "42v0");
    assert_eq!(Addr::null().to_text(), "0v0");
    assert_eq!(Addr::from_bits(1234567).to_text(), "1234567v0");
    assert_eq!(Addr::from_bits(10).to_text(), "10v0");
}

struct Parity;

impl Router<u64> for Parity {
    fn route(&self, message: &u64) -> Outcome {
        if *message == 0 {
            Outcome::Broadcast
        } else {
            Outcome::Unicast(*message % 2)
        }
    }
}

#[test]
fn dispatch_follows_router_outcome() {
    let mut sv = Supervisor::new(TerminationPolicy::closing(), cfg("v1"));
    let router = Parity;
    assert_eq!(sv.dispatch(&router.route(&3)), vec![Delivery::Spawned(0)]);
    assert_eq!(sv.dispatch(&router.route(&4)), vec![Delivery::Spawned(1)]);
    assert_eq!(sv.dispatch(&router.route(&5)), vec![Delivery::Deliver(0)]);
    assert_eq!(
        sv.dispatch(&Outcome::Multicast(vec![0, 7, 1])),
        vec![Delivery::Deliver(1), Delivery::Spawned(2), Delivery::Deliver(0)]
    );
    assert_eq!(sv.dispatch(&Outcome::Discard), vec![]);
    sv.terminate(&Terminate::new());
    assert_eq!(sv.on_exit(1, Exit::Graceful, 1), Restart::Close);
    assert_eq!(
        sv.dispatch(&router.route(&0)),
        vec![Delivery::Deliver(0), Delivery::Deliver(2)]
    );
    assert_eq!(sv.dispatch(&Outcome::Multicast(vec![9, 1])), vec![Delivery::Discard, Delivery::Deliver(0)]);
    assert_eq!(sv.len(), 3);
}

#[test]
fn status_reports_follow_state() {
    let mut sv = Supervisor::new(TerminationPolicy::closing(), cfg("v1"));
    sv.route(1);
    let m = meta("workers", "1");
    assert_eq!(sv.status_report(0, m.clone()).status.kind, ActorStatusKind::Normal);
    sv.on_exit(0, Exit::Fault, 1);
    let report = sv.status_report(0, m.clone());
    assert_eq!(report.status.kind, ActorStatusKind::Failed);
    assert_eq!(report.meta.key, "1");
    sv.terminate(&Terminate::new());
    sv.on_backoff_elapsed(0);
    assert_eq!(sv.status_report(0, m).status.kind, ActorStatusKind::Terminated);
}

#[test]
fn configured_keeps_spare_bits() {
    let p = Permissions::from_bits(0xF00).configured(&system_config());
    assert_eq!(p.to_bits(), 0xF00 | 0b0100_0011);
    assert_eq!(p.configured(&system_config()), p);
}
