use vstd::pervasive::unreached;
use vstd::prelude::*;
use std::sync::atomic::{AtomicU64, Ordering};
use std::sync::Arc;

use crate::actor::ActorMeta;
use crate::addr::Addr;
use crate::config::SystemConfig;
use crate::permissions::Permissions;
use crate::trace_id::TraceId;

verus! {

/// Relies on `Arc::clone`: the new handle points to the same value.
#[verifier::external_body]
fn share<T>(a: &Arc<T>) -> (r: Arc<T>)
    ensures
        r == *a,
{
    Arc::clone(a)
}

/// The context of a running actor task: who runs, what trace it follows,
/// and the controls shared by its whole group.
pub struct Scope {
    actor: Addr,
    meta: Arc<ActorMeta>,
    trace_id: TraceId,
    shared: Arc<ScopeShared>,
    allocated_bytes: usize,
    deallocated_bytes: usize,
}

impl Scope {
    pub closed spec fn actor_spec(&self) -> Addr {
        self.actor
    }

    pub closed spec fn group_spec(&self) -> Addr {
        self.shared.group
    }

    pub closed spec fn meta_spec(&self) -> Arc<ActorMeta> {
        self.meta
    }

    pub closed spec fn trace_id_spec(&self) -> TraceId {
        self.trace_id
    }

    pub closed spec fn allocated_spec(&self) -> usize {
        self.allocated_bytes
    }

    pub closed spec fn deallocated_spec(&self) -> usize {
        self.deallocated_bytes
    }

    /// A scope of its own group, for use outside a running system.
    pub fn test(actor: Addr, meta: Arc<ActorMeta>, trace_id: TraceId) -> (r: Self)
        ensures
            r.actor_spec() == actor,
            r.meta_spec() == meta,
            r.trace_id_spec() == trace_id,
            r.group_spec().bits() == 0,
            r.allocated_spec() == 0,
            r.deallocated_spec() == 0,
    {
        Self::new(trace_id, actor, meta, Arc::new(ScopeShared::new(Addr::null())))
    }

    pub fn new(trace_id: TraceId, actor: Addr, meta: Arc<ActorMeta>, shared: Arc<ScopeShared>) -> (r: Self)
        ensures
            r.actor_spec() == actor,
            r.meta_spec() == meta,
            r.trace_id_spec() == trace_id,
            r.group_spec() == shared.group_spec(),
            r.allocated_spec() == 0,
            r.deallocated_spec() == 0,
    {
        Scope { actor, meta, trace_id, shared, allocated_bytes: 0, deallocated_bytes: 0 }
    }

    /// Same as `actor()`, kept for older callers.
    pub fn addr(&self) -> (r: Addr)
        ensures
            r == self.actor_spec(),
    {
        self.actor
    }

    pub fn actor(&self) -> (r: Addr)
        ensures
            r == self.actor_spec(),
    {
        self.actor
    }

    pub fn group(&self) -> (r: Addr)
        ensures
            r == self.group_spec(),
    {
        self.shared.group
    }

    /// Returns the current object's meta.
    pub fn meta(&self) -> (r: &Arc<ActorMeta>)
        ensures
            *r == self.meta_spec(),
    {
        &self.meta
    }

    /// Returns the current trace id.
    pub fn trace_id(&self) -> (r: TraceId)
        ensures
            r == self.trace_id_spec(),
    {
        self.trace_id
    }

    /// Replaces the current trace id with the provided one.
    pub fn set_trace_id(&mut self, trace_id: TraceId)
        ensures
            final(self).trace_id_spec() == trace_id,
            final(self).actor_spec() == old(self).actor_spec(),
            final(self).group_spec() == old(self).group_spec(),
            final(self).meta_spec() == old(self).meta_spec(),
            final(self).allocated_spec() == old(self).allocated_spec(),
            final(self).deallocated_spec() == old(self).deallocated_spec(),
    {
        self.trace_id = trace_id;
    }

    /// Returns the current permissions (for logging, telemetry and so on).
    pub fn permissions(&self) -> (r: Permissions) {
        self.shared.permissions()
    }

    pub fn increment_allocated_bytes(&mut self, by: usize)
        requires
            old(self).allocated_spec() + by <= usize::MAX,
        ensures
            final(self).allocated_spec() == old(self).allocated_spec() + by,
            final(self).deallocated_spec() == old(self).deallocated_spec(),
            final(self).trace_id_spec() == old(self).trace_id_spec(),
            final(self).actor_spec() == old(self).actor_spec(),
            final(self).meta_spec() == old(self).meta_spec(),
            final(self).group_spec() == old(self).group_spec(),
    {
        self.allocated_bytes = self.allocated_bytes + by;
    }

    pub fn increment_deallocated_bytes(&mut self, by: usize)
        requires
            old(self).deallocated_spec() + by <= usize::MAX,
        ensures
            final(self).deallocated_spec() == old(self).deallocated_spec() + by,
            final(self).allocated_spec() == old(self).allocated_spec(),
            final(self).trace_id_spec() == old(self).trace_id_spec(),
            final(self).actor_spec() == old(self).actor_spec(),
            final(self).meta_spec() == old(self).meta_spec(),
            final(self).group_spec() == old(self).group_spec(),
    {
        self.deallocated_bytes = self.deallocated_bytes + by;
    }

    /// Returns the bytes counted as allocated since the last call, and
    /// starts counting again from zero.
    pub fn take_allocated_bytes(&mut self) -> (r: usize)
        ensures
            r == old(self).allocated_spec(),
            final(self).allocated_spec() == 0,
            final(self).deallocated_spec() == old(self).deallocated_spec(),
            final(self).trace_id_spec() == old(self).trace_id_spec(),
            final(self).actor_spec() == old(self).actor_spec(),
            final(self).meta_spec() == old(self).meta_spec(),
            final(self).group_spec() == old(self).group_spec(),
    {
        let r = self.allocated_bytes;
        self.allocated_bytes = 0;
        r
    }

    /// Returns the bytes counted as deallocated since the last call, and
    /// starts counting again from zero.
    pub fn take_deallocated_bytes(&mut self) -> (r: usize)
        ensures
            r == old(self).deallocated_spec(),
            final(self).deallocated_spec() == 0,
            final(self).allocated_spec() == old(self).allocated_spec(),
            final(self).trace_id_spec() == old(self).trace_id_spec(),
            final(self).actor_spec() == old(self).actor_spec(),
            final(self).meta_spec() == old(self).meta_spec(),
            final(self).group_spec() == old(self).group_spec(),
    {
        let r = self.deallocated_bytes;
        self.deallocated_bytes = 0;
        r
    }

    /// A second handle on this scope, to carry into another task. The byte
    /// counters belong to the task and start from zero in the copy.
    pub fn fork(&self) -> (r: Scope)
        ensures
            r.actor_spec() == self.actor_spec(),
            r.group_spec() == self.group_spec(),
            r.meta_spec() == self.meta_spec(),
            r.trace_id_spec() == self.trace_id_spec(),
            r.allocated_spec() == 0,
            r.deallocated_spec() == 0,
    {
        Scope {
            actor: self.actor,
            meta: share(&self.meta),
            trace_id: self.trace_id,
            shared: share(&self.shared),
            allocated_bytes: 0,
            deallocated_bytes: 0,
        }
    }

    /// Runs the provided function with this scope.
    pub fn sync_within<R, F: FnOnce(&Scope) -> R>(self, f: F) -> (r: R)
        requires
            f.requires((&self,)),
        ensures
            f.ensures((&self,), r),
    {
        f(&self)
    }
}

/// The controls shared by every actor of one group.
pub struct ScopeShared {
    group: Addr,
    permissions: AtomicU64,
}

impl ScopeShared {
    pub closed spec fn group_spec(&self) -> Addr {
        self.group
    }

    /// Controls of a group with every permission disabled.
    pub fn new(group: Addr) -> (r: Self)
        ensures
            r.group_spec() == group,
    {
        ScopeShared { group, permissions: AtomicU64::new(Permissions::new().to_bits()) }
    }

    pub fn group(&self) -> (r: Addr)
        ensures
            r == self.group_spec(),
    {
        self.group
    }

    /// The latest complete snapshot of the permissions.
    pub fn permissions(&self) -> (r: Permissions) {
        Permissions::from_bits(self.permissions.load(Ordering::Acquire))
    }

    /// Recomputes the permissions from a new system configuration and
    /// publishes them as one snapshot. The value published grants exactly
    /// what `config` says, whatever was there before.
    pub fn configure(&self, config: &SystemConfig) -> (r: Permissions)
        ensures
            r.grants(*config),
    {
        let perm = self.permissions().configured(config);
        self.permissions.store(perm.to_bits(), Ordering::Release);
        perm
    }
}

/// Whether two scopes show the same actor, group, meta and trace id.
pub open spec fn same_view(a: Scope, b: Scope) -> bool {
    &&& a.actor_spec() == b.actor_spec()
    &&& a.group_spec() == b.group_spec()
    &&& a.meta_spec() == b.meta_spec()
    &&& a.trace_id_spec() == b.trace_id_spec()
}

/// The scope that is current in one task, if any. A task installs a scope
/// with `enter` and puts the previous one back with `leave`.
pub struct Ambient {
    current: Option<Scope>,
}

impl Ambient {
    pub closed spec fn current(&self) -> Option<Scope> {
        self.current
    }

    /// Outside the actor system: no scope is current.
    pub fn outside() -> (r: Ambient)
        ensures
            r.current().is_none(),
    {
        Ambient { current: None }
    }

    /// Inside an actor: `scope` is current.
    pub fn inside(scope: Scope) -> (r: Ambient)
        ensures
            r.current() == Some(scope),
    {
        Ambient { current: Some(scope) }
    }

    pub fn is_inside(&self) -> (r: bool)
        ensures
            r == self.current().is_some(),
    {
        self.current.is_some()
    }

    /// Makes `scope` current and hands back the one it replaces.
    pub fn enter(&mut self, scope: Scope) -> (r: Option<Scope>)
        ensures
            r == old(self).current(),
            final(self).current() == Some(scope),
    {
        let previous = self.current.take();
        self.current = Some(scope);
        previous
    }

    /// Puts `previous` back as current and hands back the scope it replaces.
    pub fn leave(&mut self, previous: Option<Scope>) -> (r: Option<Scope>)
        ensures
            r == old(self).current(),
            final(self).current() == previous,
    {
        let replaced = self.current.take();
        self.current = previous;
        replaced
    }
}

/// Exposes the current scope in order to send to other tasks.
pub fn expose(ambient: &Ambient) -> (r: Scope)
    requires
        ambient.current().is_some(),
    ensures
        same_view(r, ambient.current().unwrap()),
{
    match &ambient.current {
        Some(scope) => scope.fork(),
        None => unreached(),
    }
}

/// Exposes the current scope if inside the actor system.
pub fn try_expose(ambient: &Ambient) -> (r: Option<Scope>)
    ensures
        r.is_some() == ambient.current().is_some(),
        r matches Some(s) ==> same_view(s, ambient.current().unwrap()),
{
    match &ambient.current {
        Some(scope) => Some(scope.fork()),
        None => None,
    }
}

/// Accesses the current scope and runs the provided closure.
pub fn with<R, F: FnOnce(&Scope) -> R>(ambient: &Ambient, f: F) -> (r: R)
    requires
        ambient.current().is_some(),
        f.requires((&ambient.current().unwrap(),)),
    ensures
        f.ensures((&ambient.current().unwrap(),), r),
{
    match &ambient.current {
        Some(scope) => f(scope),
        None => unreached(),
    }
}

/// Accesses the current scope and runs the provided closure.
/// Returns `None` if called outside the actor system.
pub fn try_with<R, F: FnOnce(&Scope) -> R>(ambient: &Ambient, f: F) -> (r: Option<R>)
    requires
        ambient.current() matches Some(s) ==> f.requires((&s,)),
    ensures
        r.is_some() == ambient.current().is_some(),
        r matches Some(v) ==> f.ensures((&ambient.current().unwrap(),), v),
{
    match &ambient.current {
        Some(scope) => Some(f(scope)),
        None => None,
    }
}

/// Returns the current trace id.
pub fn trace_id(ambient: &Ambient) -> (r: TraceId)
    requires
        ambient.current().is_some(),
    ensures
        r == ambient.current().unwrap().trace_id_spec(),
{
    match &ambient.current {
        Some(scope) => scope.trace_id(),
        None => unreached(),
    }
}

/// Returns the current trace id if inside the actor system.
pub fn try_trace_id(ambient: &Ambient) -> (r: Option<TraceId>)
    ensures
        r.is_some() == ambient.current().is_some(),
        r matches Some(t) ==> t == ambient.current().unwrap().trace_id_spec(),
{
    match &ambient.current {
        Some(scope) => Some(scope.trace_id()),
        None => None,
    }
}

/// Replaces the current trace id with the provided one.
pub fn set_trace_id(ambient: &mut Ambient, trace_id: TraceId)
    requires
        old(ambient).current().is_some(),
    ensures
        final(ambient).current() matches Some(s) && s.trace_id_spec() == trace_id
            && s.actor_spec() == old(ambient).current().unwrap().actor_spec()
            && s.group_spec() == old(ambient).current().unwrap().group_spec()
            && s.meta_spec() == old(ambient).current().unwrap().meta_spec(),
{
    let _ = try_set_trace_id(ambient, trace_id);
}

/// Replaces the current trace id with the provided one
/// if inside the actor system.
///
/// Returns `true` if the trace id has been replaced.
pub fn try_set_trace_id(ambient: &mut Ambient, trace_id: TraceId) -> (r: bool)
    ensures
        r == old(ambient).current().is_some(),
        !r ==> final(ambient).current().is_none(),
        r ==> (final(ambient).current() matches Some(s) && s.trace_id_spec() == trace_id
            && s.actor_spec() == old(ambient).current().unwrap().actor_spec()
            && s.group_spec() == old(ambient).current().unwrap().group_spec()
            && s.meta_spec() == old(ambient).current().unwrap().meta_spec()),
{
    match &mut ambient.current {
        Some(scope) => {
            scope.set_trace_id(trace_id);
            true
        },
        None => false,
    }
}

/// Returns the current object's meta.
pub fn meta(ambient: &Ambient) -> (r: Arc<ActorMeta>)
    requires
        ambient.current().is_some(),
    ensures
        r == ambient.current().unwrap().meta_spec(),
{
    match &ambient.current {
        Some(scope) => share(scope.meta()),
        None => unreached(),
    }
}

/// Returns the current object's meta if inside the actor system.
pub fn try_meta(ambient: &Ambient) -> (r: Option<Arc<ActorMeta>>)
    ensures
        r.is_some() == ambient.current().is_some(),
        r matches Some(m) ==> m == ambient.current().unwrap().meta_spec(),
{
    match &ambient.current {
        Some(scope) => Some(share(scope.meta())),
        None => None,
    }
}

} // verus!
