use vstd::prelude::*;

verus! {

/// The static identity of an actor: its group's name and its key there.
#[derive(Debug, Clone, PartialEq, Eq)]
pub struct ActorMeta {
    pub group: String,
    pub key: String,
}

/// The kind of state an actor instance is in.
#[derive(Debug, Clone, Copy, PartialEq, Eq, Structural)]
pub enum ActorStatusKind {
    Initializing,
    Normal,
    Terminating,
    Terminated,
    Alarming,
    Failed,
}

/// The state of an actor instance, with optional details.
#[derive(Debug, Clone, PartialEq, Eq)]
pub struct ActorStatus {
    pub kind: ActorStatusKind,
    pub details: Option<String>,
}

impl ActorStatus {
    pub fn new(kind: ActorStatusKind) -> (r: ActorStatus)
        ensures
            r.kind == kind,
            r.details.is_none(),
    {
        ActorStatus { kind, details: None }
    }

    pub fn is_finished(&self) -> (r: bool)
        ensures
            r == (self.kind == ActorStatusKind::Terminated || self.kind == ActorStatusKind::Failed),
    {
        match self.kind {
            ActorStatusKind::Terminated | ActorStatusKind::Failed => true,
            _ => false,
        }
    }
}

} // verus!
