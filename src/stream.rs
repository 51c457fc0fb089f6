use vstd::prelude::*;

use crate::scope::Scope;
use crate::trace_id::TraceId;

verus! {

/// A source of messages attached to a context. Each item carries the trace
/// id under which it is handled.
pub struct Stream<T> {
    items: Vec<(TraceId, T)>,
}

impl<T> Stream<T> {
    /// The items not yet pulled, in order.
    pub closed spec fn pending(&self) -> Seq<(TraceId, T)> {
        self.items@
    }

    pub fn new(items: Vec<(TraceId, T)>) -> (r: Stream<T>)
        ensures
            r.pending() == items@,
    {
        Stream { items }
    }

    /// A stream of what a generator emitted, in emission order.
    pub fn generate(emitter: Emitter<T>) -> (r: Stream<T>)
        ensures
            r.pending() == emitter.emitted(),
    {
        Stream { items: emitter.items }
    }

    pub fn is_exhausted(&self) -> (r: bool)
        ensures
            r == (self.pending().len() == 0),
    {
        self.items.len() == 0
    }

    /// Takes the next item, if any.
    pub fn pull(&mut self) -> (r: Option<(TraceId, T)>)
        ensures
            old(self).pending().len() == 0 ==> r is None && final(self).pending() == old(self).pending(),
            old(self).pending().len() > 0 ==> r == Some(old(self).pending()[0]) && final(self).pending()
                == old(self).pending().skip(1),
    {
        if self.items.len() == 0 {
            None
        } else {
            let x = self.items.remove(0);
            assert(self.items@ =~= old(self).items@.skip(1));
            Some(x)
        }
    }

    /// Replaces the source: what the old one still held is dropped.
    pub fn set(&mut self, items: Vec<(TraceId, T)>)
        ensures
            final(self).pending() == items@,
    {
        self.items = items;
    }

    /// Replaces the source and hands back the old one with what it still held.
    pub fn replace(&mut self, items: Vec<(TraceId, T)>) -> (r: Stream<T>)
        ensures
            final(self).pending() == items@,
            r.pending() == old(self).pending(),
    {
        let mut swapped = items;
        std::mem::swap(&mut self.items, &mut swapped);
        Stream { items: swapped }
    }
}

/// What a generator body emits: each item with the trace id that was current
/// when it was emitted.
pub struct Emitter<T> {
    items: Vec<(TraceId, T)>,
}

impl<T> Emitter<T> {
    pub closed spec fn emitted(&self) -> Seq<(TraceId, T)> {
        self.items@
    }

    pub fn new() -> (r: Emitter<T>)
        ensures
            r.emitted().len() == 0,
    {
        Emitter { items: Vec::new() }
    }

    /// Emits `item` under the trace id of `scope`.
    pub fn emit(&mut self, scope: &Scope, item: T)
        ensures
            final(self).emitted() == old(self).emitted().push((scope.trace_id_spec(), item)),
    {
        let t = scope.trace_id();
        self.items.push((t, item));
    }
}

} // verus!
