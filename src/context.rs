use vstd::prelude::*;

use crate::scope::Scope;
use crate::stream::Stream;
use crate::trace_id::TraceId;

verus! {

/// What a receive attempt found.
pub enum Received<T> {
    /// A message, from the mailbox or from an attached stream.
    Message(T),
    /// Nothing is ready yet; the mailbox is still open.
    Empty,
    /// The mailbox is closed and no attached stream holds anything.
    Closed,
}

/// A source of a context: its mailbox or one of its streams.
#[derive(Debug, Clone, Copy, PartialEq, Eq, Structural)]
pub enum Source {
    Mailbox,
    Stream(usize),
}

/// Whether `j` is the first stream that holds an item.
pub open spec fn is_first_ready<T>(streams: Seq<Seq<(TraceId, T)>>, j: int) -> bool {
    &&& 0 <= j < streams.len()
    &&& streams[j].len() > 0
    &&& forall|k: int| 0 <= k < j ==> streams[k].len() == 0
}

/// The exchange surface of one running instance: its mailbox and the
/// streams attached to it.
pub struct Context<T> {
    mailbox: Vec<(TraceId, T)>,
    mailbox_closed: bool,
    streams: Vec<Stream<T>>,
}

impl<T> Context<T> {
    /// The messages waiting in the mailbox, in order of arrival.
    pub closed spec fn mailbox(&self) -> Seq<(TraceId, T)> {
        self.mailbox@
    }

    pub closed spec fn is_closed(&self) -> bool {
        self.mailbox_closed
    }

    /// What each attached stream still holds.
    pub closed spec fn streams(&self) -> Seq<Seq<(TraceId, T)>> {
        self.streams@.map_values(|s: Stream<T>| s.pending())
    }

    /// A context with an open, empty mailbox and no stream.
    pub fn new() -> (r: Context<T>)
        ensures
            r.mailbox().len() == 0,
            !r.is_closed(),
            r.streams().len() == 0,
    {
        let r = Context { mailbox: Vec::new(), mailbox_closed: false, streams: Vec::new() };
        assert(r.streams() =~= Seq::empty());
        r
    }

    /// Puts a message in the mailbox, unless the mailbox is closed.
    /// Returns whether the message was accepted.
    pub fn deliver(&mut self, trace_id: TraceId, message: T) -> (r: bool)
        ensures
            r == !old(self).is_closed(),
            final(self).mailbox() == if r {
                old(self).mailbox().push((trace_id, message))
            } else {
                old(self).mailbox()
            },
            final(self).is_closed() == old(self).is_closed(),
            final(self).streams() == old(self).streams(),
    {
        if self.mailbox_closed {
            false
        } else {
            self.mailbox.push((trace_id, message));
            true
        }
    }

    /// Closes the mailbox: it accepts nothing more, and what it holds is
    /// still received.
    pub fn close(&mut self)
        ensures
            final(self).is_closed(),
            final(self).mailbox() == old(self).mailbox(),
            final(self).streams() == old(self).streams(),
    {
        self.mailbox_closed = true;
    }

    pub fn is_mailbox_closed(&self) -> (r: bool)
        ensures
            r == self.is_closed(),
    {
        self.mailbox_closed
    }

    pub fn stream_count(&self) -> (r: usize)
        ensures
            r == self.streams().len(),
    {
        self.streams.len()
    }

    /// Attaches a stream; returns its index.
    pub fn with(&mut self, stream: Stream<T>) -> (r: usize)
        ensures
            r == old(self).streams().len(),
            final(self).streams() == old(self).streams().push(stream.pending()),
            final(self).mailbox() == old(self).mailbox(),
            final(self).is_closed() == old(self).is_closed(),
    {
        let n = self.streams.len();
        self.streams.push(stream);
        assert(self.streams@.map_values(|s: Stream<T>| s.pending()) =~= old(self).streams@.map_values(
            |s: Stream<T>| s.pending(),
        ).push(stream.pending()));
        n
    }

    /// Replaces the items of stream `j`; what it still held is dropped.
    pub fn set(&mut self, j: usize, items: Vec<(TraceId, T)>)
        requires
            j < old(self).streams().len(),
        ensures
            final(self).streams() == old(self).streams().update(j as int, items@),
            final(self).mailbox() == old(self).mailbox(),
            final(self).is_closed() == old(self).is_closed(),
    {
        let mut s = self.streams.remove(j);
        s.set(items);
        self.streams.insert(j, s);
        assert(self.streams@.map_values(|s: Stream<T>| s.pending()) =~= old(self).streams@.map_values(
            |s: Stream<T>| s.pending(),
        ).update(j as int, items@));
    }

    /// Replaces the items of stream `j` and hands back the old stream with
    /// what it still held.
    pub fn replace(&mut self, j: usize, items: Vec<(TraceId, T)>) -> (r: Stream<T>)
        requires
            j < old(self).streams().len(),
        ensures
            r.pending() == old(self).streams()[j as int],
            final(self).streams() == old(self).streams().update(j as int, items@),
            final(self).mailbox() == old(self).mailbox(),
            final(self).is_closed() == old(self).is_closed(),
    {
        let mut s = self.streams.remove(j);
        let r = s.replace(items);
        self.streams.insert(j, s);
        assert(self.streams@.map_values(|s: Stream<T>| s.pending()) =~= old(self).streams@.map_values(
            |s: Stream<T>| s.pending(),
        ).update(j as int, items@));
        r
    }

    /// The index of the first stream that holds an item, if any.
    fn first_ready(&self) -> (r: Option<usize>)
        ensures
            r matches Some(j) ==> is_first_ready(self.streams(), j as int),
            r is None ==> forall|k: int| 0 <= k < self.streams().len() ==> self.streams()[k].len() == 0,
    {
        let mut j: usize = 0;
        while j < self.streams.len()
            invariant
                j <= self.streams@.len(),
                forall|k: int| 0 <= k < j ==> self.streams()[k].len() == 0,
            decreases self.streams@.len() - j,
        {
            if !self.streams[j].is_exhausted() {
                return Some(j);
            }
            j = j + 1;
        }
        None
    }

    /// The items that `source` still holds.
    pub open spec fn pending_of(&self, source: Source) -> Seq<(TraceId, T)> {
        match source {
            Source::Mailbox => self.mailbox(),
            Source::Stream(j) => self.streams()[j as int],
        }
    }

    /// Whether no source holds anything.
    pub open spec fn all_drained(&self) -> bool {
        &&& self.mailbox().len() == 0
        &&& forall|k: int| 0 <= k < self.streams().len() ==> self.streams()[k].len() == 0
    }

    /// Takes the next message from `ready`, the source that became ready
    /// first: whichever source's item arrives first wins, and each source
    /// gives its items in order. Before the message is handed out, the scope
    /// takes the message's trace id. Where `ready` holds nothing, nothing
    /// changes, and the result says whether more may come.
    pub fn try_recv(&mut self, scope: &mut Scope, ready: Source) -> (r: Received<T>)
        requires
            ready matches Source::Stream(j) ==> j < old(self).streams().len(),
        ensures
            final(self).is_closed() == old(self).is_closed(),
            final(scope).actor_spec() == old(scope).actor_spec(),
            final(scope).group_spec() == old(scope).group_spec(),
            final(scope).meta_spec() == old(scope).meta_spec(),
            old(self).pending_of(ready).len() > 0 ==> {
                &&& r == Received::Message(old(self).pending_of(ready)[0].1)
                &&& final(scope).trace_id_spec() == old(self).pending_of(ready)[0].0
                &&& match ready {
                    Source::Mailbox => final(self).mailbox() == old(self).mailbox().skip(1)
                        && final(self).streams() == old(self).streams(),
                    Source::Stream(j) => final(self).mailbox() == old(self).mailbox() && final(self).streams()
                        == old(self).streams().update(j as int, old(self).streams()[j as int].skip(1)),
                }
            },
            old(self).pending_of(ready).len() == 0 ==> {
                &&& r == if old(self).is_closed() && old(self).all_drained() {
                    Received::<T>::Closed
                } else {
                    Received::<T>::Empty
                }
                &&& final(scope).trace_id_spec() == old(scope).trace_id_spec()
                &&& final(self).mailbox() == old(self).mailbox()
                &&& final(self).streams() == old(self).streams()
            },
    {
        match ready {
            Source::Mailbox => {
                if self.mailbox.len() > 0 {
                    let (t, m) = self.mailbox.remove(0);
                    assert(self.mailbox@ =~= old(self).mailbox@.skip(1));
                    scope.set_trace_id(t);
                    return Received::Message(m);
                }
            },
            Source::Stream(j) => {
                if !self.streams[j].is_exhausted() {
                    let mut s = self.streams.remove(j);
                    let item = s.pull();
                    self.streams.insert(j, s);
                    assert(self.streams@.map_values(|s: Stream<T>| s.pending()) =~= old(self).streams@.map_values(
                        |s: Stream<T>| s.pending(),
                    ).update(j as int, old(self).streams()[j as int].skip(1)));
                    match item {
                        Some((t, m)) => {
                            scope.set_trace_id(t);
                            return Received::Message(m);
                        },
                        None => {
                            return Received::Empty;
                        },
                    }
                }
            },
        }
        if self.mailbox_closed && self.mailbox.len() == 0 && self.first_ready().is_none() {
            Received::Closed
        } else {
            proof {
                if self.mailbox_closed && self.mailbox@.len() == 0 {
                    assert(!self.all_drained());
                }
            }
            Received::Empty
        }
    }
}

} // verus!
