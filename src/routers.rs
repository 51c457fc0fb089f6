use vstd::prelude::*;

verus! {

/// Where a router sends one message.
pub enum Outcome {
    /// To the instance of one key.
    Unicast(u64),
    /// To the instances of these keys, in this order.
    Multicast(Vec<u64>),
    /// To every instance the supervisor knows.
    Broadcast,
    /// Nowhere.
    Discard,
}

/// Maps the messages of a group to the keys of its instances. Supplied
/// once, when the group is built.
pub trait Router<M> {
    fn route(&self, message: &M) -> Outcome;
}

} // verus!
