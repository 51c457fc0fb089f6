use vstd::prelude::*;

verus! {

/// A correlation identifier of one logical request; never zero.
#[derive(Debug, Clone, Copy, PartialEq, Eq, Structural)]
pub struct TraceId {
    value: u64,
}

impl TraceId {
    pub closed spec fn raw(self) -> u64 {
        self.value
    }

    pub closed spec fn wf(self) -> bool {
        self.value != 0
    }

    /// Builds a trace id from a raw value; zero is not a trace id.
    pub fn new(value: u64) -> (r: Option<TraceId>)
        ensures
            value == 0 <==> r.is_none(),
            r matches Some(t) ==> t.raw() == value && t.wf(),
    {
        if value == 0 {
            None
        } else {
            Some(TraceId { value })
        }
    }

    pub fn to_u64(self) -> (r: u64)
        ensures
            r == self.raw(),
    {
        self.value
    }
}

} // verus!
