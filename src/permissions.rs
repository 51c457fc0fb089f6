use vstd::prelude::*;

use crate::config::SystemConfig;

verus! {

/// The severity of a log record, from the most to the least severe.
#[derive(Debug, Clone, Copy, PartialEq, Eq, Structural)]
pub enum Level {
    Error,
    Warn,
    Info,
    Debug,
    Trace,
}

impl Level {
    pub open spec fn rank(self) -> u64 {
        match self {
            Level::Error => 0,
            Level::Warn => 1,
            Level::Info => 2,
            Level::Debug => 3,
            Level::Trace => 4,
        }
    }

    pub fn rank_of(self) -> (r: u64)
        ensures
            r == self.rank(),
    {
        match self {
            Level::Error => 0,
            Level::Warn => 1,
            Level::Info => 2,
            Level::Debug => 3,
            Level::Trace => 4,
        }
    }
}

/// Whether a level passes a maximum level; `None` lets nothing pass.
pub open spec fn level_passes(level: Level, max_level: Option<Level>) -> bool {
    match max_level {
        Some(m) => level.rank() <= m.rank(),
        None => false,
    }
}

/// The bit that holds the dumping flag.
pub const DUMPING_BIT: u64 = 5;
/// The bit that holds the per-group telemetry flag.
pub const TELEMETRY_GROUP_BIT: u64 = 6;
/// The bit that holds the per-key telemetry flag.
pub const TELEMETRY_KEY_BIT: u64 = 7;

pub open spec fn bit_set(bits: u64, i: u64) -> bool {
    (bits >> i) & 1u64 == 1u64
}

/// `bits` with bit `i` set to `on` and every other bit kept.
fn with_bit(bits: u64, i: u64, on: bool) -> (r: u64)
    requires
        i < 64,
    ensures
        bit_set(r, i) == on,
        forall|j: u64| j < 64 && j != i ==> bit_set(r, j) == bit_set(bits, j),
{
    let r: u64 = if on {
        bits | (1u64 << i)
    } else {
        bits & !(1u64 << i)
    };
    if on {
        assert(bit_set(r, i)) by (bit_vector)
            requires
                r == bits | (1u64 << i),
                i < 64,
        ;
        assert forall|j: u64| j < 64 && j != i implies bit_set(r, j) == bit_set(bits, j) by {
            assert(bit_set(r, j) == bit_set(bits, j)) by (bit_vector)
                requires
                    r == bits | (1u64 << i),
                    i < 64,
                    j < 64,
                    j != i,
            ;
        }
    } else {
        assert(!bit_set(r, i)) by (bit_vector)
            requires
                r == bits & !(1u64 << i),
                i < 64,
        ;
        assert forall|j: u64| j < 64 && j != i implies bit_set(r, j) == bit_set(bits, j) by {
            assert(bit_set(r, j) == bit_set(bits, j)) by (bit_vector)
                requires
                    r == bits & !(1u64 << i),
                    i < 64,
                    j < 64,
                    j != i,
            ;
        }
    }
    r
}

/// Two words that agree on every bit are equal.
proof fn lemma_bits_equal(x: u64, y: u64)
    requires
        forall|j: u64| j < 64 ==> bit_set(x, j) == bit_set(y, j),
    ensures
        x == y,
{
    assert(bit_set(x, 0u64) == bit_set(y, 0u64));
    assert(bit_set(x, 1u64) == bit_set(y, 1u64));
    assert(bit_set(x, 2u64) == bit_set(y, 2u64));
    assert(bit_set(x, 3u64) == bit_set(y, 3u64));
    assert(bit_set(x, 4u64) == bit_set(y, 4u64));
    assert(bit_set(x, 5u64) == bit_set(y, 5u64));
    assert(bit_set(x, 6u64) == bit_set(y, 6u64));
    assert(bit_set(x, 7u64) == bit_set(y, 7u64));
    assert(bit_set(x, 8u64) == bit_set(y, 8u64));
    assert(bit_set(x, 9u64) == bit_set(y, 9u64));
    assert(bit_set(x, 10u64) == bit_set(y, 10u64));
    assert(bit_set(x, 11u64) == bit_set(y, 11u64));
    assert(bit_set(x, 12u64) == bit_set(y, 12u64));
    assert(bit_set(x, 13u64) == bit_set(y, 13u64));
    assert(bit_set(x, 14u64) == bit_set(y, 14u64));
    assert(bit_set(x, 15u64) == bit_set(y, 15u64));
    assert(bit_set(x, 16u64) == bit_set(y, 16u64));
    assert(bit_set(x, 17u64) == bit_set(y, 17u64));
    assert(bit_set(x, 18u64) == bit_set(y, 18u64));
    assert(bit_set(x, 19u64) == bit_set(y, 19u64));
    assert(bit_set(x, 20u64) == bit_set(y, 20u64));
    assert(bit_set(x, 21u64) == bit_set(y, 21u64));
    assert(bit_set(x, 22u64) == bit_set(y, 22u64));
    assert(bit_set(x, 23u64) == bit_set(y, 23u64));
    assert(bit_set(x, 24u64) == bit_set(y, 24u64));
    assert(bit_set(x, 25u64) == bit_set(y, 25u64));
    assert(bit_set(x, 26u64) == bit_set(y, 26u64));
    assert(bit_set(x, 27u64) == bit_set(y, 27u64));
    assert(bit_set(x, 28u64) == bit_set(y, 28u64));
    assert(bit_set(x, 29u64) == bit_set(y, 29u64));
    assert(bit_set(x, 30u64) == bit_set(y, 30u64));
    assert(bit_set(x, 31u64) == bit_set(y, 31u64));
    assert(bit_set(x, 32u64) == bit_set(y, 32u64));
    assert(bit_set(x, 33u64) == bit_set(y, 33u64));
    assert(bit_set(x, 34u64) == bit_set(y, 34u64));
    assert(bit_set(x, 35u64) == bit_set(y, 35u64));
    assert(bit_set(x, 36u64) == bit_set(y, 36u64));
    assert(bit_set(x, 37u64) == bit_set(y, 37u64));
    assert(bit_set(x, 38u64) == bit_set(y, 38u64));
    assert(bit_set(x, 39u64) == bit_set(y, 39u64));
    assert(bit_set(x, 40u64) == bit_set(y, 40u64));
    assert(bit_set(x, 41u64) == bit_set(y, 41u64));
    assert(bit_set(x, 42u64) == bit_set(y, 42u64));
    assert(bit_set(x, 43u64) == bit_set(y, 43u64));
    assert(bit_set(x, 44u64) == bit_set(y, 44u64));
    assert(bit_set(x, 45u64) == bit_set(y, 45u64));
    assert(bit_set(x, 46u64) == bit_set(y, 46u64));
    assert(bit_set(x, 47u64) == bit_set(y, 47u64));
    assert(bit_set(x, 48u64) == bit_set(y, 48u64));
    assert(bit_set(x, 49u64) == bit_set(y, 49u64));
    assert(bit_set(x, 50u64) == bit_set(y, 50u64));
    assert(bit_set(x, 51u64) == bit_set(y, 51u64));
    assert(bit_set(x, 52u64) == bit_set(y, 52u64));
    assert(bit_set(x, 53u64) == bit_set(y, 53u64));
    assert(bit_set(x, 54u64) == bit_set(y, 54u64));
    assert(bit_set(x, 55u64) == bit_set(y, 55u64));
    assert(bit_set(x, 56u64) == bit_set(y, 56u64));
    assert(bit_set(x, 57u64) == bit_set(y, 57u64));
    assert(bit_set(x, 58u64) == bit_set(y, 58u64));
    assert(bit_set(x, 59u64) == bit_set(y, 59u64));
    assert(bit_set(x, 60u64) == bit_set(y, 60u64));
    assert(bit_set(x, 61u64) == bit_set(y, 61u64));
    assert(bit_set(x, 62u64) == bit_set(y, 62u64));
    assert(bit_set(x, 63u64) == bit_set(y, 63u64));
    assert(x == y) by (bit_vector)
        requires
            ((x >> 0u64) & 1u64 == 1u64) == ((y >> 0u64) & 1u64 == 1u64),
            ((x >> 1u64) & 1u64 == 1u64) == ((y >> 1u64) & 1u64 == 1u64),
            ((x >> 2u64) & 1u64 == 1u64) == ((y >> 2u64) & 1u64 == 1u64),
            ((x >> 3u64) & 1u64 == 1u64) == ((y >> 3u64) & 1u64 == 1u64),
            ((x >> 4u64) & 1u64 == 1u64) == ((y >> 4u64) & 1u64 == 1u64),
            ((x >> 5u64) & 1u64 == 1u64) == ((y >> 5u64) & 1u64 == 1u64),
            ((x >> 6u64) & 1u64 == 1u64) == ((y >> 6u64) & 1u64 == 1u64),
            ((x >> 7u64) & 1u64 == 1u64) == ((y >> 7u64) & 1u64 == 1u64),
            ((x >> 8u64) & 1u64 == 1u64) == ((y >> 8u64) & 1u64 == 1u64),
            ((x >> 9u64) & 1u64 == 1u64) == ((y >> 9u64) & 1u64 == 1u64),
            ((x >> 10u64) & 1u64 == 1u64) == ((y >> 10u64) & 1u64 == 1u64),
            ((x >> 11u64) & 1u64 == 1u64) == ((y >> 11u64) & 1u64 == 1u64),
            ((x >> 12u64) & 1u64 == 1u64) == ((y >> 12u64) & 1u64 == 1u64),
            ((x >> 13u64) & 1u64 == 1u64) == ((y >> 13u64) & 1u64 == 1u64),
            ((x >> 14u64) & 1u64 == 1u64) == ((y >> 14u64) & 1u64 == 1u64),
            ((x >> 15u64) & 1u64 == 1u64) == ((y >> 15u64) & 1u64 == 1u64),
            ((x >> 16u64) & 1u64 == 1u64) == ((y >> 16u64) & 1u64 == 1u64),
            ((x >> 17u64) & 1u64 == 1u64) == ((y >> 17u64) & 1u64 == 1u64),
            ((x >> 18u64) & 1u64 == 1u64) == ((y >> 18u64) & 1u64 == 1u64),
            ((x >> 19u64) & 1u64 == 1u64) == ((y >> 19u64) & 1u64 == 1u64),
            ((x >> 20u64) & 1u64 == 1u64) == ((y >> 20u64) & 1u64 == 1u64),
            ((x >> 21u64) & 1u64 == 1u64) == ((y >> 21u64) & 1u64 == 1u64),
            ((x >> 22u64) & 1u64 == 1u64) == ((y >> 22u64) & 1u64 == 1u64),
            ((x >> 23u64) & 1u64 == 1u64) == ((y >> 23u64) & 1u64 == 1u64),
            ((x >> 24u64) & 1u64 == 1u64) == ((y >> 24u64) & 1u64 == 1u64),
            ((x >> 25u64) & 1u64 == 1u64) == ((y >> 25u64) & 1u64 == 1u64),
            ((x >> 26u64) & 1u64 == 1u64) == ((y >> 26u64) & 1u64 == 1u64),
            ((x >> 27u64) & 1u64 == 1u64) == ((y >> 27u64) & 1u64 == 1u64),
            ((x >> 28u64) & 1u64 == 1u64) == ((y >> 28u64) & 1u64 == 1u64),
            ((x >> 29u64) & 1u64 == 1u64) == ((y >> 29u64) & 1u64 == 1u64),
            ((x >> 30u64) & 1u64 == 1u64) == ((y >> 30u64) & 1u64 == 1u64),
            ((x >> 31u64) & 1u64 == 1u64) == ((y >> 31u64) & 1u64 == 1u64),
            ((x >> 32u64) & 1u64 == 1u64) == ((y >> 32u64) & 1u64 == 1u64),
            ((x >> 33u64) & 1u64 == 1u64) == ((y >> 33u64) & 1u64 == 1u64),
            ((x >> 34u64) & 1u64 == 1u64) == ((y >> 34u64) & 1u64 == 1u64),
            ((x >> 35u64) & 1u64 == 1u64) == ((y >> 35u64) & 1u64 == 1u64),
            ((x >> 36u64) & 1u64 == 1u64) == ((y >> 36u64) & 1u64 == 1u64),
            ((x >> 37u64) & 1u64 == 1u64) == ((y >> 37u64) & 1u64 == 1u64),
            ((x >> 38u64) & 1u64 == 1u64) == ((y >> 38u64) & 1u64 == 1u64),
            ((x >> 39u64) & 1u64 == 1u64) == ((y >> 39u64) & 1u64 == 1u64),
            ((x >> 40u64) & 1u64 == 1u64) == ((y >> 40u64) & 1u64 == 1u64),
            ((x >> 41u64) & 1u64 == 1u64) == ((y >> 41u64) & 1u64 == 1u64),
            ((x >> 42u64) & 1u64 == 1u64) == ((y >> 42u64) & 1u64 == 1u64),
            ((x >> 43u64) & 1u64 == 1u64) == ((y >> 43u64) & 1u64 == 1u64),
            ((x >> 44u64) & 1u64 == 1u64) == ((y >> 44u64) & 1u64 == 1u64),
            ((x >> 45u64) & 1u64 == 1u64) == ((y >> 45u64) & 1u64 == 1u64),
            ((x >> 46u64) & 1u64 == 1u64) == ((y >> 46u64) & 1u64 == 1u64),
            ((x >> 47u64) & 1u64 == 1u64) == ((y >> 47u64) & 1u64 == 1u64),
            ((x >> 48u64) & 1u64 == 1u64) == ((y >> 48u64) & 1u64 == 1u64),
            ((x >> 49u64) & 1u64 == 1u64) == ((y >> 49u64) & 1u64 == 1u64),
            ((x >> 50u64) & 1u64 == 1u64) == ((y >> 50u64) & 1u64 == 1u64),
            ((x >> 51u64) & 1u64 == 1u64) == ((y >> 51u64) & 1u64 == 1u64),
            ((x >> 52u64) & 1u64 == 1u64) == ((y >> 52u64) & 1u64 == 1u64),
            ((x >> 53u64) & 1u64 == 1u64) == ((y >> 53u64) & 1u64 == 1u64),
            ((x >> 54u64) & 1u64 == 1u64) == ((y >> 54u64) & 1u64 == 1u64),
            ((x >> 55u64) & 1u64 == 1u64) == ((y >> 55u64) & 1u64 == 1u64),
            ((x >> 56u64) & 1u64 == 1u64) == ((y >> 56u64) & 1u64 == 1u64),
            ((x >> 57u64) & 1u64 == 1u64) == ((y >> 57u64) & 1u64 == 1u64),
            ((x >> 58u64) & 1u64 == 1u64) == ((y >> 58u64) & 1u64 == 1u64),
            ((x >> 59u64) & 1u64 == 1u64) == ((y >> 59u64) & 1u64 == 1u64),
            ((x >> 60u64) & 1u64 == 1u64) == ((y >> 60u64) & 1u64 == 1u64),
            ((x >> 61u64) & 1u64 == 1u64) == ((y >> 61u64) & 1u64 == 1u64),
            ((x >> 62u64) & 1u64 == 1u64) == ((y >> 62u64) & 1u64 == 1u64),
            ((x >> 63u64) & 1u64 == 1u64) == ((y >> 63u64) & 1u64 == 1u64),
    ;
}

/// A snapshot of what an actor may do: which log levels it writes,
/// whether it dumps messages, and which telemetry it records.
#[derive(Debug, Clone, Copy, PartialEq, Eq, Structural)]
pub struct Permissions {
    bits: u64,
}

impl Permissions {
    pub closed spec fn raw(self) -> u64 {
        self.bits
    }

    pub open spec fn logging_on(self, level: Level) -> bool {
        bit_set(self.raw(), level.rank())
    }

    pub open spec fn dumping_on(self) -> bool {
        bit_set(self.raw(), DUMPING_BIT)
    }

    pub open spec fn telemetry_group_on(self) -> bool {
        bit_set(self.raw(), TELEMETRY_GROUP_BIT)
    }

    pub open spec fn telemetry_key_on(self) -> bool {
        bit_set(self.raw(), TELEMETRY_KEY_BIT)
    }

    /// Permissions with everything disabled.
    pub fn new() -> (r: Permissions)
        ensures
            r.raw() == 0,
            forall|l: Level| !r.logging_on(l),
            !r.dumping_on(),
            !r.telemetry_group_on(),
            !r.telemetry_key_on(),
    {
        let r = Permissions { bits: 0 };
        assert forall|i: u64| i < 64 implies !bit_set(0u64, i) by {
            assert(!bit_set(0u64, i)) by (bit_vector);
        }
        r
    }

    pub fn from_bits(bits: u64) -> (r: Permissions)
        ensures
            r.raw() == bits,
    {
        Permissions { bits }
    }

    pub fn to_bits(self) -> (r: u64)
        ensures
            r == self.raw(),
    {
        self.bits
    }

    pub fn is_logging_enabled(&self, level: Level) -> (r: bool)
        ensures
            r == self.logging_on(level),
    {
        (self.bits >> level.rank_of()) & 1 == 1
    }

    pub fn is_dumping_enabled(&self) -> (r: bool)
        ensures
            r == self.dumping_on(),
    {
        (self.bits >> DUMPING_BIT) & 1 == 1
    }

    pub fn is_telemetry_per_actor_group_enabled(&self) -> (r: bool)
        ensures
            r == self.telemetry_group_on(),
    {
        (self.bits >> TELEMETRY_GROUP_BIT) & 1 == 1
    }

    pub fn is_telemetry_per_actor_key_enabled(&self) -> (r: bool)
        ensures
            r == self.telemetry_key_on(),
    {
        (self.bits >> TELEMETRY_KEY_BIT) & 1 == 1
    }

    /// Enables exactly the levels up to `max_level`; `None` disables logging.
    pub fn set_logging_enabled(&mut self, max_level: Option<Level>)
        ensures
            forall|l: Level| #[trigger] final(self).logging_on(l) == level_passes(l, max_level),
            final(self).dumping_on() == old(self).dumping_on(),
            final(self).telemetry_group_on() == old(self).telemetry_group_on(),
            final(self).telemetry_key_on() == old(self).telemetry_key_on(),
            final(self).same_spare_bits(*old(self)),
    {
        let max_rank: u64 = match max_level {
            Some(m) => m.rank_of() + 1,
            None => 0,
        };
        let mut bits = self.bits;
        let mut i: u64 = 0;
        while i < 5
            invariant
                i <= 5,
                max_rank <= 5,
                max_level is None ==> max_rank == 0,
                max_level matches Some(m) ==> max_rank == m.rank() + 1,
                forall|j: u64| j < i ==> bit_set(bits, j) == (j < max_rank),
                forall|j: u64| i <= j < 64 ==> bit_set(bits, j) == bit_set(old(self).bits, j),
            decreases 5 - i,
        {
            bits = with_bit(bits, i, i < max_rank);
            i = i + 1;
        }
        self.bits = bits;
    }

    pub fn set_dumping_enabled(&mut self, on: bool)
        ensures
            final(self).dumping_on() == on,
            forall|l: Level| #[trigger] final(self).logging_on(l) == old(self).logging_on(l),
            final(self).telemetry_group_on() == old(self).telemetry_group_on(),
            final(self).telemetry_key_on() == old(self).telemetry_key_on(),
            final(self).same_spare_bits(*old(self)),
    {
        self.bits = with_bit(self.bits, DUMPING_BIT, on);
    }

    pub fn set_telemetry_per_actor_group_enabled(&mut self, on: bool)
        ensures
            final(self).telemetry_group_on() == on,
            forall|l: Level| #[trigger] final(self).logging_on(l) == old(self).logging_on(l),
            final(self).dumping_on() == old(self).dumping_on(),
            final(self).telemetry_key_on() == old(self).telemetry_key_on(),
            final(self).same_spare_bits(*old(self)),
    {
        self.bits = with_bit(self.bits, TELEMETRY_GROUP_BIT, on);
    }

    pub fn set_telemetry_per_actor_key_enabled(&mut self, on: bool)
        ensures
            final(self).telemetry_key_on() == on,
            forall|l: Level| #[trigger] final(self).logging_on(l) == old(self).logging_on(l),
            final(self).dumping_on() == old(self).dumping_on(),
            final(self).telemetry_group_on() == old(self).telemetry_group_on(),
            final(self).same_spare_bits(*old(self)),
    {
        self.bits = with_bit(self.bits, TELEMETRY_KEY_BIT, on);
    }

    /// The permissions that a system configuration grants.
    pub open spec fn grants(self, config: SystemConfig) -> bool {
        &&& forall|l: Level| #[trigger] self.logging_on(l) == level_passes(l, config.logging.max_level)
        &&& self.dumping_on() == !config.dumping.disabled
        &&& self.telemetry_group_on() == config.telemetry.per_actor_group
        &&& self.telemetry_key_on() == config.telemetry.per_actor_key
    }

    /// Whether `self` and `other` agree on every bit above the eight flags.
    pub open spec fn same_spare_bits(self, other: Permissions) -> bool {
        forall|j: u64| 8 <= j < 64 ==> bit_set(self.raw(), j) == bit_set(other.raw(), j)
    }

    /// Two snapshots that grant the same configuration and agree above the
    /// flags are equal; so configuring twice with one configuration gives
    /// the snapshot of the first time.
    pub proof fn determined(a: Permissions, b: Permissions, config: SystemConfig)
        requires
            a.grants(config),
            b.grants(config),
            a.same_spare_bits(b),
        ensures
            a == b,
    {
        assert(a.logging_on(Level::Error) == b.logging_on(Level::Error));
        assert(a.logging_on(Level::Warn) == b.logging_on(Level::Warn));
        assert(a.logging_on(Level::Info) == b.logging_on(Level::Info));
        assert(a.logging_on(Level::Debug) == b.logging_on(Level::Debug));
        assert(a.logging_on(Level::Trace) == b.logging_on(Level::Trace));
        assert forall|j: u64| j < 64 implies bit_set(a.bits, j) == bit_set(b.bits, j) by {
            if j == 0 {
                assert(Level::Error.rank() == j);
            } else if j == 1 {
                assert(Level::Warn.rank() == j);
            } else if j == 2 {
                assert(Level::Info.rank() == j);
            } else if j == 3 {
                assert(Level::Debug.rank() == j);
            } else if j == 4 {
                assert(Level::Trace.rank() == j);
            }
        }
        lemma_bits_equal(a.bits, b.bits);
    }

    /// Recomputes every flag from a system configuration; the bits above the
    /// flags are kept.
    pub fn configured(self, config: &SystemConfig) -> (r: Permissions)
        ensures
            r.grants(*config),
            r.same_spare_bits(self),
    {
        let mut perm = self;
        perm.set_logging_enabled(config.logging.max_level);
        perm.set_dumping_enabled(!config.dumping.disabled);
        perm.set_telemetry_per_actor_group_enabled(config.telemetry.per_actor_group);
        perm.set_telemetry_per_actor_key_enabled(config.telemetry.per_actor_key);
        perm
    }
}

} // verus!
