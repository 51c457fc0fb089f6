use vstd::prelude::*;

verus! {

/// The decimal digit `d` as a character.
pub open spec fn digit_char(d: nat) -> char {
    if d == 0 { '0' } else if d == 1 { '1' } else if d == 2 { '2' } else if d == 3 { '3' } else if d == 4 {
        '4'
    } else if d == 5 { '5' } else if d == 6 { '6' } else if d == 7 { '7' } else if d == 8 { '8' } else { '9' }
}

/// `n` written in decimal, without leading zeros.
pub open spec fn decimal(n: nat) -> Seq<char>
    decreases n,
{
    if n < 10 {
        seq![digit_char(n)]
    } else {
        decimal(n / 10).push(digit_char(n % 10))
    }
}

/// Relies on `String::push`: appends one character.
#[verifier::external_body]
fn push_char(s: &mut String, c: char)
    ensures
        final(s)@ == old(s)@.push(c),
{
    s.push(c)
}

fn digit_of(d: usize) -> (r: char)
    requires
        d < 10,
    ensures
        r == digit_char(d as nat),
{
    if d == 0 { '0' } else if d == 1 { '1' } else if d == 2 { '2' } else if d == 3 { '3' } else if d == 4 {
        '4'
    } else if d == 5 { '5' } else if d == 6 { '6' } else if d == 7 { '7' } else if d == 8 { '8' } else { '9' }
}

/// Appends `n` in decimal to `out`.
fn write_decimal(n: usize, out: &mut String)
    ensures
        final(out)@ == old(out)@ + decimal(n as nat),
    decreases n,
{
    if n >= 10 {
        write_decimal(n / 10, out);
    }
    push_char(out, digit_of(n % 10));
    assert(out@ =~= old(out)@ + decimal(n as nat));
}

/// An opaque handle naming a slot of the actor table.
#[derive(Debug, Clone, Copy, PartialEq, Eq, Structural)]
pub struct Addr(pub(crate) usize);

impl Addr {
    /// The sentinel that names no actor.
    pub fn null() -> (r: Addr)
        ensures
            r.bits() == 0,
    {
        Addr(0)
    }

    pub closed spec fn bits(self) -> usize {
        self.0
    }

    /// Two addresses are equal exactly when their bits are.
    pub proof fn bits_determine(a: Addr, b: Addr)
        ensures
            (a.bits() == b.bits()) == (a == b),
    {
    }

    pub fn from_bits(bits: usize) -> (r: Addr)
        ensures
            r.bits() == bits,
    {
        Addr(bits)
    }

    pub fn into_bits(self) -> (r: usize)
        ensures
            r == self.bits(),
    {
        self.0
    }

    /// The address as text: its index, then the version, which is always
    /// zero for now.
    pub fn to_text(&self) -> (r: String)
        ensures
            r@ == decimal(self.bits() as nat) + seq!['v', '0'],
    {
        let mut out = String::new();
        write_decimal(self.0, &mut out);
        push_char(&mut out, 'v');
        push_char(&mut out, '0');
        assert(out@ =~= decimal(self.bits() as nat) + seq!['v', '0']);
        out
    }

    pub fn is_null(self) -> (r: bool)
        ensures
            r == (self.bits() == 0),
    {
        self.0 == 0
    }
}

} // verus!
