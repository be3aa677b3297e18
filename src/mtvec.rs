//! The `mtvec` register: machine trap-vector base address and mode.
use vstd::prelude::*;

verus! {

/// A value read from the `mtvec` register.
#[derive(Clone, Copy, Debug)]
pub struct Mtvec {
    bits: usize,
}

/// Trap mode
#[derive(Clone, Copy, Debug, PartialEq, Eq, Structural)]
pub enum TrapMode {
    Direct,
    Vectored,
}

impl TrapMode {
    /// The value of the mode field (the two low bits of the register) for this mode.
    pub open spec fn spec_bits(self) -> usize {
        match self {
            TrapMode::Direct => 0,
            TrapMode::Vectored => 1,
        }
    }

    /// Returns the value of the mode field for this mode.
    pub fn bits(&self) -> (r: usize)
        ensures
            r == self.spec_bits(),
    {
        match self {
            TrapMode::Direct => 0,
            TrapMode::Vectored => 1,
        }
    }
}

impl View for Mtvec {
    type V = usize;

    closed spec fn view(&self) -> usize {
        self.bits
    }
}

impl Mtvec {
    /// Wraps the raw contents of the register.
    pub fn from_bits(bits: usize) -> (r: Mtvec)
        ensures
            r@ == bits,
    {
        Mtvec { bits }
    }

    /// The register contents that select base address `addr` and mode `mode`: the mode is
    /// added to the address.
    pub fn new(addr: usize, mode: TrapMode) -> (r: Mtvec)
        requires
            addr + mode.spec_bits() <= usize::MAX,
        ensures
            r@ == addr + mode.spec_bits(),
    {
        Mtvec { bits: addr + mode.bits() }
    }

    /// Returns the contents of the register as raw bits
    pub fn bits(&self) -> (r: usize)
        ensures
            r == self@,
    {
        self.bits
    }

    /// Returns the trap-vector base-address
    pub fn address(&self) -> (r: usize)
        ensures
            r == self@ - self@ % 4,
    {
        let bits = self.bits;
        assert(bits & 3 == bits % 4 && bits & 3 <= bits) by (bit_vector);
        bits - (bits & 0b11)
    }

    /// Returns the trap-vector mode. The two values of the mode field that name no mode
    /// are reserved and must not be present.
    pub fn trap_mode(&self) -> (r: TrapMode)
        requires
            self@ % 4 < 2,
        ensures
            r.spec_bits() == self@ % 4,
    {
        let bits = self.bits;
        assert(bits & 3 == bits % 4) by (bit_vector);
        let mode = bits & 0b11;
        if mode == 0 {
            TrapMode::Direct
        } else {
            TrapMode::Vectored
        }
    }
}

} // verus!
