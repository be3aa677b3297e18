//! The `mip` register: machine interrupt-pending bits.
use vstd::prelude::*;

verus! {

/// Whether bit `n` of `bits` is set.
pub open spec fn bit_set(bits: usize, n: usize) -> bool {
    (bits >> n) & 1 == 1
}

/// A value read from the `mip` register.
#[derive(Clone, Copy, Debug)]
pub struct Mip {
    bits: usize,
}

impl View for Mip {
    type V = usize;

    closed spec fn view(&self) -> usize {
        self.bits
    }
}

impl Mip {
    /// Wraps the raw contents of the register.
    pub fn from_bits(bits: usize) -> (r: Mip)
        ensures
            r@ == bits,
    {
        Mip { bits }
    }

    /// Returns the contents of the register as raw bits
    pub fn bits(&self) -> (r: usize)
        ensures
            r == self@,
    {
        self.bits
    }

    /// User Software Interrupt Pending
    pub fn usoft(&self) -> (r: bool)
        ensures
            r == bit_set(self@, 0),
    {
        let bits = self.bits;
        assert(bits & (1usize << 0usize) == (1usize << 0usize) <==> (bits >> 0usize) & 1 == 1) by (bit_vector);
        bits & (1 << 0) == 1 << 0
    }

    /// Supervisor Software Interrupt Pending
    pub fn ssoft(&self) -> (r: bool)
        ensures
            r == bit_set(self@, 1),
    {
        let bits = self.bits;
        assert(bits & (1usize << 1usize) == (1usize << 1usize) <==> (bits >> 1usize) & 1 == 1) by (bit_vector);
        bits & (1 << 1) == 1 << 1
    }

    /// Machine Software Interrupt Pending
    pub fn msoft(&self) -> (r: bool)
        ensures
            r == bit_set(self@, 3),
    {
        let bits = self.bits;
        assert(bits & (1usize << 3usize) == (1usize << 3usize) <==> (bits >> 3usize) & 1 == 1) by (bit_vector);
        bits & (1 << 3) == 1 << 3
    }

    /// User Timer Interrupt Pending
    pub fn utimer(&self) -> (r: bool)
        ensures
            r == bit_set(self@, 4),
    {
        let bits = self.bits;
        assert(bits & (1usize << 4usize) == (1usize << 4usize) <==> (bits >> 4usize) & 1 == 1) by (bit_vector);
        bits & (1 << 4) == 1 << 4
    }

    /// Supervisor Timer Interrupt Pending
    pub fn stimer(&self) -> (r: bool)
        ensures
            r == bit_set(self@, 5),
    {
        let bits = self.bits;
        assert(bits & (1usize << 5usize) == (1usize << 5usize) <==> (bits >> 5usize) & 1 == 1) by (bit_vector);
        bits & (1 << 5) == 1 << 5
    }

    /// Machine Timer Interrupt Pending
    pub fn mtimer(&self) -> (r: bool)
        ensures
            r == bit_set(self@, 7),
    {
        let bits = self.bits;
        assert(bits & (1usize << 7usize) == (1usize << 7usize) <==> (bits >> 7usize) & 1 == 1) by (bit_vector);
        bits & (1 << 7) == 1 << 7
    }

    /// User External Interrupt Pending
    pub fn uext(&self) -> (r: bool)
        ensures
            r == bit_set(self@, 8),
    {
        let bits = self.bits;
        assert(bits & (1usize << 8usize) == (1usize << 8usize) <==> (bits >> 8usize) & 1 == 1) by (bit_vector);
        bits & (1 << 8) == 1 << 8
    }

    /// Supervisor External Interrupt Pending
    pub fn sext(&self) -> (r: bool)
        ensures
            r == bit_set(self@, 9),
    {
        let bits = self.bits;
        assert(bits & (1usize << 9usize) == (1usize << 9usize) <==> (bits >> 9usize) & 1 == 1) by (bit_vector);
        bits & (1 << 9) == 1 << 9
    }

    /// Machine External Interrupt Pending
    pub fn mext(&self) -> (r: bool)
        ensures
            r == bit_set(self@, 11),
    {
        let bits = self.bits;
        assert(bits & (1usize << 11usize) == (1usize << 11usize) <==> (bits >> 11usize) & 1 == 1) by (bit_vector);
        bits & (1 << 11) == 1 << 11
    }
}

} // verus!
