//! Sv32 page-table entries and their flag bits.
use vstd::prelude::*;
use crate::addr::Frame;

verus! {

/// The entry is valid: it maps a frame or names a leaf table.
pub const VALID: u32 = 1;
pub const READABLE: u32 = 2;
pub const WRITABLE: u32 = 4;
pub const EXECUTABLE: u32 = 8;
pub const USER: u32 = 16;
pub const GLOBAL: u32 = 32;
pub const ACCESSED: u32 = 64;
pub const DIRTY: u32 = 128;

/// The ten flag bits of an entry.
#[derive(Clone, Copy, Debug, PartialEq, Eq, Structural)]
pub struct PageTableFlags {
    pub bits: u32,
}

impl PageTableFlags {
    pub open spec fn wf(self) -> bool {
        self.bits < 1024
    }

    /// The flags among `bits` that an entry can hold; higher bits are dropped.
    pub fn from_bits_truncate(bits: u32) -> (r: PageTableFlags)
        ensures
            r.bits == bits % 1024,
            r.wf(),
    {
        assert(bits & 0x3ff == bits % 1024) by (bit_vector);
        PageTableFlags { bits: bits & 0x3ff }
    }

    pub fn bits(&self) -> (r: u32)
        ensures
            r == self.bits,
    {
        self.bits
    }

    /// Whether every flag of `other` is set in `self`.
    pub fn contains(&self, other: u32) -> (r: bool)
        ensures
            r == (self.bits & other == other),
    {
        self.bits & other == other
    }
}

/// A page-table entry: the frame number in bits 10 and up, the flags in bits 0 to 9.
/// An entry whose bits are all zero is unused.
#[derive(Clone, Copy, Debug, PartialEq, Eq, Structural)]
pub struct PageTableEntry {
    pub bits: u32,
}

/// The bits of an entry that holds `frame` with `flags`.
pub open spec fn entry_bits(frame: Frame, flags: PageTableFlags) -> int {
    frame.number * 1024 + flags.bits
}

impl PageTableEntry {
    /// The entry that holds `frame` with `flags`.
    pub open spec fn spec_new(frame: Frame, flags: PageTableFlags) -> PageTableEntry {
        PageTableEntry { bits: entry_bits(frame, flags) as u32 }
    }

    pub open spec fn spec_unused(self) -> bool {
        self.bits == 0
    }

    pub open spec fn spec_frame(self) -> Frame {
        Frame { number: self.bits / 1024 }
    }

    pub open spec fn spec_flags(self) -> PageTableFlags {
        PageTableFlags { bits: self.bits % 1024 }
    }

    /// Whether the entry's valid flag is set.
    pub open spec fn spec_valid(self) -> bool {
        self.bits % 2 == 1
    }

    /// An unused entry.
    pub fn unused() -> (r: PageTableEntry)
        ensures
            r.spec_unused(),
    {
        PageTableEntry { bits: 0 }
    }

    pub fn is_unused(&self) -> (r: bool)
        ensures
            r == self.spec_unused(),
    {
        self.bits == 0
    }

    pub fn frame(&self) -> (r: Frame)
        ensures
            r == self.spec_frame(),
            r.wf(),
    {
        let b = self.bits;
        assert(b >> 10u32 == b / 1024 && b / 1024 < 0x40_0000) by (bit_vector);
        Frame { number: b >> 10 }
    }

    pub fn flags(&self) -> (r: PageTableFlags)
        ensures
            r == self.spec_flags(),
            r.wf(),
    {
        let b = self.bits;
        assert(b & 0x3ff == b % 1024) by (bit_vector);
        PageTableFlags { bits: b & 0x3ff }
    }

    /// Whether the entry's valid flag is set.
    pub fn is_valid(&self) -> (r: bool)
        ensures
            r == self.spec_valid(),
    {
        let b = self.bits;
        assert(b & 1 == b % 2) by (bit_vector);
        b & 1 == 1
    }

    /// The entry that holds `frame` with `flags`.
    pub fn new(frame: Frame, flags: PageTableFlags) -> (r: PageTableEntry)
        requires
            frame.wf(),
            flags.wf(),
        ensures
            r == PageTableEntry::spec_new(frame, flags),
            r.bits == entry_bits(frame, flags),
            r.spec_frame() == frame,
            r.spec_flags() == flags,
            r.spec_valid() == (flags.bits % 2 == 1),
            r.spec_unused() == (frame.number == 0 && flags.bits == 0),
    {
        let n = frame.number;
        let f = flags.bits;
        assert(n < 0x40_0000 && f < 1024 ==> (n << 10u32) | f == n * 1024 + f) by (bit_vector);
        assert((n * 1024 + f) / 1024 == n && (n * 1024 + f) % 1024 == f
            && n * 1024 + f < 0x1_0000_0000
            && ((n * 1024 + f) % 1024) % 2 == f % 2) by (nonlinear_arith)
            requires n < 0x40_0000, f < 1024;
        PageTableEntry { bits: (n << 10) | f }
    }

    /// Makes the entry hold `frame` with `flags`.
    pub fn set(&mut self, frame: Frame, flags: PageTableFlags)
        requires
            frame.wf(),
            flags.wf(),
        ensures
            final(self).bits == entry_bits(frame, flags),
            final(self).spec_frame() == frame,
            final(self).spec_flags() == flags,
    {
        *self = PageTableEntry::new(frame, flags);
    }

    /// Makes the entry unused.
    pub fn set_unused(&mut self)
        ensures
            final(self).spec_unused(),
    {
        self.bits = 0;
    }
}

} // verus!
