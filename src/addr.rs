//! Sv32 addresses: 32-bit virtual addresses, 34-bit physical addresses, and the 4 KiB
//! pages and frames they fall in.
use vstd::prelude::*;

verus! {

/// Number of bytes in a page or a frame.
pub const PAGE_SIZE: u32 = 4096;

/// Number of entries in a page table, and so the range of each table index.
pub const ENTRY_COUNT: usize = 1024;

/// A virtual address.
#[derive(Clone, Copy, Debug, PartialEq, Eq, Structural)]
pub struct VirtAddr {
    pub addr: u32,
}

impl VirtAddr {
    pub fn new(addr: u32) -> (r: VirtAddr)
        ensures
            r.addr == addr,
    {
        VirtAddr { addr }
    }

    pub fn as_u32(&self) -> (r: u32)
        ensures
            r == self.addr,
    {
        self.addr
    }
}

/// A physical address; Sv32 physical addresses have 34 bits.
#[derive(Clone, Copy, Debug, PartialEq, Eq, Structural)]
pub struct PhysAddr {
    pub addr: u64,
}

impl PhysAddr {
    pub open spec fn wf(self) -> bool {
        self.addr < 0x4_0000_0000
    }

    pub fn new(addr: u64) -> (r: PhysAddr)
        ensures
            r.addr == addr,
    {
        PhysAddr { addr }
    }

    pub fn as_u64(&self) -> (r: u64)
        ensures
            r == self.addr,
    {
        self.addr
    }
}

/// A virtual page, identified by its page number (the address divided by the page size).
#[derive(Clone, Copy, Debug, PartialEq, Eq, Structural)]
pub struct Page {
    pub number: u32,
}

impl Page {
    /// The page number fits in the 20 bits of a 32-bit address above the page offset.
    pub open spec fn wf(self) -> bool {
        self.number < 0x10_0000
    }

    /// Index of the page's entry in the top-level table.
    pub open spec fn p2(self) -> int {
        (self.number / 1024) as int % 1024
    }

    /// Index of the page's entry in its leaf table.
    pub open spec fn p1(self) -> int {
        self.number as int % 1024
    }

    /// The page that contains `addr`.
    pub fn of_addr(addr: VirtAddr) -> (r: Page)
        ensures
            r.number == addr.addr / 4096,
            r.wf(),
    {
        let a = addr.addr;
        assert(a >> 12u32 == a / 4096 && a / 4096 < 0x10_0000) by (bit_vector);
        Page { number: a >> 12 }
    }

    /// The first address of the page.
    pub fn start_address(&self) -> (r: VirtAddr)
        requires
            self.wf(),
        ensures
            r.addr == self.number * 4096,
    {
        let n = self.number;
        assert(n < 0x10_0000 ==> n << 12u32 == n * 4096) by (bit_vector);
        VirtAddr { addr: n << 12 }
    }

    /// Index of the page's entry in the top-level table.
    pub fn p2_index(&self) -> (r: usize)
        ensures
            r == self.p2(),
            r < ENTRY_COUNT,
    {
        let n = self.number;
        assert((n >> 10u32) & 0x3ff == (n / 1024) % 1024) by (bit_vector);
        ((n >> 10) & 0x3ff) as usize
    }

    /// Index of the page's entry in its leaf table.
    pub fn p1_index(&self) -> (r: usize)
        ensures
            r == self.p1(),
            r < ENTRY_COUNT,
    {
        let n = self.number;
        assert(n & 0x3ff == n % 1024) by (bit_vector);
        (n & 0x3ff) as usize
    }

    /// The page whose top-level index is `p2_index` and whose leaf index is `p1_index`.
    pub fn from_page_table_indices(p2_index: usize, p1_index: usize) -> (r: Page)
        requires
            p2_index < ENTRY_COUNT,
            p1_index < ENTRY_COUNT,
        ensures
            r.wf(),
            r.p2() == p2_index,
            r.p1() == p1_index,
            r.number == p2_index * 1024 + p1_index,
    {
        let a = p2_index as u32;
        let b = p1_index as u32;
        assert(a < 1024 && b < 1024 ==> (a << 10u32) | b == a * 1024 + b) by (bit_vector);
        let n: u32 = (a << 10) | b;
        assert(n == a * 1024 + b);
        assert((a * 1024 + b) / 1024 == a && (a * 1024 + b) % 1024 == b) by (nonlinear_arith)
            requires a < 1024, b < 1024;
        Page { number: n }
    }
}

/// A physical frame, identified by its frame number (the address divided by the frame size).
#[derive(Clone, Copy, Debug, PartialEq, Eq, Structural)]
pub struct Frame {
    pub number: u32,
}

impl Frame {
    /// The virtual page whose base address equals the frame's base address.
    pub open spec fn identity_page(self) -> Page {
        Page { number: self.number }
    }

    /// The frame number fits in the 22 bits of a 34-bit physical address above the offset.
    pub open spec fn wf(self) -> bool {
        self.number < 0x40_0000
    }

    /// Builds the frame with number `number`.
    pub fn from_number(number: u32) -> (r: Frame)
        requires
            number < 0x40_0000,
        ensures
            r.number == number,
            r.wf(),
    {
        Frame { number }
    }

    /// The frame that contains `addr`.
    pub fn of_addr(addr: PhysAddr) -> (r: Frame)
        requires
            addr.wf(),
        ensures
            r.number == addr.addr / 4096,
            r.wf(),
    {
        let a = addr.addr;
        assert(a < 0x4_0000_0000 ==> a >> 12u64 == a / 4096 && a / 4096 < 0x40_0000) by (bit_vector);
        Frame { number: (a >> 12) as u32 }
    }

    /// The first address of the frame.
    pub fn start_address(&self) -> (r: PhysAddr)
        ensures
            r.addr == self.number * 4096,
    {
        let n = self.number as u64;
        assert(n < 0x1_0000_0000 ==> n << 12u64 == n * 4096) by (bit_vector);
        PhysAddr { addr: n << 12 }
    }
}

} // verus!
