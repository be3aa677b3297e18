//! Physical memory as seen by the page-table code: every frame can hold a page table of
//! `ENTRY_COUNT` entries. Only frames that have been written are stored; every other frame
//! reads as a zeroed table, whose entries are all unused.
use vstd::prelude::*;
use crate::addr::{Frame, ENTRY_COUNT};
use crate::page_table::PageTableEntry;

verus! {

/// The tables held in physical memory, keyed by frame number.
#[derive(Debug)]
pub struct PhysMemory {
    frames: Vec<u32>,
    entries: Vec<PageTableEntry>,
}

proof fn lemma_slot_offset(s: int, i: int, t: int, j: int)
    requires
        0 <= i < 1024,
        0 <= j < 1024,
        0 <= s,
        0 <= t,
    ensures
        (s * 1024 + i == t * 1024 + j) <==> (s == t && i == j),
{
    if s < t {
        assert(s * 1024 + 1024 <= t * 1024) by (nonlinear_arith)
            requires s < t;
    } else if t < s {
        assert(t * 1024 + 1024 <= s * 1024) by (nonlinear_arith)
            requires t < s;
    }
}

proof fn lemma_slot_bound(s: int, i: int, n: int)
    requires
        0 <= s < n,
        0 <= i < 1024,
    ensures
        0 <= s * 1024 + i < n * 1024,
{
    assert(s * 1024 + i < n * 1024) by (nonlinear_arith)
        requires s < n, i < 1024;
}

impl PhysMemory {
    pub closed spec fn wf(&self) -> bool {
        &&& self.entries@.len() == self.frames@.len() * 1024
        &&& forall|a: int, b: int|
            0 <= a < b < self.frames@.len() ==> self.frames@[a] != self.frames@[b]
    }

    closed spec fn holds(&self, f: u32) -> bool {
        exists|s: int| 0 <= s < self.frames@.len() && self.frames@[s] == f
    }

    closed spec fn slot(&self, f: u32) -> int {
        choose|s: int| 0 <= s < self.frames@.len() && self.frames@[s] == f
    }

    /// Entry `i` of the table in frame `f`.
    pub closed spec fn entry(&self, f: u32, i: int) -> PageTableEntry {
        if self.holds(f) {
            self.entries@[self.slot(f) * 1024 + i]
        } else {
            PageTableEntry { bits: 0 }
        }
    }

    proof fn lemma_slot_unique(&self, f: u32, s: int)
        requires
            self.wf(),
            0 <= s < self.frames@.len(),
            self.frames@[s] == f,
        ensures
            self.holds(f),
            self.slot(f) == s,
    {
        let t = self.slot(f);
        if t != s {
            if t < s {
                assert(self.frames@[t] != self.frames@[s]);
            } else {
                assert(self.frames@[s] != self.frames@[t]);
            }
        }
    }

    /// Memory in which every table is zeroed.
    pub fn new() -> (r: PhysMemory)
        ensures
            r.wf(),
            forall|f: u32, i: int| #[trigger] r.entry(f, i).spec_unused(),
    {
        PhysMemory { frames: Vec::new(), entries: Vec::new() }
    }

    fn find(&self, f: u32) -> (r: Option<usize>)
        requires
            self.wf(),
        ensures
            r.is_none() ==> !self.holds(f),
            r matches Some(s) ==> s < self.frames@.len() && self.frames@[s as int] == f
                && self.slot(f) == s,
    {
        let mut s: usize = 0;
        while s < self.frames.len()
            invariant
                self.wf(),
                s <= self.frames@.len(),
                forall|t: int| 0 <= t < s ==> self.frames@[t] != f,
            decreases self.frames@.len() - s,
        {
            if self.frames[s] == f {
                proof {
                    self.lemma_slot_unique(f, s as int);
                }
                return Some(s);
            }
            s = s + 1;
        }
        None
    }

    /// Reads entry `index` of the table in `frame`.
    pub fn read(&self, frame: Frame, index: usize) -> (r: PageTableEntry)
        requires
            self.wf(),
            index < ENTRY_COUNT,
        ensures
            r == self.entry(frame.number, index as int),
    {
        match self.find(frame.number) {
            Some(s) => {
                let len = self.entries.len();
                proof {
                    lemma_slot_bound(s as int, index as int, self.frames@.len() as int);
                }
                assert(s * 1024 + index < len);
                self.entries[s * 1024 + index]
            },
            None => PageTableEntry { bits: 0 },
        }
    }

    /// Gives `frame` a stored (zeroed) table if it has none, and returns its slot.
    fn slot_for(&mut self, frame: Frame) -> (r: usize)
        requires
            old(self).wf(),
        ensures
            final(self).wf(),
            r < final(self).frames@.len(),
            final(self).frames@[r as int] == frame.number,
            final(self).slot(frame.number) == r,
            forall|f: u32, i: int|
                0 <= i < 1024 ==> #[trigger] final(self).entry(f, i) == old(self).entry(f, i),
    {
        match self.find(frame.number) {
            Some(s) => s,
            None => {
                let ghost old_mem = *self;
                let n = self.frames.len();
                let mut k: usize = 0;
                while k < ENTRY_COUNT
                    invariant
                        old_mem.wf(),
                        self.frames@ == old_mem.frames@,
                        n == old_mem.frames@.len(),
                        self.entries@.len() == n * 1024 + k,
                        k <= 1024,
                        forall|t: int| 0 <= t < n * 1024 ==> self.entries@[t] == old_mem.entries@[t],
                        forall|t: int| n * 1024 <= t < n * 1024 + k ==> self.entries@[t].bits == 0,
                    decreases 1024 - k,
                {
                    self.entries.push(PageTableEntry { bits: 0 });
                    k = k + 1;
                }
                self.frames.push(frame.number);
                proof {
                    assert(self.wf()) by {
                        assert forall|a: int, b: int| 0 <= a < b < self.frames@.len()
                            implies self.frames@[a] != self.frames@[b] by {
                            if b == n {
                                assert(old_mem.frames@[a] != frame.number);
                            } else {
                                assert(old_mem.frames@[a] != old_mem.frames@[b]);
                            }
                        }
                    }
                    self.lemma_slot_unique(frame.number, n as int);
                    assert forall|f: u32, i: int| 0 <= i < 1024
                        implies #[trigger] self.entry(f, i) == old_mem.entry(f, i) by {
                        if f == frame.number {
                            lemma_slot_bound(n as int, i, n as int + 1);
                        } else if old_mem.holds(f) {
                            let s = old_mem.slot(f);
                            self.lemma_slot_unique(f, s);
                            lemma_slot_bound(s, i, n as int);
                        } else {
                            if self.holds(f) {
                                let s = self.slot(f);
                                assert(old_mem.frames@[s] == f);
                            }
                        }
                    }
                }
                n
            },
        }
    }

    /// Writes `entry` as entry `index` of the table in `frame`.
    pub fn write(&mut self, frame: Frame, index: usize, entry: PageTableEntry)
        requires
            old(self).wf(),
            index < ENTRY_COUNT,
        ensures
            final(self).wf(),
            forall|f: u32, i: int|
                0 <= i < 1024 ==> #[trigger] final(self).entry(f, i) == if f == frame.number
                    && i == index {
                    entry
                } else {
                    old(self).entry(f, i)
                },
    {
        let ghost old_mem = *self;
        let s = self.slot_for(frame);
        let ghost mid = *self;
        let len = self.entries.len();
        proof {
            lemma_slot_bound(s as int, index as int, self.frames@.len() as int);
        }
        assert(s * 1024 + index < len);
        self.entries.set(s * 1024 + index, entry);
        proof {
            assert forall|f: u32, i: int| 0 <= i < 1024
                implies #[trigger] self.entry(f, i) == if f == frame.number && i == index {
                    entry
                } else {
                    old_mem.entry(f, i)
                } by {
                assert(mid.entry(f, i) == old_mem.entry(f, i));
                assert(self.frames@ == mid.frames@);
                assert(self.holds(f) == mid.holds(f));
                if mid.holds(f) {
                    let t = mid.slot(f);
                    assert(self.slot(f) == t);
                    assert(mid.frames@[t] == f);
                    lemma_slot_offset(s as int, index as int, t, i);
                    lemma_slot_bound(t, i, mid.frames@.len() as int);
                    assert(self.entries@[t * 1024 + i] == if t == s && i == index {
                        entry
                    } else {
                        mid.entries@[t * 1024 + i]
                    });
                } else {
                    assert(f != frame.number);
                }
            }
        }
    }

    /// Zeroes the table in `frame`: all its entries become unused.
    pub fn zero(&mut self, frame: Frame)
        requires
            old(self).wf(),
        ensures
            final(self).wf(),
            forall|f: u32, i: int|
                0 <= i < 1024 ==> #[trigger] final(self).entry(f, i) == if f == frame.number {
                    PageTableEntry { bits: 0 }
                } else {
                    old(self).entry(f, i)
                },
    {
        let mut k: usize = 0;
        while k < ENTRY_COUNT
            invariant
                self.wf(),
                k <= 1024,
                forall|f: u32, i: int|
                    0 <= i < 1024 ==> #[trigger] self.entry(f, i) == if f == frame.number && i < k {
                        PageTableEntry { bits: 0 }
                    } else {
                        old(self).entry(f, i)
                    },
            decreases 1024 - k,
        {
            self.write(frame, k, PageTableEntry { bits: 0 });
            k = k + 1;
        }
    }
}

} // verus!
