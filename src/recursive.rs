//! A two-level page table whose top-level table maps itself at one of its own entries, so
//! that every leaf table can be reached at a virtual address computed from its position.
use vstd::prelude::*;
use crate::addr::{Frame, Page, PhysAddr, VirtAddr, ENTRY_COUNT};
use crate::frame_alloc::FrameAllocator;
use crate::memory::PhysMemory;
use crate::page_table::{PageTableEntry, PageTableFlags, VALID};

verus! {

/// A pending invalidation of the translation cache for one page. A change to the page
/// table is seen by the processor only once the token is flushed; callers that change many
/// pages may instead ignore the tokens and flush more broadly themselves.
#[must_use]
pub struct MapperFlush(Page);

impl View for MapperFlush {
    type V = Page;

    closed spec fn view(&self) -> Page {
        self.0
    }
}

impl MapperFlush {
    /// Create a new flush promise
    fn new(page: Page) -> (r: MapperFlush)
        ensures
            r@ == page,
    {
        MapperFlush(page)
    }

    /// The page whose translation must be invalidated.
    pub fn page(&self) -> (r: Page)
        ensures
            r == self@,
    {
        self.0
    }

    /// Don't flush the TLB and silence the “must be used” warning.
    pub fn ignore(self) {
    }
}

/// This error is returned from `map_to` and similar methods.
#[derive(Debug, PartialEq, Eq, Structural)]
pub enum MapToError {
    /// An additional frame was needed for the mapping process, but the frame allocator
    /// returned `None`.
    FrameAllocationFailed,
    /// An upper level page table entry has the `HUGE_PAGE` flag set, which means that the
    /// given page is part of an already mapped huge page. Reserved: a two-level table with
    /// no huge pages never returns it.
    ParentEntryHugePage,
    /// The given page is already mapped to a physical frame.
    PageAlreadyMapped,
}

/// An error indicating that an `unmap` call failed.
#[derive(Debug, PartialEq, Eq, Structural)]
pub enum UnmapError {
    /// An upper level page table entry has the `HUGE_PAGE` flag set. Reserved: never
    /// returned by a two-level table with no huge pages.
    ParentEntryHugePage,
    /// The given page is not mapped to a physical frame.
    PageNotMapped,
    /// The page table entry for the given page points to an invalid physical address.
    /// Reserved: never returned here.
    InvalidFrameAddress(PhysAddr),
}

/// An error indicating that the given page table is not recursively mapped.
///
/// Returned from `RecursivePageTable::new`, with the memory that was passed in, so that a
/// caller who knows the recursive index by other means can still use
/// `RecursivePageTable::new_unchecked`.
#[derive(Debug)]
pub struct NotRecursivelyMapped {
    pub memory: PhysMemory,
}

/// The operations of a page table: create a mapping, remove one, look one up. Each
/// implementation says, through the spec functions, what its tables hold after each
/// operation.
pub trait Mapper: Sized {
    /// The invariant that the implementation keeps.
    spec fn wf(&self) -> bool;

    /// The top-level entry that covers `page` is valid, so that no frame is needed to map it.
    spec fn parent_valid(&self, page: Page) -> bool;

    /// The frame that `page` is mapped to.
    spec fn translation(&self, page: Page) -> Option<Frame>;

    /// What `map_to(page, frame, flags, ..)` does, taking `self` to `new` and returning `r`,
    /// when `new_table` is the frame allocator's answer (consulted only when a new leaf table
    /// is needed).
    spec fn map_to_post(
        &self,
        new: Self,
        page: Page,
        frame: Frame,
        flags: PageTableFlags,
        new_table: Option<Frame>,
        r: Result<MapperFlush, MapToError>,
    ) -> bool;

    /// `page` may be unmapped without breaking the invariant.
    spec fn unmap_allowed(&self, page: Page) -> bool;

    /// What `unmap(page)` does, taking `self` to `new` and returning `r`.
    spec fn unmap_post(
        &self,
        new: Self,
        page: Page,
        r: Result<(Frame, MapperFlush), UnmapError>,
    ) -> bool;

    /// Creates a new mapping in the page table.
    ///
    /// This function might need an additional physical frame for a new leaf table. It is
    /// allocated from the `allocator` argument, which is asked only when the top-level entry
    /// that covers `page` is not valid; `map_to_post` says what happens for each answer.
    fn map_to<A: FrameAllocator>(
        &mut self,
        page: Page,
        frame: Frame,
        flags: PageTableFlags,
        allocator: &mut A,
    ) -> (r: Result<MapperFlush, MapToError>)
        requires
            old(self).wf(),
            page.wf(),
            frame.wf(),
            flags.wf(),
        ensures
            exists|a: Option<Frame>| old(self).map_to_post(*final(self), page, frame, flags, a, r),
            old(self).parent_valid(page) ==> *final(allocator) == *old(allocator)
                && old(self).map_to_post(*final(self), page, frame, flags, None, r),
    ;

    /// Removes a mapping from the page table and returns the frame that used to be mapped.
    ///
    /// Note that no page tables or pages are deallocated.
    fn unmap(&mut self, page: Page) -> (r: Result<(Frame, MapperFlush), UnmapError>)
        requires
            old(self).wf(),
            page.wf(),
            old(self).unmap_allowed(page),
        ensures
            old(self).unmap_post(*final(self), page, r),
    ;

    /// Return the frame that the specified page is mapped to.
    fn translate_page(&self, page: Page) -> (r: Option<Frame>)
        requires
            self.wf(),
            page.wf(),
        ensures
            r == self.translation(page),
    ;

    /// Maps the given frame to the virtual page with the same address.
    fn identity_map<A: FrameAllocator>(
        &mut self,
        frame: Frame,
        flags: PageTableFlags,
        allocator: &mut A,
    ) -> (r: Result<MapperFlush, MapToError>)
        requires
            old(self).wf(),
            frame.number < 0x10_0000,
            flags.wf(),
        ensures
            exists|a: Option<Frame>|
                old(self).map_to_post(*final(self), frame.identity_page(), frame, flags, a, r),
            old(self).parent_valid(frame.identity_page()) ==> *final(allocator) == *old(allocator)
                && old(self).map_to_post(*final(self), frame.identity_page(), frame, flags, None, r),
    {
        let addr = frame.start_address().as_u64() as u32;
        let page = Page::of_addr(VirtAddr::new(addr));
        assert(page == frame.identity_page());
        self.map_to(page, frame, flags, allocator)
    }
}

/// A recursive page table is a top-level page table with an entry mapped to the table
/// itself. It owns the physical memory that holds its tables.
pub struct RecursivePageTable {
    memory: PhysMemory,
    root: Frame,
    recursive_index: usize,
}

/// Memory `new_mem` is `old_mem` with entry `j` of the table in frame `t` set to `e`.
pub open spec fn writes_one(
    old_mem: PhysMemory,
    new_mem: PhysMemory,
    t: u32,
    j: int,
    e: PageTableEntry,
) -> bool {
    forall|f: u32, i: int|
        0 <= i < 1024 ==> #[trigger] new_mem.entry(f, i) == if f == t && i == j {
            e
        } else {
            old_mem.entry(f, i)
        }
}

/// Memory `new_mem` is `old_mem` after a zeroed leaf table in frame `g` has been installed at
/// index `p2` of the top-level table in frame `root`, with entry `p1` of the new table set to `e`.
pub open spec fn installs_table(
    old_mem: PhysMemory,
    new_mem: PhysMemory,
    root: Frame,
    p2: int,
    g: Frame,
    p1: int,
    e: PageTableEntry,
) -> bool {
    forall|f: u32, i: int|
        0 <= i < 1024 ==> #[trigger] new_mem.entry(f, i) == if f == g.number {
            if i == p1 {
                e
            } else {
                PageTableEntry { bits: 0 }
            }
        } else if f == root.number && i == p2 {
            PageTableEntry::spec_new(g, PageTableFlags { bits: VALID })
        } else {
            old_mem.entry(f, i)
        }
}

/// The allocator's answer `new_table` can serve as a new leaf table under the top-level table
/// in frame `root`: it is a frame, within the 22 bits of a frame number, other than the
/// top-level table itself.
pub open spec fn usable_table(new_table: Option<Frame>, root: Frame) -> bool {
    new_table matches Some(g) && g.wf() && g != root
}

/// The page whose top-level index is `recursive_index` and whose leaf index is the top-level
/// index of `page`: through the recursive entry, its address is that of the leaf table
/// covering `page`.
pub fn p1_page(page: Page, recursive_index: usize) -> (r: Page)
    requires
        recursive_index < ENTRY_COUNT,
    ensures
        r.wf(),
        r.p2() == recursive_index,
        r.p1() == page.p2(),
{
    Page::from_page_table_indices(recursive_index, page.p2_index())
}

impl RecursivePageTable {
    pub closed spec fn spec_memory(self) -> PhysMemory {
        self.memory
    }

    /// The frame of the top-level table: the active root of translation.
    pub closed spec fn spec_root(self) -> Frame {
        self.root
    }

    pub closed spec fn spec_recursive_index(self) -> int {
        self.recursive_index as int
    }

    /// The top-level entry that covers `page`.
    pub open spec fn top_entry(self, page: Page) -> PageTableEntry {
        self.spec_memory().entry(self.spec_root().number, page.p2())
    }

    /// The frame of the leaf table that covers `page`.
    pub open spec fn leaf_table(self, page: Page) -> Frame {
        self.top_entry(page).spec_frame()
    }

    /// The leaf entry of `page`.
    pub open spec fn leaf_entry(self, page: Page) -> PageTableEntry {
        self.spec_memory().entry(self.leaf_table(page).number, page.p1())
    }

    /// The leaf entry of `page` is the recursive entry itself: the top-level table is the leaf
    /// table of `page`, at the recursive index. This holds of the page whose two indices are
    /// the recursive index.
    pub open spec fn leaf_is_recursive_entry(self, page: Page) -> bool {
        &&& self.parent_valid(page)
        &&& self.leaf_table(page) == self.spec_root()
        &&& page.p1() == self.spec_recursive_index()
    }

    /// Creates a new RecursivePageTable from the level 2 page table in frame `active_root`
    /// of `memory`, the frame that the satp register names; `table_addr` is the virtual
    /// address at which the table is reachable.
    ///
    /// The page table must be recursively mapped, that means: `table_addr` lies in the page
    /// whose two indices are equal, and the entry at that index is valid and points to
    /// `active_root`. Otherwise `Err(NotRecursivelyMapped)` is returned.
    pub fn new(memory: PhysMemory, table_addr: VirtAddr, active_root: Frame) -> (r: Result<
        RecursivePageTable,
        NotRecursivelyMapped,
    >)
        requires
            memory.wf(),
            active_root.wf(),
        ensures
            ({
                let page = Page { number: table_addr.addr / 4096 };
                let e = memory.entry(active_root.number, page.p2());
                r is Ok <==> (page.p1() == page.p2() && e.spec_valid() && e.spec_frame()
                    == active_root)
            }),
            r matches Err(e) ==> e.memory == memory,
            r matches Ok(t) ==> {
                &&& t.wf()
                &&& t.spec_memory() == memory
                &&& t.spec_root() == active_root
                &&& t.spec_recursive_index() == (table_addr.addr / 4096) as int / 1024 % 1024
            },
    {
        let page = Page::of_addr(table_addr);
        let recursive_index = page.p2_index();
        if page.p1_index() != recursive_index {
            return Err(NotRecursivelyMapped { memory });
        }
        let entry = memory.read(active_root, recursive_index);
        if !entry.is_valid() || entry.frame() != active_root {
            return Err(NotRecursivelyMapped { memory });
        }
        Ok(RecursivePageTable { memory, root: active_root, recursive_index })
    }

    /// Creates a new RecursivePageTable without performing any checks.
    ///
    /// The `recursive_index` parameter must be the index of the recursively mapped entry.
    pub fn new_unchecked(memory: PhysMemory, active_root: Frame, recursive_index: usize) -> (r:
        RecursivePageTable)
        requires
            memory.wf(),
            active_root.wf(),
            recursive_index < ENTRY_COUNT,
            memory.entry(active_root.number, recursive_index as int).spec_valid(),
            memory.entry(active_root.number, recursive_index as int).spec_frame() == active_root,
        ensures
            r.wf(),
            r.spec_memory() == memory,
            r.spec_root() == active_root,
            r.spec_recursive_index() == recursive_index,
    {
        RecursivePageTable { memory, root: active_root, recursive_index }
    }

    /// The memory that holds the tables.
    pub fn memory(&self) -> (r: &PhysMemory)
        ensures
            *r == self.spec_memory(),
    {
        &self.memory
    }

    /// Gives back the memory that holds the tables.
    pub fn into_memory(self) -> (r: PhysMemory)
        ensures
            r == self.spec_memory(),
    {
        self.memory
    }

    /// The frame of the top-level table.
    pub fn root(&self) -> (r: Frame)
        ensures
            r == self.spec_root(),
    {
        self.root
    }

    /// The index of the recursive entry.
    pub fn recursive_index(&self) -> (r: usize)
        ensures
            r == self.spec_recursive_index(),
    {
        self.recursive_index
    }

    /// The frame that virtual page `table_page` resolves to, as the processor's translation
    /// would find it: through the top-level entry, then through the entry of the table it
    /// names. Used on pages made by `p1_page`, whose top-level entry is the recursive one.
    fn table_frame(&self, table_page: Page) -> (r: Frame)
        requires
            self.memory.wf(),
        ensures
            r == self.memory.entry(
                self.memory.entry(self.root.number, table_page.p2()).spec_frame().number,
                table_page.p1(),
            ).spec_frame(),
    {
        let top = self.memory.read(self.root, table_page.p2_index());
        self.memory.read(top.frame(), table_page.p1_index()).frame()
    }

    /// Makes sure that a leaf table covers the pages with top-level index `p2_index`, and
    /// returns its frame, reached through `next_table_page`, the page of that table.
    ///
    /// If the top-level entry is not valid, `new_table`, the frame allocator's answer, is
    /// installed as a valid entry and the table is zeroed before use. No answer, or a frame
    /// that cannot serve as a leaf table (see `usable_table`), fails with
    /// `FrameAllocationFailed` and writes nothing. If the entry is valid, the table it names
    /// is returned and `new_table` is not used.
    fn create_next_table(
        &mut self,
        p2_index: usize,
        next_table_page: Page,
        new_table: Option<Frame>,
    ) -> (r: Result<Frame, MapToError>)
        requires
            old(self).wf(),
            p2_index < ENTRY_COUNT,
            next_table_page.p2() == old(self).spec_recursive_index(),
            next_table_page.p1() == p2_index,
        ensures
            final(self).wf(),
            final(self).spec_root() == old(self).spec_root(),
            final(self).spec_recursive_index() == old(self).spec_recursive_index(),
            ({
                let top = old(self).spec_memory().entry(old(self).spec_root().number, p2_index as int);
                &&& top.spec_valid() ==> {
                    &&& r == Ok::<Frame, MapToError>(top.spec_frame())
                    &&& final(self).spec_memory() == old(self).spec_memory()
                }
                &&& !top.spec_valid() && usable_table(new_table, old(self).spec_root()) ==> {
                    &&& r == Ok::<Frame, MapToError>(new_table->Some_0)
                    &&& forall|f: u32, i: int|
                        0 <= i < 1024 ==> #[trigger] final(self).spec_memory().entry(f, i)
                            == if f == new_table->Some_0.number {
                            PageTableEntry { bits: 0 }
                        } else if f == old(self).spec_root().number && i == p2_index {
                            PageTableEntry::spec_new(new_table->Some_0, PageTableFlags { bits: VALID })
                        } else {
                            old(self).spec_memory().entry(f, i)
                        }
                }
                &&& !top.spec_valid() && !usable_table(new_table, old(self).spec_root()) ==> {
                    &&& r == Err::<Frame, MapToError>(MapToError::FrameAllocationFailed)
                    &&& final(self).spec_memory() == old(self).spec_memory()
                }
            }),
    {
        let ghost old_mem = self.memory;
        let root = self.root;
        let entry = self.memory.read(root, p2_index);
        if entry.is_valid() {
            return Ok(self.table_frame(next_table_page));
        }
        let frame = match new_table {
            Some(frame) => frame,
            None => return Err(MapToError::FrameAllocationFailed),
        };
        if frame.number >= 0x40_0000 || frame == root {
            return Err(MapToError::FrameAllocationFailed);
        }
        let valid = PageTableFlags::from_bits_truncate(VALID);
        self.memory.write(root, p2_index, PageTableEntry::new(frame, valid));
        let ghost mid = self.memory;
        assert(mid.entry(root.number, self.recursive_index as int)
            == old_mem.entry(root.number, self.recursive_index as int));
        let table = self.table_frame(next_table_page);
        assert(table == frame);
        self.memory.zero(table);
        assert forall|f: u32, i: int| 0 <= i < 1024 implies #[trigger] self.memory.entry(f, i)
            == if f == frame.number {
            PageTableEntry { bits: 0 }
        } else if f == root.number && i == p2_index {
            PageTableEntry::spec_new(frame, PageTableFlags { bits: VALID })
        } else {
            old_mem.entry(f, i)
        } by {
            assert(mid.entry(f, i) == self.memory.entry(f, i) || f == frame.number);
        }
        assert(self.memory.entry(root.number, self.recursive_index as int)
            == old_mem.entry(root.number, self.recursive_index as int));
        Ok(table)
    }

    /// Creates a new mapping in the page table, with `new_table` as the frame for a new leaf
    /// table if the top-level entry that covers `page` is not valid. `map_to` is this function
    /// applied to the frame allocator's answer.
    pub fn map_to_with(
        &mut self,
        page: Page,
        frame: Frame,
        flags: PageTableFlags,
        new_table: Option<Frame>,
    ) -> (r: Result<MapperFlush, MapToError>)
        requires
            old(self).wf(),
            page.wf(),
            frame.wf(),
            flags.wf(),
        ensures
            old(self).map_to_post(*final(self), page, frame, flags, new_table, r),
    {
        let ghost old_self = *self;
        let p1_page = p1_page(page, self.recursive_index);
        let p1 = match self.create_next_table(page.p2_index(), p1_page, new_table) {
            Ok(p1) => p1,
            Err(e) => return Err(e),
        };
        let p1_index = page.p1_index();
        if self.memory.read(p1, p1_index).is_valid() {
            return Err(MapToError::PageAlreadyMapped);
        }
        let entry = PageTableEntry::new(frame, flags);
        self.memory.write(p1, p1_index, entry);
        proof {
            let root = self.root.number;
            let rec = self.recursive_index as int;
            if old_self.parent_valid(page) {
                // The entry just written was not valid, so it is not the recursive entry.
                assert(!(p1.number == root && p1_index == rec));
            } else {
                assert(installs_table(
                    old_self.spec_memory(), self.memory, self.root, page.p2(), p1,
                    page.p1(), entry));
            }
        }
        Ok(MapperFlush::new(page))
    }
}

impl Mapper for RecursivePageTable {
    /// The top-level table's entry at the recursive index is valid and names the table itself.
    open spec fn wf(&self) -> bool {
        &&& self.spec_memory().wf()
        &&& 0 <= self.spec_recursive_index() < 1024
        &&& self.spec_root().wf()
        &&& self.spec_memory().entry(self.spec_root().number, self.spec_recursive_index()).spec_valid()
        &&& self.spec_memory().entry(self.spec_root().number, self.spec_recursive_index()).spec_frame()
            == self.spec_root()
    }

    open spec fn parent_valid(&self, page: Page) -> bool {
        self.top_entry(page).spec_valid()
    }

    /// The frame that `page` is mapped to, walking the two levels from the root.
    open spec fn translation(&self, page: Page) -> Option<Frame> {
        if !self.parent_valid(page) || !self.leaf_entry(page).spec_valid() {
            None
        } else {
            Some(self.leaf_entry(page).spec_frame())
        }
    }

    /// What `map_to(page, frame, flags, ..)` does, taking `self` to `new` and returning `r`,
    /// for every answer of the frame allocator.
    open spec fn map_to_post(
        &self,
        new: Self,
        page: Page,
        frame: Frame,
        flags: PageTableFlags,
        new_table: Option<Frame>,
        r: Result<MapperFlush, MapToError>,
    ) -> bool {
        &&& new.wf()
        &&& new.spec_root() == self.spec_root()
        &&& new.spec_recursive_index() == self.spec_recursive_index()
        &&& if self.parent_valid(page) {
            if self.leaf_entry(page).spec_valid() {
                &&& (r matches Err(MapToError::PageAlreadyMapped))
                &&& new.spec_memory() == self.spec_memory()
            } else {
                &&& (r matches Ok(flush) && flush@ == page)
                &&& writes_one(
                    self.spec_memory(),
                    new.spec_memory(),
                    self.leaf_table(page).number,
                    page.p1(),
                    PageTableEntry::spec_new(frame, flags),
                )
            }
        } else if usable_table(new_table, self.spec_root()) {
            &&& (r matches Ok(flush) && flush@ == page)
            &&& installs_table(
                self.spec_memory(),
                new.spec_memory(),
                self.spec_root(),
                page.p2(),
                new_table->Some_0,
                page.p1(),
                PageTableEntry::spec_new(frame, flags),
            )
        } else {
            &&& (r matches Err(MapToError::FrameAllocationFailed))
            &&& new.spec_memory() == self.spec_memory()
        }
    }

    /// A page whose leaf entry is the recursive entry (such as the page whose two indices are
    /// the recursive index) cannot be unmapped: that entry must stay for the lifetime of the
    /// table.
    open spec fn unmap_allowed(&self, page: Page) -> bool {
        !self.leaf_is_recursive_entry(page)
    }

    /// What `unmap(page)` does, taking `self` to `new` and returning `r`.
    open spec fn unmap_post(
        &self,
        new: Self,
        page: Page,
        r: Result<(Frame, MapperFlush), UnmapError>,
    ) -> bool {
        &&& new.wf()
        &&& new.spec_root() == self.spec_root()
        &&& new.spec_recursive_index() == self.spec_recursive_index()
        &&& (r is Err <==> !self.parent_valid(page) || !self.leaf_entry(page).spec_valid())
        &&& match r {
            Ok((f, flush)) => {
                &&& f == self.leaf_entry(page).spec_frame()
                &&& flush@ == page
                &&& writes_one(
                    self.spec_memory(),
                    new.spec_memory(),
                    self.leaf_table(page).number,
                    page.p1(),
                    PageTableEntry { bits: 0 },
                )
            },
            Err(e) => {
                &&& e == UnmapError::PageNotMapped
                &&& new.spec_memory() == self.spec_memory()
            },
        }
    }

    fn map_to<A: FrameAllocator>(
        &mut self,
        page: Page,
        frame: Frame,
        flags: PageTableFlags,
        allocator: &mut A,
    ) -> (r: Result<MapperFlush, MapToError>) {
        let new_table = if self.memory.read(self.root, page.p2_index()).is_valid() {
            None
        } else {
            allocator.alloc_frame()
        };
        self.map_to_with(page, frame, flags, new_table)
    }

    fn translate_page(&self, page: Page) -> (r: Option<Frame>) {
        if !self.memory.read(self.root, page.p2_index()).is_valid() {
            return None;
        }
        let p1 = self.table_frame(p1_page(page, self.recursive_index));
        let p1_entry = self.memory.read(p1, page.p1_index());
        if !p1_entry.is_valid() {
            return None;
        }
        Some(p1_entry.frame())
    }

    fn unmap(&mut self, page: Page) -> (r: Result<(Frame, MapperFlush), UnmapError>) {
        let root = self.root;
        let p2_entry = self.memory.read(root, page.p2_index());
        if !p2_entry.is_valid() {
            return Err(UnmapError::PageNotMapped);
        }
        let p1 = self.table_frame(p1_page(page, self.recursive_index));
        let p1_index = page.p1_index();
        let p1_entry = self.memory.read(p1, p1_index);
        if !p1_entry.is_valid() {
            return Err(UnmapError::PageNotMapped);
        }
        let frame = p1_entry.frame();
        self.memory.write(p1, p1_index, PageTableEntry::unused());
        Ok((frame, MapperFlush::new(page)))
    }
}

} // verus!
