use riscv::addr::{Frame, Page, PhysAddr, VirtAddr};
use riscv::frame_alloc::FrameAllocator;
use riscv::memory::PhysMemory;
use riscv::page_table::{PageTableEntry, PageTableFlags, READABLE, VALID, WRITABLE};
use riscv::recursive::{
    p1_page, MapToError, Mapper, NotRecursivelyMapped, RecursivePageTable, UnmapError,
};

/// Hands out consecutive frames from `next` and counts the calls.
struct CountingAllocator {
    next: u32,
    calls: usize,
}

impl FrameAllocator for CountingAllocator {
    fn alloc_frame(&mut self) -> Option<Frame> {
        self.calls += 1;
        let frame = Frame::from_number(self.next);
        self.next += 1;
        Some(frame)
    }
}

/// Never has a frame to give.
struct EmptyAllocator {
    calls: usize,
}

impl FrameAllocator for EmptyAllocator {
    fn alloc_frame(&mut self) -> Option<Frame> {
        self.calls += 1;
        None
    }
}

/// Always hands out the same frame.
struct FixedAllocator {
    frame: Frame,
}

impl FrameAllocator for FixedAllocator {
    fn alloc_frame(&mut self) -> Option<Frame> {
        Some(self.frame)
    }
}

const ROOT: u32 = 0x80;
const REC: usize = 1023;

fn valid() -> PageTableFlags {
    PageTableFlags::from_bits_truncate(VALID)
}

fn rw() -> PageTableFlags {
    PageTableFlags::from_bits_truncate(VALID | READABLE | WRITABLE)
}

/// Memory whose root table in frame `ROOT` maps itself at index `REC`.
fn recursive_memory() -> PhysMemory {
    let mut memory = PhysMemory::new();
    memory.write(Frame::from_number(ROOT), REC, PageTableEntry::new(Frame::from_number(ROOT), valid()));
    memory
}

/// The address of the page whose two indices are `REC`.
fn table_addr() -> VirtAddr {
    Page::from_page_table_indices(REC, REC).start_address()
}

fn table() -> RecursivePageTable {
    match RecursivePageTable::new(recursive_memory(), table_addr(), Frame::from_number(ROOT)) {
        Ok(t) => t,
        Err(e) => panic!("{:?}", e),
    }
}

#[test]
fn page_indices_and_addresses() {
    let page = Page::of_addr(VirtAddr::new(0x1234_5678));
    assert_eq!(page.number, 0x12345);
    assert_eq!(page.p2_index(), 0x48);
    assert_eq!(page.p1_index(), 0x345);
    assert_eq!(page.start_address().as_u32(), 0x1234_5000);
    let again = Page::from_page_table_indices(0x48, 0x345);
    assert_eq!(again, page);
    assert_eq!(table_addr().as_u32(), 0xFFFF_F000);
    let frame = Frame::of_addr(PhysAddr::new(0x3_0000_1fff));
    assert_eq!(frame.number, 0x30_0001);
    assert_eq!(frame.start_address().as_u64(), 0x3_0000_1000);
}

#[test]
fn p1_page_points_through_recursive_entry() {
    let page = Page::from_page_table_indices(5, 9);
    let p1 = p1_page(page, REC);
    assert_eq!(p1.p2_index(), REC);
    assert_eq!(p1.p1_index(), 5);
}

#[test]
fn entry_holds_frame_and_flags() {
    let mut entry = PageTableEntry::unused();
    assert!(entry.is_unused());
    entry.set(Frame::from_number(0x3f_ffff), rw());
    assert!(!entry.is_unused());
    assert!(entry.is_valid());
    assert_eq!(entry.frame(), Frame::from_number(0x3f_ffff));
    assert_eq!(entry.flags().bits(), VALID | READABLE | WRITABLE);
    assert_eq!(entry.bits, (0x3f_ffff << 10) | 7);
    assert!(entry.flags().contains(WRITABLE));
    entry.set_unused();
    assert!(entry.is_unused());
    assert_eq!(PageTableFlags::from_bits_truncate(0x7ff).bits(), 0x3ff);
}

#[test]
fn memory_reads_zero_until_written() {
    let mut memory = PhysMemory::new();
    let f = Frame::from_number(7);
    assert!(memory.read(f, 3).is_unused());
    let e = PageTableEntry::new(Frame::from_number(9), rw());
    memory.write(f, 3, e);
    assert_eq!(memory.read(f, 3), e);
    assert!(memory.read(f, 4).is_unused());
    assert!(memory.read(Frame::from_number(8), 3).is_unused());
    memory.zero(f);
    assert!(memory.read(f, 3).is_unused());
}

#[test]
fn new_accepts_recursive_table() {
    let t = table();
    assert_eq!(t.recursive_index(), REC);
    assert_eq!(t.root(), Frame::from_number(ROOT));
}

#[test]
fn new_rejects_other_active_root() {
    let r = RecursivePageTable::new(recursive_memory(), table_addr(), Frame::from_number(ROOT + 1));
    assert!(matches!(r, Err(NotRecursivelyMapped { .. })));
}

#[test]
fn new_rejects_unequal_indices() {
    let addr = Page::from_page_table_indices(REC, 3).start_address();
    let r = RecursivePageTable::new(recursive_memory(), addr, Frame::from_number(ROOT));
    assert!(matches!(r, Err(NotRecursivelyMapped { .. })));
}

#[test]
fn new_rejects_invalid_entry() {
    let mut memory = PhysMemory::new();
    let root = Frame::from_number(ROOT);
    memory.write(root, REC, PageTableEntry::new(root, PageTableFlags::from_bits_truncate(0)));
    let r = RecursivePageTable::new(memory, table_addr(), root);
    assert!(matches!(r, Err(NotRecursivelyMapped { .. })));
}

#[test]
fn new_unchecked_uses_given_index() {
    let t = RecursivePageTable::new_unchecked(recursive_memory(), Frame::from_number(ROOT), REC);
    assert_eq!(t.recursive_index(), REC);
}

#[test]
fn map_to_then_translate() {
    let mut t = table();
    let mut a = CountingAllocator { next: 0x100, calls: 0 };
    let page = Page::from_page_table_indices(2, 17);
    let frame = Frame::from_number(0x4242);
    assert_eq!(t.translate_page(page), None);
    let flush = t.map_to(page, frame, rw(), &mut a).unwrap();
    assert_eq!(flush.page(), page);
    flush.ignore();
    assert_eq!(t.translate_page(page), Some(frame));
    assert_eq!(a.calls, 1);
    // The new leaf table sits in the allocated frame, named by the top-level entry.
    let top = t.memory().read(Frame::from_number(ROOT), 2);
    assert_eq!(top.frame(), Frame::from_number(0x100));
    assert_eq!(top.flags().bits(), VALID);
    assert_eq!(t.memory().read(Frame::from_number(0x100), 17).frame(), frame);
}

#[test]
fn map_to_then_unmap() {
    let mut t = table();
    let mut a = CountingAllocator { next: 0x100, calls: 0 };
    let page = Page::from_page_table_indices(300, 1);
    let frame = Frame::from_number(0x777);
    t.map_to(page, frame, rw(), &mut a).unwrap().ignore();
    let (got, flush) = t.unmap(page).unwrap();
    assert_eq!(got, frame);
    assert_eq!(flush.page(), page);
    flush.ignore();
    assert_eq!(t.translate_page(page), None);
}

#[test]
fn map_to_mapped_page_fails() {
    let mut t = table();
    let mut a = CountingAllocator { next: 0x100, calls: 0 };
    let page = Page::from_page_table_indices(4, 4);
    t.map_to(page, Frame::from_number(0x10), rw(), &mut a).unwrap().ignore();
    let r = t.map_to(page, Frame::from_number(0x20), rw(), &mut a);
    assert!(matches!(r, Err(MapToError::PageAlreadyMapped)));
    assert_eq!(t.translate_page(page), Some(Frame::from_number(0x10)));
}

#[test]
fn unmap_unmapped_page_fails() {
    let mut t = table();
    let page = Page::from_page_table_indices(6, 6);
    assert!(matches!(t.unmap(page), Err(UnmapError::PageNotMapped)));
    let mut a = CountingAllocator { next: 0x100, calls: 0 };
    t.map_to(Page::from_page_table_indices(6, 7), Frame::from_number(0x55), rw(), &mut a).unwrap().ignore();
    assert!(matches!(t.unmap(page), Err(UnmapError::PageNotMapped)));
}

#[test]
fn entry_without_valid_flag_is_not_a_mapping() {
    let mut t = table();
    let mut a = CountingAllocator { next: 0x100, calls: 0 };
    let page = Page::from_page_table_indices(8, 8);
    let flags = PageTableFlags::from_bits_truncate(READABLE);
    t.map_to(page, Frame::from_number(0x33), flags, &mut a).unwrap().ignore();
    assert_eq!(t.translate_page(page), None);
    assert!(matches!(t.unmap(page), Err(UnmapError::PageNotMapped)));
    // The entry is not valid, so mapping the page again overwrites it.
    t.map_to(page, Frame::from_number(0x34), rw(), &mut a).unwrap().ignore();
    assert_eq!(t.translate_page(page), Some(Frame::from_number(0x34)));
    assert_eq!(a.calls, 1);
}

#[test]
fn invalid_top_level_entry_gets_new_leaf_table() {
    let mut memory = recursive_memory();
    let stale = PageTableEntry::new(Frame::from_number(0x200), PageTableFlags::from_bits_truncate(READABLE));
    memory.write(Frame::from_number(ROOT), 30, stale);
    let mut t = match RecursivePageTable::new(memory, table_addr(), Frame::from_number(ROOT)) {
        Ok(t) => t,
        Err(e) => panic!("{:?}", e),
    };
    let page = Page::from_page_table_indices(30, 5);
    assert_eq!(t.translate_page(page), None);
    assert!(matches!(t.unmap(page), Err(UnmapError::PageNotMapped)));
    let mut a = CountingAllocator { next: 0x100, calls: 0 };
    t.map_to(page, Frame::from_number(0x44), rw(), &mut a).unwrap().ignore();
    assert_eq!(a.calls, 1);
    assert_eq!(t.memory().read(Frame::from_number(ROOT), 30).frame(), Frame::from_number(0x100));
    assert_eq!(t.translate_page(page), Some(Frame::from_number(0x44)));
}

#[test]
fn map_to_with_follows_allocator_answer() {
    let page = Page::from_page_table_indices(40, 2);
    let frame = Frame::from_number(0x91);
    let mut t = table();
    assert!(matches!(t.map_to_with(page, frame, rw(), None), Err(MapToError::FrameAllocationFailed)));
    assert_eq!(t.translate_page(page), None);
    let root = Frame::from_number(ROOT);
    assert!(matches!(t.map_to_with(page, frame, rw(), Some(root)), Err(MapToError::FrameAllocationFailed)));
    assert_eq!(t.memory().read(root, REC).frame(), root);
    let big = Frame { number: 0x40_0000 };
    assert!(matches!(t.map_to_with(page, frame, rw(), Some(big)), Err(MapToError::FrameAllocationFailed)));
    assert!(t.memory().read(root, 40).is_unused());
    t.map_to_with(page, frame, rw(), Some(Frame::from_number(0x150))).unwrap().ignore();
    assert_eq!(t.memory().read(root, 40).frame(), Frame::from_number(0x150));
    assert_eq!(t.translate_page(page), Some(frame));
    // With the leaf table in place the answer is not used.
    let next = Page::from_page_table_indices(40, 3);
    t.map_to_with(next, frame, rw(), None).unwrap().ignore();
    assert_eq!(t.translate_page(next), Some(frame));
    assert_eq!(t.memory().read(root, 40).frame(), Frame::from_number(0x150));
}

#[test]
fn failed_new_returns_memory() {
    let r = RecursivePageTable::new(recursive_memory(), table_addr(), Frame::from_number(ROOT + 1));
    let memory = match r {
        Err(NotRecursivelyMapped { memory }) => memory,
        Ok(_) => panic!("accepted a table that the active root does not name"),
    };
    let t = RecursivePageTable::new_unchecked(memory, Frame::from_number(ROOT), REC);
    assert_eq!(t.translate_page(Page::from_page_table_indices(REC, REC)), Some(Frame::from_number(ROOT)));
}

#[test]
fn map_to_without_frames_fails() {
    let mut t = table();
    let mut a = EmptyAllocator { calls: 0 };
    let page = Page::from_page_table_indices(9, 3);
    let r = t.map_to(page, Frame::from_number(0x99), rw(), &mut a);
    assert!(matches!(r, Err(MapToError::FrameAllocationFailed)));
    assert_eq!(a.calls, 1);
    assert_eq!(t.translate_page(page), None);
}

#[test]
fn map_to_refuses_root_frame_as_leaf_table() {
    let mut t = table();
    let mut a = FixedAllocator { frame: Frame::from_number(ROOT) };
    let page = Page::from_page_table_indices(10, 3);
    let r = t.map_to(page, Frame::from_number(0x99), rw(), &mut a);
    assert!(matches!(r, Err(MapToError::FrameAllocationFailed)));
    assert_eq!(t.translate_page(page), None);
    assert_eq!(t.memory().read(Frame::from_number(ROOT), REC).frame(), Frame::from_number(ROOT));
}

#[test]
fn second_page_of_leaf_table_needs_no_frame() {
    let mut t = table();
    let mut a = CountingAllocator { next: 0x100, calls: 0 };
    t.map_to(Page::from_page_table_indices(12, 1), Frame::from_number(0x61), rw(), &mut a).unwrap().ignore();
    assert_eq!(a.calls, 1);
    t.map_to(Page::from_page_table_indices(12, 2), Frame::from_number(0x62), rw(), &mut a).unwrap().ignore();
    assert_eq!(a.calls, 1);
    assert_eq!(t.translate_page(Page::from_page_table_indices(12, 1)), Some(Frame::from_number(0x61)));
    assert_eq!(t.translate_page(Page::from_page_table_indices(12, 2)), Some(Frame::from_number(0x62)));
    t.map_to(Page::from_page_table_indices(13, 2), Frame::from_number(0x63), rw(), &mut a).unwrap().ignore();
    assert_eq!(a.calls, 2);
}

#[test]
fn identity_map_then_translate() {
    let mut t = table();
    let mut a = CountingAllocator { next: 0x100, calls: 0 };
    let frame = Frame::from_number(0x8_0123);
    t.identity_map(frame, rw(), &mut a).unwrap().ignore();
    let page = Page::of_addr(VirtAddr::new(0x8012_3000));
    assert_eq!(page.start_address().as_u32() as u64, frame.start_address().as_u64());
    assert_eq!(t.translate_page(page), Some(frame));
}

#[test]
fn recursive_region_shows_root_entries() {
    let mut t = table();
    let mut a = CountingAllocator { next: 0x100, calls: 0 };
    t.map_to(Page::from_page_table_indices(20, 0), Frame::from_number(0x70), rw(), &mut a).unwrap().ignore();
    // Through the recursive entry, page (REC, 20) is the leaf table of region 20.
    assert_eq!(t.translate_page(Page::from_page_table_indices(REC, 20)), Some(Frame::from_number(0x100)));
    assert_eq!(t.translate_page(Page::from_page_table_indices(REC, REC)), Some(Frame::from_number(ROOT)));
    let memory = t.into_memory();
    assert_eq!(memory.read(Frame::from_number(0x100), 0).frame(), Frame::from_number(0x70));
}
