//! Lemmas that relate the operations of `RecursivePageTable` to one another, stated over the
//! postconditions of the operations. `new_table` is the frame allocator's answer, which
//! `map_to` asks for only when the top-level entry of the page is not valid.
use vstd::prelude::*;
use crate::addr::{Frame, Page};
use crate::page_table::{PageTableEntry, PageTableFlags};
use crate::recursive::{
    installs_table, usable_table, writes_one, MapToError, Mapper, MapperFlush,
    RecursivePageTable, UnmapError,
};

verus! {

/// After a successful `map_to(page, ..)`, the top-level entry of `page` is valid and the leaf
/// entry of `page` holds the new entry, which is not the recursive entry.
proof fn lemma_map_to_ok_shape(
    t0: RecursivePageTable,
    t1: RecursivePageTable,
    page: Page,
    frame: Frame,
    flags: PageTableFlags,
    new_table: Option<Frame>,
    r: Result<MapperFlush, MapToError>,
)
    requires
        t0.wf(),
        t0.map_to_post(t1, page, frame, flags, new_table, r),
        r is Ok,
    ensures
        t1.parent_valid(page),
        t1.leaf_entry(page) == PageTableEntry::spec_new(frame, flags),
        !t1.leaf_is_recursive_entry(page),
        forall|q: Page|
            q.p2() == page.p2() ==> #[trigger] t1.top_entry(q) == t1.top_entry(page),
{
    let root = t0.spec_root();
    let rec = t0.spec_recursive_index();
    if t0.parent_valid(page) {
        let tbl = t0.leaf_table(page);
        if tbl == root && page.p1() == page.p2() {
            assert(t0.leaf_entry(page) == t0.top_entry(page));
        }
        assert(t1.spec_memory().entry(root.number, page.p2()) == t0.spec_memory().entry(
            root.number,
            page.p2(),
        ));
        assert(t1.spec_memory().entry(tbl.number, page.p1()) == PageTableEntry::spec_new(
            frame,
            flags,
        ));
        if tbl == root && page.p1() == rec {
            assert(t0.leaf_entry(page) == t0.spec_memory().entry(root.number, rec));
        }
    } else {
        assert(usable_table(new_table, root));
        let g = new_table->Some_0;
        assert(installs_table(
            t0.spec_memory(),
            t1.spec_memory(),
            root,
            page.p2(),
            g,
            page.p1(),
            PageTableEntry::spec_new(frame, flags),
        ));
        assert(t1.spec_memory().entry(root.number, page.p2()) == PageTableEntry::spec_new(
            g,
            PageTableFlags { bits: 1 },
        ));
        assert(t1.spec_memory().entry(g.number, page.p1()) == PageTableEntry::spec_new(
            frame,
            flags,
        ));
        assert((g.number * 1024 + 1) % 2 == 1);
    }
}

/// Mapping a page that was not mapped, with the valid flag, makes it translate to the given
/// frame.
pub proof fn lemma_map_to_then_translate(
    t0: RecursivePageTable,
    t1: RecursivePageTable,
    page: Page,
    frame: Frame,
    flags: PageTableFlags,
    new_table: Option<Frame>,
    r: Result<MapperFlush, MapToError>,
)
    requires
        t0.wf(),
        frame.wf(),
        flags.wf(),
        flags.bits % 2 == 1,
        t0.translation(page) is None,
        t0.map_to_post(t1, page, frame, flags, new_table, r),
        r is Ok,
    ensures
        t1.translation(page) == Some(frame),
{
    lemma_map_to_ok_shape(t0, t1, page, frame, flags, new_table, r);
    assert((frame.number * 1024 + flags.bits) / 1024 == frame.number
        && (frame.number * 1024 + flags.bits) % 1024 % 2 == 1) by (nonlinear_arith)
        requires
            frame.number < 0x40_0000,
            flags.bits < 1024,
            flags.bits % 2 == 1,
    ;
}

/// Unmapping a page right after it was mapped, with the valid flag, gives back the frame it
/// was mapped to, and leaves the page unmapped.
pub proof fn lemma_map_to_then_unmap(
    t0: RecursivePageTable,
    t1: RecursivePageTable,
    t2: RecursivePageTable,
    page: Page,
    frame: Frame,
    flags: PageTableFlags,
    new_table: Option<Frame>,
    r1: Result<MapperFlush, MapToError>,
    r2: Result<(Frame, MapperFlush), UnmapError>,
)
    requires
        t0.wf(),
        frame.wf(),
        flags.wf(),
        flags.bits % 2 == 1,
        t0.map_to_post(t1, page, frame, flags, new_table, r1),
        r1 is Ok,
        t1.unmap_post(t2, page, r2),
    ensures
        t1.unmap_allowed(page),
        r2 matches Ok((f, _)) && f == frame,
        t2.translation(page) is None,
{
    lemma_map_to_ok_shape(t0, t1, page, frame, flags, new_table, r1);
    assert((frame.number * 1024 + flags.bits) / 1024 == frame.number
        && (frame.number * 1024 + flags.bits) % 1024 % 2 == 1) by (nonlinear_arith)
        requires
            frame.number < 0x40_0000,
            flags.bits < 1024,
            flags.bits % 2 == 1,
    ;
    let tbl = t1.leaf_table(page);
    let root = t1.spec_root();
    assert(t2.spec_memory().entry(tbl.number, page.p1()).bits == 0);
    if tbl == root && page.p1() == page.p2() {
        assert(t1.leaf_entry(page) == t1.top_entry(page));
    }
    assert(t2.top_entry(page) == t1.top_entry(page));
}

/// Mapping a page that is already mapped fails with `PageAlreadyMapped`, whatever the
/// allocator would answer, and changes no translation.
pub proof fn lemma_map_to_mapped(
    t0: RecursivePageTable,
    t1: RecursivePageTable,
    page: Page,
    frame: Frame,
    flags: PageTableFlags,
    new_table: Option<Frame>,
    r: Result<MapperFlush, MapToError>,
)
    requires
        t0.wf(),
        t0.translation(page) is Some,
        t0.map_to_post(t1, page, frame, flags, new_table, r),
    ensures
        r matches Err(MapToError::PageAlreadyMapped),
        forall|q: Page| #[trigger] t1.translation(q) == t0.translation(q),
{
}

/// Unmapping a page that is not mapped fails with `PageNotMapped`.
pub proof fn lemma_unmap_unmapped(
    t0: RecursivePageTable,
    t1: RecursivePageTable,
    page: Page,
    r: Result<(Frame, MapperFlush), UnmapError>,
)
    requires
        t0.wf(),
        t0.translation(page) is None,
        t0.unmap_post(t1, page, r),
    ensures
        r == Err::<(Frame, MapperFlush), UnmapError>(UnmapError::PageNotMapped),
{
}

/// When a page needs a new leaf table and the allocator has no frame, `map_to` fails with
/// `FrameAllocationFailed` and no translation changes: the page stays unmapped.
pub proof fn lemma_map_to_without_frame(
    t0: RecursivePageTable,
    t1: RecursivePageTable,
    page: Page,
    frame: Frame,
    flags: PageTableFlags,
    r: Result<MapperFlush, MapToError>,
)
    requires
        t0.wf(),
        !t0.parent_valid(page),
        t0.map_to_post(t1, page, frame, flags, None, r),
    ensures
        r matches Err(MapToError::FrameAllocationFailed),
        t1.translation(page) is None,
        forall|q: Page| #[trigger] t1.translation(q) == t0.translation(q),
{
}

/// Once a page has been mapped, every page with the same top-level index is covered by a valid
/// top-level entry, so mapping such a page does not ask the frame allocator (`map_to` leaves
/// the allocator untouched whenever `parent_valid` holds).
pub proof fn lemma_map_to_shares_leaf_table(
    t0: RecursivePageTable,
    t1: RecursivePageTable,
    page: Page,
    other: Page,
    frame: Frame,
    flags: PageTableFlags,
    new_table: Option<Frame>,
    r: Result<MapperFlush, MapToError>,
)
    requires
        t0.wf(),
        t0.map_to_post(t1, page, frame, flags, new_table, r),
        r is Ok,
        other.p2() == page.p2(),
    ensures
        t1.parent_valid(other),
{
    lemma_map_to_ok_shape(t0, t1, page, frame, flags, new_table, r);
    assert(t1.top_entry(other) == t1.top_entry(page));
}

/// Identity-mapping a frame, with the valid flag, makes the page whose base address equals
/// the frame's base address translate to that frame.
pub proof fn lemma_identity_map_then_translate(
    t0: RecursivePageTable,
    t1: RecursivePageTable,
    frame: Frame,
    flags: PageTableFlags,
    new_table: Option<Frame>,
    r: Result<MapperFlush, MapToError>,
)
    requires
        t0.wf(),
        frame.number < 0x10_0000,
        flags.wf(),
        flags.bits % 2 == 1,
        t0.translation(frame.identity_page()) is None,
        t0.map_to_post(t1, frame.identity_page(), frame, flags, new_table, r),
        r is Ok,
    ensures
        frame.identity_page().wf(),
        t1.translation(frame.identity_page()) == Some(frame),
{
    lemma_map_to_then_translate(t0, t1, frame.identity_page(), frame, flags, new_table, r);
}

} // verus!
