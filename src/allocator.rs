//! Heap bootstrap: backs a fixed virtual window with frames, page by page, and
//! only then hands the window to the general-purpose allocator.
//!
//! The mapping itself writes page tables in physical memory, so the caller
//! performs each `MapPage` action and then asks for the next one.
use vstd::prelude::*;
use crate::memory::{align_down, BootInfoFrameAllocatior, PhysFrame};

verus! {

/// Virtual address where the heap starts.
pub const HEAP_START: u64 = 0x4444_4444_0000;

/// Size of the heap in bytes.
pub const HEAP_SIZE: u64 = 100 * 1024;

/// The window `[start, start + size)` is non-empty and lies in the lower
/// canonical half of the address space.
pub open spec fn heap_window_valid(start: u64, size: u64) -> bool {
    0 < size && start + size <= 0x0000_8000_0000_0000
}

/// The first page of the window.
pub open spec fn heap_first_page(start: u64) -> int {
    align_down(start as int)
}

/// How many pages the window touches, from the page of its first byte to the
/// page of its last byte.
pub open spec fn heap_page_count(start: u64, size: u64) -> nat {
    ((align_down(start + size - 1) - align_down(start as int)) / 4096 + 1) as nat
}

/// The `i`-th page of the window.
pub open spec fn heap_page(start: u64, i: int) -> int {
    heap_first_page(start) + 4096 * i
}

/// What the caller is to do next.
#[derive(Clone, Copy, Debug, PartialEq, Eq, Structural)]
pub enum HeapAction {
    /// Map `page` to `frame`, present and writable, and flush it from the TLB.
    MapPage { page: u64, frame: PhysFrame },
    /// Every page is mapped: hand `[start, start + size)` to the allocator.
    InitAllocator { start: u64, size: u64 },
    /// No frame was left for the next page: the heap cannot be set up.
    FrameAllocationFailed,
}

/// Progress of the heap bootstrap over one window.
pub struct HeapBootstrap {
    start: u64,
    size: u64,
    first_page: u64,
    page_count: u64,
    mapped: u64,
    finished: bool,
}

impl HeapBootstrap {
    pub closed spec fn start(&self) -> u64 {
        self.start
    }

    pub closed spec fn size(&self) -> u64 {
        self.size
    }

    /// How many pages have been handed out for mapping.
    pub closed spec fn mapped(&self) -> nat {
        self.mapped as nat
    }

    /// Whether the bootstrap has ended, by success or by failure.
    pub closed spec fn finished(&self) -> bool {
        self.finished
    }

    pub closed spec fn wf(&self) -> bool {
        &&& heap_window_valid(self.start, self.size)
        &&& self.first_page == heap_first_page(self.start)
        &&& self.page_count == heap_page_count(self.start, self.size)
        &&& self.mapped <= self.page_count
    }

    /// A bootstrap of the window `[start, start + size)` that has mapped nothing yet.
    pub fn new(start: u64, size: u64) -> (r: Self)
        requires
            heap_window_valid(start, size),
        ensures
            r.wf(),
            r.start() == start,
            r.size() == size,
            r.mapped() == 0,
            !r.finished(),
    {
        let first_page = start - start % 4096;
        let last = start + size - 1;
        let last_page = last - last % 4096;
        let page_count = (last_page - first_page) / 4096 + 1;
        HeapBootstrap { start, size, first_page, page_count, mapped: 0, finished: false }
    }

    /// The next action: while pages remain, take a frame from `frames` for the
    /// next page, failing at once when none is left; once every page is mapped,
    /// initialise the allocator over the window.
    pub fn next_action(&mut self, frames: &mut BootInfoFrameAllocatior<'_>) -> (r: HeapAction)
        requires
            old(self).wf(),
            !old(self).finished(),
        ensures
            final(self).wf(),
            final(self).start() == old(self).start(),
            final(self).size() == old(self).size(),
            final(frames).memory_map() == old(frames).memory_map(),
            old(self).mapped() < heap_page_count(old(self).start(), old(self).size()) ==> {
                if old(frames).can_allocate() {
                    &&& r == (HeapAction::MapPage {
                        page: heap_page(old(self).start(), old(self).mapped() as int) as u64,
                        frame: PhysFrame {
                            start_address: old(frames).frames()[old(frames).cursor() as int],
                        },
                    })
                    &&& final(frames).cursor() == old(frames).cursor() + 1
                    &&& final(self).mapped() == old(self).mapped() + 1
                    &&& !final(self).finished()
                } else {
                    &&& r == HeapAction::FrameAllocationFailed
                    &&& final(frames).cursor() == old(frames).cursor()
                    &&& final(self).mapped() == old(self).mapped()
                    &&& final(self).finished()
                }
            },
            old(self).mapped() == heap_page_count(old(self).start(), old(self).size()) ==> {
                &&& r == (HeapAction::InitAllocator { start: old(self).start(), size: old(self).size() })
                &&& final(frames).cursor() == old(frames).cursor()
                &&& final(self).mapped() == old(self).mapped()
                &&& final(self).finished()
            },
    {
        if self.mapped < self.page_count {
            match frames.allocate_frame() {
                Some(frame) => {
                    proof {
                        lemma_heap_page_in_window(self.start, self.size, self.mapped as int);
                    }
                    let page = self.first_page + 4096 * self.mapped;
                    self.mapped = self.mapped + 1;
                    HeapAction::MapPage { page, frame }
                },
                None => {
                    self.finished = true;
                    HeapAction::FrameAllocationFailed
                },
            }
        } else {
            self.finished = true;
            HeapAction::InitAllocator { start: self.start, size: self.size }
        }
    }
}

/// Each page of the window starts at or below its last byte, and on a page
/// boundary.
proof fn lemma_heap_page_in_window(start: u64, size: u64, i: int)
    requires
        heap_window_valid(start, size),
        0 <= i < heap_page_count(start, size),
    ensures
        heap_page(start, i) <= align_down(start + size - 1),
        heap_page(start, i) % 4096 == 0,
{
    let f = align_down(start as int);
    let l = align_down(start + size - 1);
    assert(f % 4096 == 0 && l % 4096 == 0 && f <= l);
    assert(4096 * i <= l - f) by (nonlinear_arith)
        requires
            i < (l - f) / 4096 + 1,
            (l - f) % 4096 == 0,
            l >= f,
            i >= 0,
    ;
    assert((f + 4096 * i) % 4096 == 0) by (nonlinear_arith)
        requires
            f % 4096 == 0,
            f >= 0,
            i >= 0,
    ;
}

/// The pages of the window cover it: every byte of `[start, start + size)`
/// lies in one of the `heap_page_count` pages that the bootstrap maps.
pub proof fn lemma_heap_pages_cover(start: u64, size: u64, a: int)
    requires
        heap_window_valid(start, size),
        start <= a < start + size,
    ensures
        0 <= (align_down(a) - heap_first_page(start)) / 4096 < heap_page_count(start, size),
        heap_page(start, (align_down(a) - heap_first_page(start)) / 4096) <= a < heap_page(
            start,
            (align_down(a) - heap_first_page(start)) / 4096,
        ) + 4096,
{
    let f = align_down(start as int);
    let l = align_down(start + size - 1);
    let p = align_down(a);
    assert(f <= p <= l);
    assert(f % 4096 == 0 && p % 4096 == 0);
    let i = (p - f) / 4096;
    assert(4096 * i == p - f) by (nonlinear_arith)
        requires
            i == (p - f) / 4096,
            (p - f) % 4096 == 0,
    ;
    assert(i <= (l - f) / 4096) by (nonlinear_arith)
        requires
            i == (p - f) / 4096,
            p <= l,
            f <= p,
    ;
}

/// The kernel heap touches exactly 25 pages, all of which the bootstrap maps
/// before it initialises the allocator.
pub proof fn lemma_kernel_heap_page_count()
    ensures
        heap_window_valid(HEAP_START, HEAP_SIZE),
        heap_page_count(HEAP_START, HEAP_SIZE) == 25,
        heap_first_page(HEAP_START) == HEAP_START,
{
}

} // verus!
