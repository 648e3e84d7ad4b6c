//! Physical frames and the allocator that hands them out from the usable regions
//! of the firmware memory map.
use vstd::prelude::*;

verus! {

/// What the boot environment says a physical memory region holds.
#[derive(Clone, Copy, Debug, PartialEq, Eq, Structural)]
pub enum MemoryRegionType {
    Usable,
    InUse,
    Reserved,
    AcpiReclaimable,
    AcpiNvs,
    BadMemory,
    Kernel,
    KernelStack,
    PageTable,
    Bootloader,
    FrameZero,
    Empty,
    BootInfo,
    Package,
}

/// One entry of the memory map: the half-open byte range `[start_addr, end_addr)`.
#[derive(Clone, Copy, Debug, PartialEq, Eq, Structural)]
pub struct MemoryRegion {
    pub start_addr: u64,
    pub end_addr: u64,
    pub region_type: MemoryRegionType,
}

/// A 4 KiB physical frame, named by its start address.
#[derive(Clone, Copy, Debug, PartialEq, Eq, Structural)]
pub struct PhysFrame {
    pub start_address: u64,
}

/// The start of the frame that contains `a`.
pub open spec fn align_down(a: int) -> int {
    a - a % 4096
}

pub open spec fn is_usable(r: MemoryRegion) -> bool {
    r.region_type == MemoryRegionType::Usable
}

/// How many 4096-byte steps fit from `start_addr` up to, not including, `end_addr`.
pub open spec fn frame_count(r: MemoryRegion) -> nat {
    if r.start_addr < r.end_addr {
        let d = r.end_addr - r.start_addr;
        (d / 4096 + if d % 4096 == 0 { 0int } else { 1int }) as nat
    } else {
        0
    }
}

/// The frames of one region: one for each 4096-byte step through its range.
pub open spec fn region_frames(r: MemoryRegion) -> Seq<u64> {
    Seq::new(frame_count(r), |i: int| align_down(r.start_addr + 4096 * i) as u64)
}

/// The frames of all usable regions of `map`, region after region, in map order.
pub open spec fn usable_frames(map: Seq<MemoryRegion>) -> Seq<u64>
    decreases map.len(),
{
    if map.len() == 0 {
        Seq::empty()
    } else {
        let prev = usable_frames(map.drop_last());
        if is_usable(map.last()) {
            prev + region_frames(map.last())
        } else {
            prev
        }
    }
}

/// The usable regions start on a frame boundary and come in increasing order,
/// each ending at or before the start of the next.
pub open spec fn usable_regions_ordered(map: Seq<MemoryRegion>) -> bool {
    &&& forall|k: int|
        0 <= k < map.len() && is_usable(#[trigger] map[k]) ==> map[k].start_addr % 4096 == 0
    &&& forall|k: int, l: int|
        0 <= k < l < map.len() && is_usable(#[trigger] map[k]) && is_usable(#[trigger] map[l])
            ==> map[k].end_addr <= map[l].start_addr
}

/// `x` lies in the byte range of a usable region of `map`.
pub open spec fn in_usable_region(map: Seq<MemoryRegion>, x: u64) -> bool {
    exists|k: int|
        0 <= k < map.len() && is_usable(#[trigger] map[k]) && map[k].start_addr <= x
            < map[k].end_addr
}

proof fn lemma_prefix_frames(map: Seq<MemoryRegion>, j: int)
    requires
        0 <= j <= map.len(),
    ensures
        usable_frames(map.subrange(0, j)).len() <= usable_frames(map).len(),
        forall|k: int|
            0 <= k < usable_frames(map.subrange(0, j)).len() ==> usable_frames(map)[k]
                == #[trigger] usable_frames(map.subrange(0, j))[k],
    decreases map.len(),
{
    if j == map.len() {
        assert(map.subrange(0, j) =~= map);
    } else {
        assert(map.drop_last().subrange(0, j) =~= map.subrange(0, j));
        lemma_prefix_frames(map.drop_last(), j);
    }
}

proof fn lemma_region_frame(r: MemoryRegion, i: int)
    requires
        r.start_addr % 4096 == 0,
        0 <= i < frame_count(r),
    ensures
        region_frames(r)[i] == r.start_addr + 4096 * i,
        r.start_addr <= region_frames(r)[i] < r.end_addr,
{
    let s = r.start_addr as int;
    let d = r.end_addr - r.start_addr;
    assert(4096 * i < d) by (nonlinear_arith)
        requires
            i < d / 4096 + if d % 4096 == 0 { 0int } else { 1int },
            d > 0,
    ;
    assert((s + 4096 * i) % 4096 == 0) by (nonlinear_arith)
        requires
            s % 4096 == 0,
            i >= 0,
            s >= 0,
    ;
}

proof fn lemma_usable_frames_ordered(map: Seq<MemoryRegion>)
    requires
        usable_regions_ordered(map),
    ensures
        forall|i: int|
            0 <= i < usable_frames(map).len() ==> in_usable_region(
                map,
                #[trigger] usable_frames(map)[i],
            ),
        forall|i: int, j: int|
            0 <= i < j < usable_frames(map).len() ==> usable_frames(map)[i] < usable_frames(
                map,
            )[j],
    decreases map.len(),
{
    if map.len() > 0 {
        let m = map.drop_last();
        let last = map.last();
        let n = (map.len() - 1) as int;
        assert forall|k: int, l: int|
            0 <= k < l < m.len() && is_usable(#[trigger] m[k]) && is_usable(
                #[trigger] m[l],
            ) implies m[k].end_addr <= m[l].start_addr by {
            assert(m[k] == map[k] && m[l] == map[l]);
        }
        assert forall|k: int| 0 <= k < m.len() && is_usable(#[trigger] m[k]) implies m[k].start_addr
            % 4096 == 0 by {
            assert(m[k] == map[k]);
        }
        lemma_usable_frames_ordered(m);
        let prev = usable_frames(m);
        if is_usable(last) {
            let rf = region_frames(last);
            let all = usable_frames(map);
            assert(all == prev + rf);
            assert(map[n] == last);
            assert forall|i: int| 0 <= i < all.len() implies in_usable_region(
                map,
                #[trigger] all[i],
            ) by {
                if i < prev.len() {
                    let k = choose|k: int|
                        0 <= k < m.len() && is_usable(#[trigger] m[k]) && m[k].start_addr
                            <= prev[i] < m[k].end_addr;
                    assert(m[k] == map[k]);
                } else {
                    lemma_region_frame(last, i - prev.len());
                    assert(is_usable(map[n]));
                }
            }
            assert forall|i: int, j: int| 0 <= i < j < all.len() implies all[i] < all[j] by {
                if j < prev.len() {
                } else if i >= prev.len() {
                    lemma_region_frame(last, i - prev.len());
                    lemma_region_frame(last, j - prev.len());
                } else {
                    let k = choose|k: int|
                        0 <= k < m.len() && is_usable(#[trigger] m[k]) && m[k].start_addr
                            <= prev[i] < m[k].end_addr;
                    assert(m[k] == map[k]);
                    assert(map[k].end_addr <= map[n].start_addr);
                    lemma_region_frame(last, j - prev.len());
                }
            }
        } else {
            assert forall|i: int| 0 <= i < prev.len() implies in_usable_region(
                map,
                #[trigger] prev[i],
            ) by {
                let k = choose|k: int|
                    0 <= k < m.len() && is_usable(#[trigger] m[k]) && m[k].start_addr <= prev[i]
                        < m[k].end_addr;
                assert(m[k] == map[k]);
            }
        }
    }
}

/// Hands out the frames of the usable regions of a memory map, in order, each
/// one at most once.
pub struct BootInfoFrameAllocatior<'a> {
    memory_map: &'a [MemoryRegion],
    next: usize,
}

impl<'a> BootInfoFrameAllocatior<'a> {
    /// The memory map the allocator draws from.
    pub closed spec fn memory_map(&self) -> Seq<MemoryRegion> {
        self.memory_map@
    }

    /// How many frames have been handed out so far.
    pub closed spec fn cursor(&self) -> nat {
        self.next as nat
    }

    /// Every frame the allocator can ever hand out, in the order it does so.
    pub open spec fn frames(&self) -> Seq<u64> {
        usable_frames(self.memory_map())
    }

    /// Whether the next call of `allocate_frame` hands out a frame.
    pub open spec fn can_allocate(&self) -> bool {
        self.cursor() < self.frames().len() && self.cursor() < usize::MAX
    }

    /// An allocator over `memory_map` that has handed out nothing yet.
    pub fn init(memory_map: &'a [MemoryRegion]) -> (r: Self)
        ensures
            r.memory_map() == memory_map@,
            r.cursor() == 0,
    {
        BootInfoFrameAllocatior { memory_map, next: 0 }
    }

    /// The `n`-th frame of the usable regions, if there are that many.
    fn usable_frame(&self, n: usize) -> (r: Option<u64>)
        ensures
            r == (if n < self.frames().len() {
                Some(self.frames()[n as int])
            } else {
                None
            }),
    {
        let ghost map = self.memory_map@;
        let mut i: usize = 0;
        let mut rem: u64 = n as u64;
        while i < self.memory_map.len()
            invariant
                map == self.memory_map@,
                0 <= i <= map.len(),
                usable_frames(map.subrange(0, i as int)).len() + rem == n,
            decreases map.len() - i,
        {
            let r = self.memory_map[i];
            proof {
                assert(map.subrange(0, i + 1).drop_last() =~= map.subrange(0, i as int));
                assert(map.subrange(0, i + 1).last() == r);
            }
            if r.region_type == MemoryRegionType::Usable && r.start_addr < r.end_addr {
                let d = r.end_addr - r.start_addr;
                let count = d / 4096 + if d % 4096 == 0 { 0 } else { 1 };
                assert(count == frame_count(r));
                if rem < count {
                    assert(4096 * rem < d) by (nonlinear_arith)
                        requires
                            rem < count,
                            count == d / 4096 + if d % 4096 == 0 { 0u64 } else { 1u64 },
                            d > 0,
                    ;
                    let a = r.start_addr + 4096 * rem;
                    let f = a - a % 4096;
                    proof {
                        let pre = usable_frames(map.subrange(0, i as int));
                        let cur = usable_frames(map.subrange(0, i + 1));
                        assert(cur == pre + region_frames(r));
                        assert(cur[n as int] == f);
                        lemma_prefix_frames(map, i + 1);
                    }
                    return Some(f);
                }
                rem = rem - count;
            } else {
                assert(is_usable(r) ==> frame_count(r) == 0);
                assert(usable_frames(map.subrange(0, i + 1)) =~= usable_frames(
                    map.subrange(0, i as int),
                ));
            }
            i = i + 1;
        }
        assert(map.subrange(0, map.len() as int) =~= map);
        None
    }

    /// Over a memory map whose usable regions are frame-aligned and ordered, the
    /// allocator never hands out the same frame twice: the frames it hands out,
    /// in the order it hands them out, strictly increase.
    pub proof fn lemma_frames_never_repeat(&self, i: int, j: int)
        requires
            usable_regions_ordered(self.memory_map()),
            0 <= i < j < self.frames().len(),
        ensures
            self.frames()[i] < self.frames()[j],
            self.frames()[i] != self.frames()[j],
    {
        lemma_usable_frames_ordered(self.memory_map());
    }

    /// Every frame the allocator hands out lies in a usable region of its map.
    pub proof fn lemma_frames_usable(&self, i: int)
        requires
            usable_regions_ordered(self.memory_map()),
            0 <= i < self.frames().len(),
        ensures
            in_usable_region(self.memory_map(), self.frames()[i]),
    {
        lemma_usable_frames_ordered(self.memory_map());
    }

    /// Once the usable frames are used up, every later request returns `None`:
    /// a request on an exhausted allocator, which keeps its map and its cursor,
    /// leaves it exhausted.
    pub proof fn lemma_exhausted_stays_exhausted(&self, after: &Self)
        requires
            !self.can_allocate(),
            after.memory_map() == self.memory_map(),
            after.cursor() == self.cursor(),
        ensures
            !after.can_allocate(),
    {
    }

    /// Hands out the next frame of the usable regions, or `None` once they are
    /// used up; the cursor moves only when a frame is handed out.
    pub fn allocate_frame(&mut self) -> (r: Option<PhysFrame>)
        ensures
            final(self).memory_map() == old(self).memory_map(),
            r == (if old(self).can_allocate() {
                Some(PhysFrame { start_address: old(self).frames()[old(self).cursor() as int] })
            } else {
                None
            }),
            final(self).cursor() == if old(self).can_allocate() {
                old(self).cursor() + 1
            } else {
                old(self).cursor()
            },
    {
        if self.next == usize::MAX {
            return None;
        }
        match self.usable_frame(self.next) {
            Some(start_address) => {
                self.next = self.next + 1;
                Some(PhysFrame { start_address })
            },
            None => None,
        }
    }
}

} // verus!
