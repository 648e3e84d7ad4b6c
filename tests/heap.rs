use blog_os::allocator::{HeapAction, HeapBootstrap, HEAP_SIZE, HEAP_START};
use blog_os::memory::{BootInfoFrameAllocatior, MemoryRegion, MemoryRegionType, PhysFrame};

fn usable(count: u64) -> [MemoryRegion; 1] {
    [MemoryRegion {
        start_addr: 0x100000,
        end_addr: 0x100000 + 4096 * count,
        region_type: MemoryRegionType::Usable,
    }]
}

#[test]
fn kernel_heap_maps_25_pages_then_initialises() {
    let map = usable(100);
    let mut fa = BootInfoFrameAllocatior::init(&map);
    let mut boot = HeapBootstrap::new(HEAP_START, HEAP_SIZE);
    let mut pages = Vec::new();
    let last = loop {
        match boot.next_action(&mut fa) {
            HeapAction::MapPage { page, frame } => {
                assert_eq!(frame, PhysFrame { start_address: 0x100000 + 4096 * pages.len() as u64 });
                pages.push(page);
            }
            other => break other,
        }
    };
    assert_eq!(pages.len(), 25);
    for (i, page) in pages.iter().enumerate() {
        assert_eq!(*page, 0x4444_4444_0000 + 4096 * i as u64);
    }
    assert_eq!(last, HeapAction::InitAllocator { start: 0x4444_4444_0000, size: 102400 });
    assert_eq!(fa.allocate_frame(), Some(PhysFrame { start_address: 0x100000 + 4096 * 25 }));
}

#[test]
fn heap_fails_fast_when_frames_run_out() {
    let map = usable(10);
    let mut fa = BootInfoFrameAllocatior::init(&map);
    let mut boot = HeapBootstrap::new(HEAP_START, HEAP_SIZE);
    for i in 0..10u64 {
        assert_eq!(
            boot.next_action(&mut fa),
            HeapAction::MapPage {
                page: HEAP_START + 4096 * i,
                frame: PhysFrame { start_address: 0x100000 + 4096 * i },
            }
        );
    }
    assert_eq!(boot.next_action(&mut fa), HeapAction::FrameAllocationFailed);
}

#[test]
fn unaligned_window_touches_both_pages() {
    let map = usable(4);
    let mut fa = BootInfoFrameAllocatior::init(&map);
    let mut boot = HeapBootstrap::new(0x1800, 0x1000);
    assert_eq!(
        boot.next_action(&mut fa),
        HeapAction::MapPage { page: 0x1000, frame: PhysFrame { start_address: 0x100000 } }
    );
    assert_eq!(
        boot.next_action(&mut fa),
        HeapAction::MapPage { page: 0x2000, frame: PhysFrame { start_address: 0x101000 } }
    );
    assert_eq!(boot.next_action(&mut fa), HeapAction::InitAllocator { start: 0x1800, size: 0x1000 });
}

#[test]
fn one_byte_window_maps_one_page() {
    let map = usable(1);
    let mut fa = BootInfoFrameAllocatior::init(&map);
    let mut boot = HeapBootstrap::new(0x5000, 1);
    assert_eq!(
        boot.next_action(&mut fa),
        HeapAction::MapPage { page: 0x5000, frame: PhysFrame { start_address: 0x100000 } }
    );
    assert_eq!(boot.next_action(&mut fa), HeapAction::InitAllocator { start: 0x5000, size: 1 });
}
