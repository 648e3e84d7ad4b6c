use blog_os::memory::{BootInfoFrameAllocatior, MemoryRegion, MemoryRegionType, PhysFrame};

fn region(start_addr: u64, end_addr: u64, region_type: MemoryRegionType) -> MemoryRegion {
    MemoryRegion { start_addr, end_addr, region_type }
}

fn two_usable_regions() -> Vec<MemoryRegion> {
    vec![
        region(0x0, 0x1000, MemoryRegionType::FrameZero),
        region(0x1000, 0x100000, MemoryRegionType::Reserved),
        region(0x100000, 0x200000, MemoryRegionType::Usable),
        region(0x200000, 0x300000, MemoryRegionType::Kernel),
        region(0x300000, 0x301000, MemoryRegionType::Usable),
        region(0x301000, 0x400000, MemoryRegionType::AcpiReclaimable),
    ]
}

#[test]
fn frames_follow_usable_regions_in_order() {
    let map = two_usable_regions();
    let mut a = BootInfoFrameAllocatior::init(&map);
    assert_eq!(a.allocate_frame(), Some(PhysFrame { start_address: 0x100000 }));
    assert_eq!(a.allocate_frame(), Some(PhysFrame { start_address: 0x101000 }));
    for i in 2..256u64 {
        assert_eq!(a.allocate_frame(), Some(PhysFrame { start_address: 0x100000 + 4096 * i }));
    }
    assert_eq!(a.allocate_frame(), Some(PhysFrame { start_address: 0x300000 }));
}

#[test]
fn exhausted_allocator_keeps_returning_none() {
    let map = two_usable_regions();
    let mut a = BootInfoFrameAllocatior::init(&map);
    for _ in 0..257 {
        assert!(a.allocate_frame().is_some());
    }
    for _ in 0..10 {
        assert_eq!(a.allocate_frame(), None);
    }
}

#[test]
fn frames_never_repeat() {
    let map = vec![
        region(0x0, 0x8000, MemoryRegionType::Usable),
        region(0x8000, 0x9000, MemoryRegionType::InUse),
        region(0x9000, 0x20000, MemoryRegionType::Usable),
    ];
    let mut a = BootInfoFrameAllocatior::init(&map);
    let mut seen: Vec<u64> = Vec::new();
    while let Some(f) = a.allocate_frame() {
        assert!(!seen.contains(&f.start_address));
        seen.push(f.start_address);
    }
    assert_eq!(seen.len(), 8 + 23);
    assert!(seen.windows(2).all(|w| w[0] < w[1]));
}

#[test]
fn no_usable_region_gives_none() {
    let map = vec![
        region(0x0, 0x100000, MemoryRegionType::Reserved),
        region(0x100000, 0x200000, MemoryRegionType::Bootloader),
    ];
    let mut a = BootInfoFrameAllocatior::init(&map);
    assert_eq!(a.allocate_frame(), None);
    let mut empty = BootInfoFrameAllocatior::init(&[]);
    assert_eq!(empty.allocate_frame(), None);
}

#[test]
fn unaligned_region_steps_from_its_start() {
    let map = [region(0x1800, 0x3000, MemoryRegionType::Usable)];
    let mut a = BootInfoFrameAllocatior::init(&map);
    assert_eq!(a.allocate_frame(), Some(PhysFrame { start_address: 0x1000 }));
    assert_eq!(a.allocate_frame(), Some(PhysFrame { start_address: 0x2000 }));
    assert_eq!(a.allocate_frame(), None);
}

#[test]
fn empty_and_inverted_regions_give_no_frames() {
    let map = [
        region(0x5000, 0x5000, MemoryRegionType::Usable),
        region(0x9000, 0x4000, MemoryRegionType::Usable),
        region(0xa000, 0xa001, MemoryRegionType::Usable),
    ];
    let mut a = BootInfoFrameAllocatior::init(&map);
    assert_eq!(a.allocate_frame(), Some(PhysFrame { start_address: 0xa000 }));
    assert_eq!(a.allocate_frame(), None);
}

#[test]
fn region_at_top_of_address_space() {
    let top = u64::MAX - 0xfff;
    let map = [region(top - 0x1000, u64::MAX, MemoryRegionType::Usable)];
    let mut a = BootInfoFrameAllocatior::init(&map);
    assert_eq!(a.allocate_frame(), Some(PhysFrame { start_address: top - 0x1000 }));
    assert_eq!(a.allocate_frame(), Some(PhysFrame { start_address: top }));
    assert_eq!(a.allocate_frame(), None);
}
