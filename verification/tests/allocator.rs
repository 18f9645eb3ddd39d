use exo_class_file::allocator::{align_up, alloc_from_region, LinkedListAllocator, LinkedListNode};

#[test]
fn mod_alloc_test() {}

#[test]
fn align_up_keeps_aligned_addresses() {
    assert_eq!(align_up(64, 16), 64);
    assert_eq!(align_up(0, 8), 0);
}

#[test]
fn align_up_rounds_to_next_multiple() {
    assert_eq!(align_up(65, 16), 80);
    assert_eq!(align_up(1, 8), 8);
    assert_eq!(align_up(7, 1), 7);
}

#[test]
fn alloc_from_region_fits_exactly() {
    // A region of 32 bytes at 64 holds 32 bytes aligned to 16.
    assert_eq!(alloc_from_region(64, 32, 32, 16, 16), Some(64));
}

#[test]
fn alloc_from_region_aligns_start() {
    // Starting at 70, the first address aligned to 16 is 80; 80 + 16 = 96
    // leaves 102 - 96 = 6 bytes, too few for a node of 16.
    assert_eq!(alloc_from_region(70, 32, 16, 16, 16), None);
    // With a node of 4 bytes the rest is big enough.
    assert_eq!(alloc_from_region(70, 32, 16, 16, 4), Some(80));
}

#[test]
fn alloc_from_region_too_small() {
    assert_eq!(alloc_from_region(0, 8, 16, 8, 8), None);
}

#[test]
fn alloc_from_region_size_overflow() {
    assert_eq!(alloc_from_region(8, 8, usize::MAX, 8, 8), None);
}

fn regions(v: &[LinkedListNode]) -> Vec<(usize, usize)> {
    v.iter().map(|n| (n.start, n.size)).collect()
}

#[test]
fn allocator_half_freed() {
    // Ten blocks of 16 bytes, every other one given back at once.
    assert_eq!(std::mem::size_of::<LinkedListNode>(), 16);
    let mut a = LinkedListAllocator::new(4096, 1024);
    for i in 0..10 {
        let p = a.allocate(16, 8).unwrap();
        if i % 2 == 0 {
            a.dealloc(p);
        }
    }
    assert_eq!(a.objects().len(), 5);
    assert_eq!(regions(a.objects()), vec![(4160, 16), (4144, 16), (4128, 16), (4112, 16), (4096, 16)]);
    assert_eq!(regions(a.free_regions()), vec![(4176, 944)]);
}

#[test]
fn allocator_first_fit_and_rest() {
    let mut a = LinkedListAllocator::new(4104, 64);
    // aligned to 16: the block starts at 4112, the rest from 4128 stays free
    assert_eq!(a.allocate(16, 16), Some(4112));
    assert_eq!(regions(a.free_regions()), vec![(4128, 40)]);
    // 32 bytes would leave 8, too few for a node
    assert_eq!(a.allocate(32, 8), None);
    assert_eq!(regions(a.free_regions()), vec![(4128, 40)]);
    // 48 bytes do not fit
    assert_eq!(a.allocate(48, 8), None);
    assert_eq!(a.allocate(24, 8), Some(4128));
    assert_eq!(regions(a.free_regions()), vec![(4152, 16)]);
    assert_eq!(regions(a.objects()), vec![(4128, 24), (4112, 16)]);
    // a region that fits exactly leaves the free list
    assert_eq!(a.allocate(16, 8), Some(4152));
    assert!(a.free_regions().is_empty());
}

#[test]
fn allocator_dealloc_returns_the_block() {
    let mut a = LinkedListAllocator::new(0, 64);
    let p = a.allocate(16, 8).unwrap();
    let q = a.allocate(16, 8).unwrap();
    assert_eq!((p, q), (0, 16));
    a.dealloc(p);
    assert_eq!(regions(a.free_regions()), vec![(0, 16), (32, 32)]);
    assert_eq!(regions(a.objects()), vec![(16, 16)]);
    // the freed block is found first again
    assert_eq!(a.allocate(16, 8), Some(0));
}

#[test]
fn linked_list_node_addresses() {
    let n = LinkedListNode::new(100, 28);
    assert_eq!(n.start_addr(), 100);
    assert_eq!(n.end_addr(), 128);
}
