use nexum::ports::PortAllocator;

#[test]
fn allocates_unique_ports_across_multiple_capsules() {
    let mut allocator = PortAllocator::new(4300, 4310);
    allocator.reserve(4300);
    allocator.reserve(4301);

    let allocated = ["cap-a", "cap-b", "cap-c", "cap-d", "cap-e"]
        .into_iter()
        .map(|id| allocator.allocate(id).expect("port expected"))
        .collect::<Vec<_>>();

    assert_eq!(allocated, vec![4302, 4303, 4304, 4305, 4306]);
}

#[test]
fn allocation_is_stable_for_same_capsule_and_reusable_after_release() {
    let mut allocator = PortAllocator::new(5000, 5003);

    let first = allocator.allocate("cap-a").unwrap();
    let second = allocator.allocate("cap-a").unwrap();
    assert_eq!(first, second);

    allocator.release("cap-a");
    let reused = allocator.allocate("cap-b").unwrap();
    assert_eq!(reused, first);
}

#[test]
fn returns_none_when_range_is_exhausted() {
    let mut allocator = PortAllocator::new(7000, 7001);
    assert_eq!(allocator.allocate("cap-a"), Some(7000));
    assert_eq!(allocator.allocate("cap-b"), Some(7001));
    assert_eq!(allocator.allocate("cap-c"), None);
}

#[test]
fn reserved_and_released_ports_are_tracked() {
    let mut allocator = PortAllocator::new(9000, 9002);
    assert_eq!(allocator.range(), (9000, 9002));
    allocator.reserve(9001);
    assert_eq!(allocator.allocate("cap-a"), Some(9000));
    assert_eq!(allocator.allocate("cap-b"), Some(9002));
    assert_eq!(allocator.allocate("cap-c"), None);
    assert_eq!(
        allocator.used_ports().iter().copied().collect::<Vec<_>>(),
        vec![9000, 9001, 9002]
    );
    allocator.release("cap-unknown");
    allocator.release("cap-a");
    assert_eq!(
        allocator.used_ports().iter().copied().collect::<Vec<_>>(),
        vec![9001, 9002]
    );
    assert_eq!(allocator.allocate("cap-c"), Some(9000));
    assert_eq!(allocator.allocate("cap-b"), Some(9002));
    let mut edge = PortAllocator::new(65535, 65535);
    assert_eq!(edge.allocate("a"), Some(65535));
    assert_eq!(edge.allocate("b"), None);
}
