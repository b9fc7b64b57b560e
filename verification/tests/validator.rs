use vmmap::addr::{validate, AlignmentError, VirtAddr, VirtualPageRange, PAGE_SIZE};

#[test]
fn aligned_start_accepted() {
    assert_eq!(
        validate(0x1000, 0x1000),
        Ok(VirtualPageRange { start_page: 1, end_page: 2 })
    );
}

#[test]
fn end_boundary_rounds_up() {
    assert_eq!(
        validate(0x1000, 0x1001),
        Ok(VirtualPageRange { start_page: 1, end_page: 3 })
    );
    assert_eq!(validate(0, 1), Ok(VirtualPageRange { start_page: 0, end_page: 1 }));
}

#[test]
fn zero_length_gives_empty_range() {
    assert_eq!(
        validate(0x1000, 0),
        Ok(VirtualPageRange { start_page: 1, end_page: 1 })
    );
}

#[test]
fn misaligned_start_rejected() {
    assert_eq!(validate(1, 0x1000), Err(AlignmentError));
    assert_eq!(validate(0x1fff, 0), Err(AlignmentError));
    assert_eq!(validate(0x1000 + 1, 7), Err(AlignmentError));
}

#[test]
fn virt_addr_alignment() {
    assert!(VirtAddr(0).aligned());
    assert!(VirtAddr(PAGE_SIZE).aligned());
    assert!(VirtAddr(3 * PAGE_SIZE).aligned());
    assert!(!VirtAddr(PAGE_SIZE + 1).aligned());
    assert!(!VirtAddr(PAGE_SIZE - 1).aligned());
}

#[test]
fn virt_addr_page_numbers() {
    assert_eq!(VirtAddr(0).floor_page(), 0);
    assert_eq!(VirtAddr(0).ceil_page(), 0);
    assert_eq!(VirtAddr(1).floor_page(), 0);
    assert_eq!(VirtAddr(1).ceil_page(), 1);
    assert_eq!(VirtAddr(PAGE_SIZE).floor_page(), 1);
    assert_eq!(VirtAddr(PAGE_SIZE).ceil_page(), 1);
    assert_eq!(VirtAddr(2 * PAGE_SIZE - 1).floor_page(), 1);
    assert_eq!(VirtAddr(2 * PAGE_SIZE - 1).ceil_page(), 2);
}
