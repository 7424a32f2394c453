use boot_alloc::pool::MAX_BLOCKS;
use boot_alloc::{AllocError, LabByteAllocator};

fn pool() -> LabByteAllocator {
    let mut a = LabByteAllocator::new();
    a.init(0x1000, 0x1000);
    a
}

#[test]
fn init_reports_whole_pool_free() {
    let a = pool();
    assert_eq!(a.total_bytes(), 0x1000);
    assert_eq!(a.available_bytes(), 0x1000);
    assert_eq!(a.used_bytes(), 0);
}

#[test]
fn free_then_alloc_reuses_the_block() {
    let mut a = pool();
    let p = a.alloc_bytes(0x100, 1).unwrap();
    assert_eq!(p, 0x1000);
    assert_eq!(a.used_bytes(), 0x100);
    a.dealloc(p, 0x100, 1);
    assert_eq!(a.used_bytes(), 0);
    assert_eq!(a.alloc_bytes(0x100, 1), Ok(p));
}

#[test]
fn table_holds_at_most_max_blocks() {
    let mut a = pool();
    for k in 1..MAX_BLOCKS {
        assert_eq!(a.add_memory(0x10_0000 + k * 0x100, 0x100), Ok(()));
    }
    assert_eq!(a.add_memory(0x90_0000, 0x100), Err(AllocError::NoMemory));
    assert_eq!(a.total_bytes(), 0x1000);
}

#[test]
fn partial_alloc_loses_the_remainder() {
    let mut a = pool();
    assert_eq!(a.alloc_bytes(0x100, 1), Ok(0x1000));
    assert_eq!(a.alloc_bytes(0x100, 1), Err(AllocError::NoMemory));
    a.dealloc(0x1000, 0x100, 1);
    assert_eq!(a.used_bytes(), 0);
    assert_eq!(a.available_bytes(), 0x1000);
    assert_eq!(a.alloc_bytes(0x200, 1), Err(AllocError::NoMemory));
    assert_eq!(a.alloc_bytes(0x100, 1), Ok(0x1000));
}

#[test]
fn first_fit_skips_blocks_too_small_after_alignment() {
    let mut a = LabByteAllocator::new();
    a.init(0x1001, 0x10);
    assert_eq!(a.alloc_bytes(0x10, 0x10), Err(AllocError::NoMemory));
    assert_eq!(a.add_memory(0x2004, 0x40), Ok(()));
    assert_eq!(a.alloc_bytes(0x10, 0x10), Ok(0x2010));
    assert_eq!(a.used_bytes(), 0x10);
    assert_eq!(a.alloc_bytes(0x10, 1), Ok(0x1001));
}

#[test]
fn dealloc_of_unknown_address_is_ignored() {
    let mut a = pool();
    assert_eq!(a.alloc_bytes(0x80, 1), Ok(0x1000));
    a.dealloc(0x1234, 0x80, 1);
    assert_eq!(a.used_bytes(), 0x80);
    a.dealloc(0x1000, 0x80, 1);
    a.dealloc(0x1000, 0x80, 1);
    assert_eq!(a.used_bytes(), 0);
}

#[test]
fn init_clears_the_table() {
    let mut a = pool();
    assert_eq!(a.add_memory(0x8000, 0x100), Ok(()));
    assert_eq!(a.alloc_bytes(0x1000, 1), Ok(0x1000));
    a.init(0x4000, 0x80);
    assert_eq!(a.used_bytes(), 0);
    assert_eq!(a.alloc_bytes(0x100, 1), Err(AllocError::NoMemory));
    assert_eq!(a.alloc_bytes(0x80, 1), Ok(0x4000));
}

#[test]
fn empty_pool_serves_nothing() {
    let mut a = LabByteAllocator::new();
    assert_eq!(a.total_bytes(), 0);
    assert_eq!(a.alloc_bytes(1, 1), Err(AllocError::NoMemory));
}
