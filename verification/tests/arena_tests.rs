use lzos::AllocError;
use lzos::FailurePolicy;
use lzos::MemoryArena;

#[test]
fn scenario_capacity_128_no_alignment() {
    let mut arena = MemoryArena::new(128, 4096, FailurePolicy::Signal);
    assert_eq!(arena.allocate(64, 1), Ok(64));
    assert_eq!(arena.remaining(), 64);
    assert_eq!(arena.allocate(64, 1), Ok(0));
    assert_eq!(arena.remaining(), 0);
    assert_eq!(arena.allocate(1, 1), Err(AllocError::AllocationExhausted));
    assert_eq!(arena.remaining(), 0);
}

#[test]
fn exhausted_request_fails_without_partial_effect() {
    let mut arena = MemoryArena::new(128, 4096, FailurePolicy::Signal);
    assert_eq!(arena.allocate(200, 1), Err(AllocError::AllocationExhausted));
    assert_eq!(arena.remaining(), 128);
    assert_eq!(arena.allocate(200, 1), Err(AllocError::AllocationExhausted));
    assert_eq!(arena.remaining(), 128);
}

#[test]
fn oversized_alignment_is_refused() {
    let mut arena = MemoryArena::new(128, 16, FailurePolicy::Signal);
    assert_eq!(arena.allocate(8, 32), Err(AllocError::UnsupportedAlignment));
    assert_eq!(arena.remaining(), 128);
}

#[test]
fn successful_allocations_are_disjoint() {
    let mut arena = MemoryArena::new(100, 4096, FailurePolicy::Signal);
    let a = arena.allocate(10, 1).unwrap();
    let b = arena.allocate(20, 1).unwrap();
    let c = arena.allocate(5, 4).unwrap();
    assert_eq!(a, 90);
    assert_eq!(b, 70);
    assert_eq!(c, 64);
    // [90, 100), [70, 90) and [64, 69) never overlap.
    assert!(b + 20 <= a);
    assert!(c + 5 <= b);
}

#[test]
fn aligned_request_lands_on_a_multiple() {
    let mut arena = MemoryArena::new(128, 4096, FailurePolicy::Signal);
    let offset = arena.allocate(10, 16).unwrap();
    assert_eq!(offset, 112);
    assert_eq!(offset % 16, 0);
    assert_eq!(arena.remaining(), 112);
}

#[test]
fn deallocate_reclaims_nothing() {
    let mut arena = MemoryArena::new(128, 4096, FailurePolicy::Signal);
    let first = arena.allocate(16, 1).unwrap();
    assert_eq!(first, 112);
    arena.deallocate(first, 16);
    assert_eq!(arena.remaining(), 112);
    let second = arena.allocate(16, 1).unwrap();
    assert_eq!(second, 96);
    // The second block sits entirely below the freed one.
    assert!(second + 16 <= first);
}

#[test]
fn zero_size_request_succeeds() {
    let mut arena = MemoryArena::new(100, 4096, FailurePolicy::Signal);
    let offset = arena.allocate(0, 8).unwrap();
    assert_eq!(offset, 96);
    assert_eq!(offset % 8, 0);
    assert_eq!(arena.remaining(), 96);
}

#[test]
fn policy_is_what_the_constructor_got() {
    let arena = MemoryArena::new(64, 8, FailurePolicy::Abort);
    assert_eq!(arena.policy(), FailurePolicy::Abort);
    assert_eq!(arena.capacity(), 64);
    assert_eq!(arena.max_align(), 8);
    assert_eq!(arena.remaining(), 64);
}
