use golem::zero_copy::{get_backing_store_slice, get_backing_store_slice_mut, BufferLeases, LeaseError};

#[test]
fn disjoint_writable_buffers_are_held_together() {
    let mut leases = BufferLeases::new();
    let mut store: Vec<u8> = (0u8..16).collect();
    let a = leases.lend(1, store.len(), 0, 8, true).unwrap();
    let b = leases.lend(1, store.len(), 8, 8, true).unwrap();
    assert_eq!(leases.len(), 2);
    a.as_mut_slice(&mut store).copy_from_slice(&[0xAA; 8]);
    b.as_mut_slice(&mut store).copy_from_slice(&[0xBB; 8]);
    assert_eq!(a.as_slice(&store), &[0xAA; 8]);
    assert_eq!(b.as_slice(&store), &[0xBB; 8]);
}

#[test]
fn overlapping_writable_buffer_is_refused() {
    let mut leases = BufferLeases::new();
    let _a = leases.lend(1, 16, 0, 8, true).unwrap();
    assert!(matches!(leases.lend(1, 16, 4, 8, true), Err(LeaseError::Conflict)));
    assert!(matches!(leases.lend(1, 16, 7, 1, false), Err(LeaseError::Conflict)));
    assert!(leases.lend(2, 16, 4, 8, true).is_ok());
    assert_eq!(leases.len(), 2);
}

#[test]
fn overlapping_read_only_buffers_are_shared() {
    let mut leases = BufferLeases::new();
    let a = leases.lend(1, 16, 0, 8, false).unwrap();
    let b = leases.lend(1, 16, 4, 8, false).unwrap();
    assert!(!a.writable() && !b.writable());
    assert!(matches!(leases.lend(1, 16, 6, 2, true), Err(LeaseError::Conflict)));
}

#[test]
fn empty_range_never_conflicts() {
    let mut leases = BufferLeases::new();
    let _a = leases.lend(1, 16, 0, 16, true).unwrap();
    assert!(leases.lend(1, 16, 5, 0, true).is_ok());
}

#[test]
fn range_past_the_store_is_refused() {
    let mut leases = BufferLeases::new();
    assert!(matches!(leases.lend(1, 16, 10, 7, false), Err(LeaseError::OutOfBounds)));
    assert!(matches!(leases.lend(1, 16, usize::MAX, 2, false), Err(LeaseError::OutOfBounds)));
    assert!(leases.lend(1, 16, 10, 6, false).is_ok());
}

#[test]
fn returned_buffer_frees_its_range() {
    let mut leases = BufferLeases::new();
    let a = leases.lend(1, 16, 0, 8, true).unwrap();
    assert_eq!(a.store(), 1);
    assert_eq!(a.byte_offset(), 0);
    assert_eq!(a.byte_length(), 8);
    assert!(leases.give_back(a));
    assert_eq!(leases.len(), 0);
    assert!(leases.lend(1, 16, 2, 4, true).is_ok());
}

#[test]
fn buffer_from_another_tracker_is_not_taken_back() {
    let mut mine = BufferLeases::new();
    let mut other = BufferLeases::new();
    let _kept = mine.lend(1, 16, 0, 4, false).unwrap();
    let foreign = other.lend(1, 16, 8, 4, false).unwrap();
    assert!(!mine.give_back(foreign));
    assert_eq!(mine.len(), 1);
}

#[test]
fn backing_store_slices_cover_the_range() {
    let mut store: Vec<u8> = vec![1, 2, 3, 4, 5, 6];
    assert_eq!(get_backing_store_slice(&store, 2, 3), &[3, 4, 5]);
    get_backing_store_slice_mut(&mut store, 1, 2).copy_from_slice(&[9, 9]);
    assert_eq!(store, vec![1, 9, 9, 4, 5, 6]);
}
