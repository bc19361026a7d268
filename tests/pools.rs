use frame_pipeline::frame::FrameData;
use frame_pipeline::pool::{BorrowOutcome, BuffersPool, PoolError};
use frame_pipeline::registry::PoolRegistry;

const A: u64 = 10;
const B: u64 = 11;

#[test]
fn new_pool_has_zeroed_buffers() {
    let mut pool = BuffersPool::new(A, 2, 16);
    assert_eq!(pool.buffer_key(), A);
    assert_eq!(pool.capacity_count(), 2);
    assert_eq!(pool.free_count(), 2);
    let mut f = FrameData::new();
    assert_eq!(pool.borrow(&mut f), BorrowOutcome::Granted);
    assert_eq!(f.get_ref(A), Some(&vec![0u8; 16]));
    assert_eq!(pool.free_count(), 1);
}

#[test]
fn one_buffer_pool_waits_then_resumes() {
    let mut pool = BuffersPool::new(A, 1, 1024);
    let mut first = FrameData::new();
    assert_eq!(pool.borrow(&mut first), BorrowOutcome::Granted);
    let b = first.get_ref(A).unwrap();
    assert_eq!(b.len(), 1024);
    assert!(b.iter().all(|x| *x == 0));

    let mut second = FrameData::new();
    assert_eq!(pool.borrow(&mut second), BorrowOutcome::Exhausted);
    assert!(second.get_ref(A).is_none());

    assert_eq!(pool.redeem(&mut first), Ok(()));
    assert_eq!(pool.borrow(&mut second), BorrowOutcome::Granted);
    assert_eq!(second.get_ref(A).map(|b| b.len()), Some(1024));
}

#[test]
fn capacity_bounds_holders() {
    let mut pool = BuffersPool::new(A, 3, 4);
    let mut frames: Vec<FrameData> = (0..4).map(|_| FrameData::new()).collect();
    let outcomes: Vec<BorrowOutcome> = frames.iter_mut().map(|f| pool.borrow(f)).collect();
    assert_eq!(
        outcomes,
        vec![
            BorrowOutcome::Granted,
            BorrowOutcome::Granted,
            BorrowOutcome::Granted,
            BorrowOutcome::Exhausted
        ]
    );
    assert_eq!(frames.iter().filter(|f| f.get_ref(A).is_some()).count(), 3);
    assert_eq!(pool.redeem(&mut frames[1]), Ok(()));
    assert_eq!(pool.borrow(&mut frames[3]), BorrowOutcome::Granted);
    assert_eq!(frames.iter().filter(|f| f.get_ref(A).is_some()).count(), 3);
}

#[test]
fn borrow_then_redeem_keeps_free_count() {
    let mut pool = BuffersPool::new(A, 4, 8);
    let mut f = FrameData::new();
    f.push(B, vec![1]);
    f.set(1, 5);
    let before = pool.free_count();
    assert_eq!(pool.borrow(&mut f), BorrowOutcome::Granted);
    assert_eq!(pool.free_count(), before - 1);
    assert_eq!(pool.redeem(&mut f), Ok(()));
    assert_eq!(pool.free_count(), before);
    assert!(f.get_ref(A).is_none());
    assert_eq!(f.get_ref(B), Some(&vec![1]));
    assert_eq!(f.get(1), Some(5));
}

#[test]
fn redeem_without_buffer_fails() {
    let mut pool = BuffersPool::new(A, 1, 8);
    let mut f = FrameData::new();
    assert_eq!(pool.redeem(&mut f), Err(PoolError::NotHeld));
    assert_eq!(pool.free_count(), 1);
}

#[test]
fn redeem_into_full_pool_fails() {
    let mut pool = BuffersPool::new(A, 1, 8);
    let mut f = FrameData::new();
    f.push(A, vec![3, 3]);
    assert_eq!(pool.redeem(&mut f), Err(PoolError::NotLent));
    assert_eq!(f.get_ref(A), Some(&vec![3, 3]));
    assert_eq!(pool.free_count(), 1);
    assert_eq!(pool.soft_redeem(&mut f), Err(PoolError::NotLent));
}

#[test]
fn soft_redeem_of_absent_key_is_noop() {
    let mut pool = BuffersPool::new(A, 2, 8);
    let mut f = FrameData::new();
    f.push(B, vec![4]);
    assert_eq!(pool.soft_redeem(&mut f), Ok(false));
    assert_eq!(pool.soft_redeem(&mut f), Ok(false));
    assert_eq!(pool.free_count(), 2);
    assert_eq!(f.get_ref(B), Some(&vec![4]));
}

#[test]
fn soft_redeem_returns_held_buffer() {
    let mut pool = BuffersPool::new(A, 2, 8);
    let mut f = FrameData::new();
    pool.borrow(&mut f);
    assert_eq!(pool.soft_redeem(&mut f), Ok(true));
    assert_eq!(pool.free_count(), 2);
    assert!(f.get_ref(A).is_none());
}

#[test]
fn zero_capacity_pool_is_always_exhausted() {
    let mut pool = BuffersPool::new(A, 0, 8);
    let mut f = FrameData::new();
    assert_eq!(pool.borrow(&mut f), BorrowOutcome::Exhausted);
}

#[test]
fn registry_rejects_duplicate_key() {
    let mut pools = PoolRegistry::new();
    assert_eq!(pools.register(A, 1, 8), Ok(()));
    assert_eq!(pools.register(A, 2, 8), Err(PoolError::DuplicateKey));
    assert_eq!(pools.get(A).map(|p| p.capacity_count()), Some(1));
}

#[test]
fn registry_unknown_key() {
    let mut pools = PoolRegistry::new();
    pools.register(A, 1, 8).unwrap();
    let mut f = FrameData::new();
    assert_eq!(pools.borrow(B, &mut f), Err(PoolError::UnknownKey));
    assert_eq!(pools.redeem(B, &mut f), Err(PoolError::UnknownKey));
    assert_eq!(pools.soft_redeem(B, &mut f), Err(PoolError::UnknownKey));
    assert!(pools.get(B).is_none());
}

#[test]
fn registry_routes_by_key() {
    let mut pools = PoolRegistry::new();
    pools.register(A, 1, 4).unwrap();
    pools.register(B, 2, 6).unwrap();
    let mut f = FrameData::new();
    assert_eq!(pools.borrow(B, &mut f), Ok(BorrowOutcome::Granted));
    assert_eq!(f.get_ref(B).map(|b| b.len()), Some(6));
    assert_eq!(pools.get(A).unwrap().free_count(), 1);
    assert_eq!(pools.get(B).unwrap().free_count(), 1);
    assert_eq!(pools.redeem(B, &mut f), Ok(()));
    assert_eq!(pools.get(B).unwrap().free_count(), 2);
}

#[test]
fn release_all_returns_every_held_buffer() {
    let mut pools = PoolRegistry::new();
    pools.register(A, 1, 4).unwrap();
    pools.register(B, 1, 4).unwrap();
    let mut f = FrameData::new();
    pools.borrow(A, &mut f).unwrap();
    pools.borrow(B, &mut f).unwrap();
    f.push(99, vec![1]);
    f.report_error(1);
    pools.release_all(&mut f);
    assert_eq!(pools.get(A).unwrap().free_count(), 1);
    assert_eq!(pools.get(B).unwrap().free_count(), 1);
    assert!(f.get_ref(A).is_none());
    assert!(f.get_ref(B).is_none());
    assert_eq!(f.get_ref(99), Some(&vec![1]));
    assert_eq!(f.get_error(), Some(1));
}

#[test]
fn release_all_skips_keys_not_held() {
    let mut pools = PoolRegistry::new();
    pools.register(A, 2, 4).unwrap();
    pools.register(B, 2, 4).unwrap();
    let mut f = FrameData::new();
    pools.borrow(B, &mut f).unwrap();
    pools.release_all(&mut f);
    assert_eq!(pools.get(A).unwrap().free_count(), 2);
    assert_eq!(pools.get(B).unwrap().free_count(), 2);
}
