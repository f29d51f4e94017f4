use nvidia_video_codec::cuvid::gate::FlightGate;
use nvidia_video_codec::cuvid::pool::ResourcePool;
use nvidia_video_codec::cuvid::tracker::{FrameTracker, MAX_SURFACES};

#[test]
fn tracker_starts_with_every_surface_free() {
    let tracker = FrameTracker::new();
    for idx in 0..MAX_SURFACES {
        assert!(!tracker.is_in_use(idx));
    }
    assert_eq!(tracker.bits(), 0);
}

#[test]
fn tracker_marks_and_frees_single_surfaces() {
    let mut tracker = FrameTracker::new();
    tracker.mark_in_use(0);
    tracker.mark_in_use(5);
    tracker.mark_in_use(63);
    assert_eq!(tracker.bits(), 1 | (1 << 5) | (1 << 63));
    assert!(tracker.is_in_use(0));
    assert!(tracker.is_in_use(5));
    assert!(tracker.is_in_use(63));
    assert!(!tracker.is_in_use(1));
    assert!(!tracker.is_in_use(62));
    tracker.mark_free(5);
    assert!(!tracker.is_in_use(5));
    assert!(tracker.is_in_use(0));
    assert!(tracker.is_in_use(63));
    assert_eq!(tracker.bits(), 1 | (1 << 63));
}

#[test]
fn tracker_marking_twice_is_marking_once() {
    let mut tracker = FrameTracker::new();
    tracker.mark_in_use(7);
    tracker.mark_in_use(7);
    assert_eq!(tracker.bits(), 1 << 7);
    tracker.mark_free(7);
    tracker.mark_free(7);
    assert_eq!(tracker.bits(), 0);
}

#[test]
fn tracker_masks_match_the_marking() {
    for idx in 0..MAX_SURFACES {
        let mut tracker = FrameTracker::from_bits(0x0f0f_0f0f_0f0f_0f0f);
        let word = tracker.bits();
        tracker.mark_in_use(idx);
        assert_eq!(tracker.bits(), word | FrameTracker::claim_mask(idx));
        tracker.mark_free(idx);
        assert_eq!(tracker.bits(), (word | FrameTracker::claim_mask(idx)) & FrameTracker::release_mask(idx));
        assert_eq!(FrameTracker::claim_mask(idx), 1u64 << idx);
        assert_eq!(FrameTracker::release_mask(idx), !(1u64 << idx));
    }
}

#[test]
fn tracker_clear_frees_everything() {
    let mut tracker = FrameTracker::from_bits(u64::MAX);
    assert!(tracker.is_in_use(17));
    tracker.clear();
    assert_eq!(tracker.bits(), 0);
    assert!(!tracker.is_in_use(17));
}

#[test]
fn gate_admits_up_to_its_bound() {
    let mut gate = FlightGate::new(3);
    assert!(gate.is_idle());
    assert_eq!(gate.bound(), 3);
    assert!(gate.try_acquire());
    assert!(gate.try_acquire());
    assert!(gate.try_acquire());
    assert_eq!(gate.count(), 3);
    assert!(!gate.try_acquire());
    assert_eq!(gate.count(), 3);
    assert!(!gate.is_idle());
}

#[test]
fn gate_release_admits_exactly_one() {
    let mut gate = FlightGate::new(2);
    assert!(gate.try_acquire());
    assert!(gate.try_acquire());
    assert!(!gate.try_acquire());
    gate.release();
    assert_eq!(gate.count(), 1);
    assert!(gate.try_acquire());
    assert!(!gate.try_acquire());
    assert_eq!(gate.count(), 2);
}

#[test]
fn gate_count_stays_between_zero_and_bound() {
    let mut gate = FlightGate::new(4);
    let script = [true, true, false, true, true, true, true, false, false, false, false, true];
    for acquire in script {
        if acquire {
            gate.try_acquire();
        } else if gate.count() > 0 {
            gate.release();
        }
        assert!(gate.count() <= gate.bound());
    }
}

#[test]
fn gate_with_bound_zero_admits_nothing() {
    let mut gate = FlightGate::new(0);
    assert!(!gate.try_acquire());
    assert_eq!(gate.count(), 0);
    gate.set_bound(1);
    assert!(gate.try_acquire());
    assert!(!gate.try_acquire());
}

#[test]
fn gate_set_bound_keeps_the_count() {
    let mut gate = FlightGate::new(3);
    assert!(gate.try_acquire());
    assert!(gate.try_acquire());
    gate.set_bound(7);
    assert_eq!(gate.count(), 2);
    assert_eq!(gate.bound(), 7);
    gate.set_bound(1);
    assert_eq!(gate.count(), 2);
    assert!(!gate.try_acquire());
    gate.release();
    assert!(!gate.try_acquire());
    gate.release();
    assert!(gate.try_acquire());
}

#[test]
fn pool_hands_out_slots_in_rising_order() {
    let mut pool = ResourcePool::with_capacity(4);
    assert_eq!(pool.capacity(), 4);
    assert_eq!(pool.available(), 4);
    for expected in 0..4usize {
        let permit = pool.get().unwrap();
        assert_eq!(permit.index(), expected);
    }
    assert_eq!(pool.available(), 0);
    assert!(pool.get().is_none());
}

#[test]
fn pool_never_has_more_permits_out_than_slots() {
    let mut pool = ResourcePool::with_capacity(3);
    let mut out = Vec::new();
    for _ in 0..10 {
        if let Some(permit) = pool.get() {
            out.push(permit);
        }
        assert!(out.len() <= 3);
        assert_eq!(out.len() + pool.available(), 3);
    }
    assert_eq!(out.len(), 3);
}

#[test]
fn pool_released_permit_is_reacquired_at_once() {
    let mut pool = ResourcePool::with_capacity(2);
    let first = pool.get().unwrap();
    let second = pool.get().unwrap();
    assert!(pool.get().is_none());
    pool.put(second);
    let again = pool.get().unwrap();
    assert_eq!(again.index(), second.index());
    assert!(pool.get().is_none());
    pool.put(first);
    pool.put(again);
    assert_eq!(pool.get().unwrap().index(), first.index());
    assert_eq!(pool.get().unwrap().index(), second.index());
}

#[test]
fn pool_without_slots_is_always_empty() {
    let mut pool = ResourcePool::with_capacity(0);
    assert_eq!(pool.capacity(), 0);
    assert!(pool.get().is_none());
}
