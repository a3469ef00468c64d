use autograph::fence::Fence;
use autograph::fence::FenceValue;
use autograph::upload_buffer::align_offset;
use autograph::upload_buffer::UploadBuffer;

#[test]
fn align_offset_pads_to_alignment() {
    assert_eq!(align_offset(4, 2, 5, 10), Some(8));
    assert_eq!(align_offset(4, 8, 5, 10), None);
    assert_eq!(align_offset(4, 7, 5, 10), Some(8));
    assert_eq!(align_offset(1, 0, 0, 0), Some(0));
    assert_eq!(align_offset(16, 1, 16, 1), Some(16));
    assert_eq!(align_offset(256, 4, 1, 255), None);
}

#[test]
fn allocations_follow_each_other_aligned() {
    let mut buf = UploadBuffer::new(16);
    assert_eq!(buf.buffer_size(), 16);
    assert_eq!(buf.allocate(4, 4, FenceValue(1), FenceValue(0)), Some(0));
    assert_eq!(buf.allocate(3, 4, FenceValue(1), FenceValue(0)), Some(4));
    assert_eq!(buf.allocate(2, 4, FenceValue(2), FenceValue(0)), Some(8));
}

#[test]
fn full_buffer_without_reclaimable_regions_refuses() {
    let mut buf = UploadBuffer::new(16);
    assert_eq!(buf.allocate(4, 4, FenceValue(1), FenceValue(0)), Some(0));
    assert_eq!(buf.allocate(3, 4, FenceValue(1), FenceValue(0)), Some(4));
    assert_eq!(buf.allocate(2, 4, FenceValue(2), FenceValue(0)), Some(8));
    // tail too small, nothing reclaimable before fence 1
    assert_eq!(buf.allocate(8, 1, FenceValue(3), FenceValue(0)), None);
    // reclaiming up to fence 1 frees [0, 7), still too small for 8 bytes
    assert_eq!(buf.allocate(8, 1, FenceValue(3), FenceValue(1)), None);
}

#[test]
fn ring_wraps_and_reclaims_in_order() {
    let mut buf = UploadBuffer::new(16);
    assert_eq!(buf.allocate(4, 4, FenceValue(1), FenceValue(0)), Some(0));
    assert_eq!(buf.allocate(3, 4, FenceValue(1), FenceValue(0)), Some(4));
    assert_eq!(buf.allocate(2, 4, FenceValue(2), FenceValue(0)), Some(8));
    assert_eq!(buf.allocate(8, 1, FenceValue(3), FenceValue(1)), None);
    // the tail [10, 16) still fits 6 bytes
    assert_eq!(buf.allocate(6, 1, FenceValue(3), FenceValue(1)), Some(10));
    // wraps to the start, before begin (7)
    assert_eq!(buf.allocate(5, 1, FenceValue(4), FenceValue(1)), Some(0));
    // the gap [5, 7) holds 2 bytes but not 3
    assert_eq!(buf.allocate(3, 1, FenceValue(4), FenceValue(1)), None);
    assert_eq!(buf.allocate(2, 1, FenceValue(4), FenceValue(1)), Some(5));
    // full: reclaiming up to fence 2 frees [8, 10)
    assert_eq!(buf.allocate(1, 1, FenceValue(5), FenceValue(2)), Some(7));
}

#[test]
fn try_allocate_does_not_reclaim() {
    let mut buf = UploadBuffer::new(8);
    assert_eq!(buf.try_allocate_contiguous(8, 1, FenceValue(1)), Some(0));
    assert_eq!(buf.try_allocate_contiguous(1, 1, FenceValue(2)), None);
    buf.reclaim(FenceValue(1));
    assert_eq!(buf.try_allocate_contiguous(8, 1, FenceValue(2)), Some(0));
}

#[test]
fn reclaim_stops_at_first_live_region() {
    let mut buf = UploadBuffer::new(12);
    assert_eq!(buf.allocate(4, 1, FenceValue(2), FenceValue(0)), Some(0));
    assert_eq!(buf.allocate(4, 1, FenceValue(1), FenceValue(0)), Some(4));
    assert_eq!(buf.allocate(4, 1, FenceValue(3), FenceValue(0)), Some(8));
    // region [4, 8) has fence 1 but sits behind [0, 4) with fence 2
    buf.reclaim(FenceValue(1));
    assert_eq!(buf.try_allocate_contiguous(1, 1, FenceValue(4)), None);
    buf.reclaim(FenceValue(2));
    assert_eq!(buf.try_allocate_contiguous(8, 1, FenceValue(4)), Some(0));
}

#[test]
fn oversized_allocation_is_refused() {
    let mut buf = UploadBuffer::new(8);
    assert_eq!(buf.allocate(9, 1, FenceValue(1), FenceValue(0)), None);
    assert_eq!(buf.allocate(8, 1, FenceValue(1), FenceValue(0)), Some(0));
}

#[test]
fn fence_values_advance() {
    let mut f = Fence::new(FenceValue(0));
    assert_eq!(f.current_value(), FenceValue(0));
    assert_eq!(f.next_value(), FenceValue(1));
    assert_eq!(f.advance_async(), FenceValue(2));
    assert_eq!(f.advance_async(), FenceValue(3));
    assert_eq!(f.oldest_pending(), Some(FenceValue(1)));
    assert!(f.signal_oldest());
    assert_eq!(f.current_value(), FenceValue(1));
    assert!(f.signal_oldest());
    assert_eq!(f.current_value(), FenceValue(2));
    assert!(!f.signal_oldest());
    assert_eq!(f.current_value(), FenceValue(2));
    assert_eq!(f.next_value(), FenceValue(3));
}

#[test]
fn fence_next_value_counts_advances() {
    let mut f = Fence::new(FenceValue(-1));
    assert_eq!(f.current_value(), FenceValue(-1));
    for k in 0..5i64 {
        assert_eq!(f.next_value(), FenceValue(-1 + 1 + k));
        f.advance_async();
        assert!(f.current_value().0 < f.next_value().0);
    }
    assert_eq!(f.next_value(), FenceValue(5));
    let mut last = f.current_value();
    while f.signal_oldest() {
        assert!(f.current_value().0 > last.0);
        assert!(f.current_value().0 < f.next_value().0);
        last = f.current_value();
    }
    assert_eq!(f.current_value(), FenceValue(4));
}
