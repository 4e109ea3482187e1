use typio_host::buffer_pool::{
    all_busy, plan_acquire, plan_slot, shm_frame_layout, slot_is_busy, still_parked,
    AcquirePlan, BufferState, SlotPlan, SHM_POOL_DEFAULT_CAP,
};

fn buf(busy: bool, width: u32, height: u32) -> BufferState {
    BufferState { busy, width, height }
}

#[test]
fn acquire_prefers_a_free_buffer_of_the_right_size() {
    let pool = [buf(true, 100, 40), buf(false, 80, 40), buf(false, 100, 40)];
    assert_eq!(plan_acquire(&pool, SHM_POOL_DEFAULT_CAP, 100, 40), AcquirePlan::Reuse(2));
}

#[test]
fn acquire_reallocates_a_free_buffer_of_the_wrong_size() {
    let pool = [buf(true, 100, 40), buf(false, 80, 40)];
    assert_eq!(plan_acquire(&pool, SHM_POOL_DEFAULT_CAP, 100, 40), AcquirePlan::Replace(1));
}

#[test]
fn acquire_grows_under_the_cap_and_drops_frames_at_it() {
    assert_eq!(plan_acquire(&[], SHM_POOL_DEFAULT_CAP, 10, 10), AcquirePlan::Grow);
    let one = [buf(true, 10, 10)];
    assert_eq!(plan_acquire(&one, SHM_POOL_DEFAULT_CAP, 10, 10), AcquirePlan::Grow);
    let two = [buf(true, 10, 10), buf(true, 20, 20)];
    assert_eq!(plan_acquire(&two, SHM_POOL_DEFAULT_CAP, 10, 10), AcquirePlan::DropFrame);
}

#[test]
fn all_busy_needs_a_non_empty_pool() {
    assert!(!all_busy(&[]));
    assert!(all_busy(&[buf(true, 1, 1), buf(true, 2, 2)]));
    assert!(!all_busy(&[buf(true, 1, 1), buf(false, 2, 2)]));
}

#[test]
fn frame_layout_is_four_bytes_per_pixel() {
    assert_eq!(shm_frame_layout(100, 40), Some((400, 16_000)));
    assert_eq!(shm_frame_layout(0, 40), Some((0, 0)));
}

#[test]
fn dmabuf_slots_keep_matching_buffers_and_park_busy_ones() {
    assert_eq!(plan_slot(None, 10, 10), SlotPlan::Create { retire: false });
    assert_eq!(plan_slot(Some(buf(true, 10, 10)), 10, 10), SlotPlan::Keep);
    assert_eq!(plan_slot(Some(buf(true, 10, 10)), 20, 10), SlotPlan::Create { retire: true });
    assert_eq!(plan_slot(Some(buf(false, 10, 10)), 20, 10), SlotPlan::Create { retire: false });
    let slots = [Some(buf(true, 1, 1)), None, Some(buf(false, 1, 1))];
    assert!(slot_is_busy(&slots, 0));
    assert!(!slot_is_busy(&slots, 1));
    assert!(!slot_is_busy(&slots, 2));
    assert!(!slot_is_busy(&slots, 9));
    assert_eq!(still_parked(&[buf(false, 1, 1), buf(true, 1, 1), buf(true, 2, 2)]), [1, 2]);
}
