//! Buffer bookkeeping of the candidate panel's presentation pools.
//!
//! The SHM pool is double-buffered and never blocks: it reuses a free buffer
//! of the right size, reallocates a free buffer of the wrong size in place,
//! grows up to its cap, and otherwise drops the frame. The dma-buf pool keeps
//! one buffer per frame slot and never destroys a buffer the compositor still
//! holds: such a buffer is parked until its release arrives.
use vstd::prelude::*;

verus! {

/// Buffers an SHM pool holds at most.
pub const SHM_POOL_DEFAULT_CAP: usize = 2;

/// Bytes per ARGB8888 pixel.
pub const BYTES_PER_PIXEL: usize = 4;

/// What the pool logic reads of one buffer.
#[derive(Debug, Clone, Copy, PartialEq, Eq, Structural)]
pub struct BufferState {
    /// The compositor still holds the buffer (attached, not yet released).
    pub busy: bool,
    pub width: u32,
    pub height: u32,
}

/// Errors from SHM buffer allocation, with the OS error code of the failed
/// call.
#[derive(Debug, Clone, Copy, PartialEq, Eq, Structural)]
pub enum ShmError {
    OpenFd(i32),
    Fallocate(i32),
    Mmap(i32),
}

/// A free buffer of exactly the requested size.
pub open spec fn reusable(b: BufferState, width: u32, height: u32) -> bool {
    !b.busy && b.width == width && b.height == height
}

/// A free buffer of another size.
pub open spec fn replaceable(b: BufferState, width: u32, height: u32) -> bool {
    !b.busy && (b.width != width || b.height != height)
}

/// How an SHM pool serves a frame of a given size.
#[derive(Debug, Clone, Copy, PartialEq, Eq, Structural)]
pub enum AcquirePlan {
    /// Draw into this free buffer of the right size.
    Reuse(usize),
    /// Reallocate this free buffer of the wrong size in place, then draw.
    Replace(usize),
    /// Allocate one more buffer (the pool is under its cap).
    Grow,
    /// Every buffer is busy and the cap is reached: drop this frame.
    DropFrame,
}

/// Choose how to serve a `width` x `height` frame from `buffers`: the first
/// free buffer of that size; else the first free buffer of another size,
/// reallocated; else a new buffer while under `cap`; else no buffer.
pub fn plan_acquire(buffers: &[BufferState], cap: usize, width: u32, height: u32) -> (p:
    AcquirePlan)
    ensures
        p matches AcquirePlan::Reuse(i) ==> {
            &&& i < buffers@.len()
            &&& reusable(buffers@[i as int], width, height)
            &&& forall|j: int| 0 <= j < i ==> !reusable(#[trigger] buffers@[j], width, height)
        },
        p matches AcquirePlan::Replace(i) ==> {
            &&& i < buffers@.len()
            &&& replaceable(buffers@[i as int], width, height)
            &&& forall|j: int|
                0 <= j < buffers@.len() ==> !reusable(#[trigger] buffers@[j], width, height)
            &&& forall|j: int| 0 <= j < i ==> !replaceable(#[trigger] buffers@[j], width, height)
        },
        p is Grow ==> {
            &&& forall|j: int| 0 <= j < buffers@.len() ==> (#[trigger] buffers@[j]).busy
            &&& buffers@.len() < cap
        },
        p is DropFrame ==> {
            &&& forall|j: int| 0 <= j < buffers@.len() ==> (#[trigger] buffers@[j]).busy
            &&& buffers@.len() >= cap
        },
{
    let n = buffers.len();
    let mut i: usize = 0;
    while i < n
        invariant
            n == buffers@.len(),
            0 <= i <= n,
            forall|j: int| 0 <= j < i ==> !reusable(#[trigger] buffers@[j], width, height),
        decreases n - i,
    {
        let b = buffers[i];
        if !b.busy && b.width == width && b.height == height {
            return AcquirePlan::Reuse(i);
        }
        i = i + 1;
    }
    let mut k: usize = 0;
    while k < n
        invariant
            n == buffers@.len(),
            0 <= k <= n,
            forall|j: int| 0 <= j < n ==> !reusable(#[trigger] buffers@[j], width, height),
            forall|j: int| 0 <= j < k ==> !replaceable(#[trigger] buffers@[j], width, height),
        decreases n - k,
    {
        let b = buffers[k];
        if !b.busy && (b.width != width || b.height != height) {
            return AcquirePlan::Replace(k);
        }
        k = k + 1;
    }
    assert forall|j: int| 0 <= j < buffers@.len() implies (#[trigger] buffers@[j]).busy by {
        assert(!reusable(buffers@[j], width, height));
        assert(!replaceable(buffers@[j], width, height));
    }
    if n < cap {
        AcquirePlan::Grow
    } else {
        AcquirePlan::DropFrame
    }
}

/// Whether the compositor holds every buffer of a non-empty pool.
pub fn all_busy(buffers: &[BufferState]) -> (b: bool)
    ensures
        b == (buffers@.len() > 0 && forall|j: int|
            0 <= j < buffers@.len() ==> (#[trigger] buffers@[j]).busy),
{
    let n = buffers.len();
    if n == 0 {
        return false;
    }
    let mut i: usize = 0;
    while i < n
        invariant
            n == buffers@.len(),
            0 <= i <= n,
            forall|j: int| 0 <= j < i ==> (#[trigger] buffers@[j]).busy,
        decreases n - i,
    {
        if !buffers[i].busy {
            return false;
        }
        i = i + 1;
    }
    true
}

/// The row stride and byte length of a `width` x `height` ARGB8888 frame,
/// or `None` where either does not fit in `usize`.
pub fn shm_frame_layout(width: u32, height: u32) -> (layout: Option<(usize, usize)>)
    ensures
        match layout {
            Some((stride, len)) => {
                &&& stride == width * BYTES_PER_PIXEL
                &&& len == stride * height
            },
            None => width * BYTES_PER_PIXEL > usize::MAX || width * BYTES_PER_PIXEL * height
                > usize::MAX,
        },
{
    let stride = match (width as usize).checked_mul(BYTES_PER_PIXEL) {
        Some(s) => s,
        None => return None,
    };
    match stride.checked_mul(height as usize) {
        Some(len) => Some((stride, len)),
        None => None,
    }
}

/// What to do with a dma-buf frame slot when a frame of a given size is
/// exported into it.
#[derive(Debug, Clone, Copy, PartialEq, Eq, Structural)]
pub enum SlotPlan {
    /// Keep the slot's buffer; the freshly exported descriptor is surplus.
    Keep,
    /// Create a new buffer for the slot. `retire` says whether the displaced
    /// buffer is still held by the compositor and must be parked until its
    /// release arrives (a free one is simply destroyed).
    Create { retire: bool },
}

/// Decide the fate of a slot whose current buffer is `existing`, for a frame
/// of `width` x `height`.
pub fn plan_slot(existing: Option<BufferState>, width: u32, height: u32) -> (p: SlotPlan)
    ensures
        existing is None ==> p == (SlotPlan::Create { retire: false }),
        existing matches Some(b) ==> (b.width == width && b.height == height ==> p
            == SlotPlan::Keep),
        existing matches Some(b) ==> (!(b.width == width && b.height == height) ==> p
            == (SlotPlan::Create { retire: b.busy })),
{
    match existing {
        None => SlotPlan::Create { retire: false },
        Some(b) => {
            if b.width != width || b.height != height {
                SlotPlan::Create { retire: b.busy }
            } else {
                SlotPlan::Keep
            }
        },
    }
}

/// Whether a slot's buffer is still held by the compositor (an empty or
/// missing slot is not).
pub fn slot_is_busy(slots: &[Option<BufferState>], slot: usize) -> (b: bool)
    ensures
        b == (slot < slots@.len() && (match slots@[slot as int] {
            Some(s) => s.busy,
            None => false,
        })),
{
    if slot < slots.len() {
        match slots[slot] {
            Some(s) => s.busy,
            None => false,
        }
    } else {
        false
    }
}

/// The parked buffers that must stay parked: those the compositor still
/// holds. Returns their indices in order; the others may be destroyed.
pub fn still_parked(pending: &[BufferState]) -> (keep: Vec<usize>)
    ensures
        forall|k: int| 0 <= k < keep@.len() ==> (#[trigger] keep@[k]) < pending@.len() && pending@[keep@[k] as int].busy,
        forall|k: int, l: int| 0 <= k < l < keep@.len() ==> keep@[k] < keep@[l],
        forall|j: int|
            0 <= j < pending@.len() && (#[trigger] pending@[j]).busy ==> keep@.contains(j as usize),
{
    let n = pending.len();
    let mut keep: Vec<usize> = Vec::new();
    let mut i: usize = 0;
    while i < n
        invariant
            n == pending@.len(),
            0 <= i <= n,
            forall|k: int| 0 <= k < keep@.len() ==> (#[trigger] keep@[k]) < i && pending@[keep@[k] as int].busy,
            forall|k: int, l: int| 0 <= k < l < keep@.len() ==> keep@[k] < keep@[l],
            forall|j: int| 0 <= j < i && (#[trigger] pending@[j]).busy ==> keep@.contains(j as usize),
        decreases n - i,
    {
        if pending[i].busy {
            let ghost before = keep@;
            keep.push(i);
            proof {
                assert forall|j: int| 0 <= j < i + 1 && (#[trigger] pending@[j]).busy implies keep@.contains(j as usize) by {
                    if j < i {
                        assert(before.contains(j as usize));
                        let w = choose|w: int| 0 <= w < before.len() && before[w] == j as usize;
                        assert(keep@[w] == j as usize);
                    } else {
                        assert(keep@[before.len() as int] == i);
                    }
                }
            }
        }
        i = i + 1;
    }
    keep
}

} // verus!
