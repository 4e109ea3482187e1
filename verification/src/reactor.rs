//! Deadline reduction for the runtime loop's `poll(2)` timeout.
//!
//! Every deadline source (panel pacing, pending protocol requests, status
//! banners) offers its remaining milliseconds; the loop waits for the
//! earliest one. No deadline at all means an idle, unbounded wait (`-1`).
use vstd::prelude::*;

verus! {

/// `poll(2)` timeout reducer. No deadline means an idle, unbounded wait.
#[derive(Debug, Clone, Copy, PartialEq, Eq, Structural)]
pub struct PollTimeout {
    earliest: Option<i32>,
}

/// The clamped value a deadline contributes: negative remainders count as 0.
pub open spec fn clamp_nonneg(ms: i32) -> i32 {
    if ms < 0 { 0 } else { ms }
}

/// The earliest deadline after reducing `current` with `remaining_ms`.
pub open spec fn reduced(current: Option<i32>, remaining_ms: i32) -> Option<i32> {
    let r = clamp_nonneg(remaining_ms);
    match current {
        None => Some(r),
        Some(c) => Some(if c <= r { c } else { r }),
    }
}

/// The `poll(2)` argument for an earliest deadline: `-1` when there is none.
pub open spec fn poll_millis(earliest: Option<i32>) -> i32 {
    match earliest {
        None => -1i32,
        Some(ms) => ms,
    }
}

impl View for PollTimeout {
    type V = Option<i32>;

    closed spec fn view(&self) -> Option<i32> {
        self.earliest
    }
}

impl PollTimeout {
    /// A reducer with no deadline yet: an unbounded wait.
    pub fn new() -> (t: PollTimeout)
        ensures
            t@ is None,
    {
        PollTimeout { earliest: None }
    }

    /// Offer one deadline, `remaining_ms` from now. Negative values (already
    /// elapsed deadlines) count as zero; the earliest offer wins.
    pub fn reduce(&mut self, remaining_ms: i32)
        ensures
            final(self)@ == reduced(old(self)@, remaining_ms),
    {
        let remaining_ms = if remaining_ms < 0 { 0 } else { remaining_ms };
        self.earliest = Some(match self.earliest {
            Some(current) => if current <= remaining_ms { current } else { remaining_ms },
            None => remaining_ms,
        });
    }

    /// The timeout to hand to `poll(2)`: the earliest non-negative deadline,
    /// or `-1` (wait without bound) when none was offered.
    pub fn as_millis(self) -> (ms: i32)
        ensures
            ms == poll_millis(self@),
    {
        match self.earliest {
            Some(ms) => ms,
            None => -1i32,
        }
    }
}

impl Default for PollTimeout {
    /// A reducer with no deadline yet: an unbounded wait.
    fn default() -> (t: PollTimeout)
        ensures
            t@ is None,
    {
        PollTimeout { earliest: None }
    }
}

/// Readiness bit: data to read (`POLLIN` on Linux).
pub const POLL_IN: i16 = 0x1;
/// Readiness bit: error condition (`POLLERR` on Linux).
pub const POLL_ERR: i16 = 0x8;
/// Readiness bit: hang-up (`POLLHUP` on Linux).
pub const POLL_HUP: i16 = 0x10;

/// The number of descriptors the runtime loop watches.
pub const SOURCE_COUNT: usize = 8;

/// Every file descriptor the runtime loop watches, by role.
#[derive(Debug, Clone, Copy, PartialEq, Eq, Structural)]
pub enum PollSource {
    Wayland,
    Uds,
    KeyRepeat,
    ConfigWatch,
    ConfigTimer,
    IndicatorTimer,
    VoiceTimer,
    VoiceSession,
}

/// The position of a source in the poll set.
pub open spec fn source_index(s: PollSource) -> int {
    match s {
        PollSource::Wayland => 0,
        PollSource::Uds => 1,
        PollSource::KeyRepeat => 2,
        PollSource::ConfigWatch => 3,
        PollSource::ConfigTimer => 4,
        PollSource::IndicatorTimer => 5,
        PollSource::VoiceTimer => 6,
        PollSource::VoiceSession => 7,
    }
}

impl PollSource {
    /// The position of this source in the poll set.
    pub fn index(self) -> (i: usize)
        ensures
            i == source_index(self),
            i < SOURCE_COUNT,
    {
        match self {
            PollSource::Wayland => 0,
            PollSource::Uds => 1,
            PollSource::KeyRepeat => 2,
            PollSource::ConfigWatch => 3,
            PollSource::ConfigTimer => 4,
            PollSource::IndicatorTimer => 5,
            PollSource::VoiceTimer => 6,
            PollSource::VoiceSession => 7,
        }
    }
}

/// The readiness one `poll(2)` call reported, per source.
#[derive(Debug, Clone, Copy, PartialEq, Eq)]
pub struct ReadySet {
    pub revents: [i16; 8],
}

impl ReadySet {
    /// Whether `source` has data to read.
    pub fn readable(self, source: PollSource) -> (b: bool)
        ensures
            b == (self.revents@[source_index(source)] & POLL_IN != 0),
    {
        self.revents[source.index()] & POLL_IN != 0
    }

    /// Whether `source` reported an error or a hang-up.
    pub fn disconnected(self, source: PollSource) -> (b: bool)
        ensures
            b == (self.revents@[source_index(source)] & (POLL_ERR | POLL_HUP) != 0),
    {
        self.revents[source.index()] & (POLL_ERR | POLL_HUP) != 0
    }
}

/// The reduced timeout does not depend on the order in which deadlines are
/// offered, it never exceeds any offered (clamped) deadline, and it is never
/// negative once a deadline was offered.
pub proof fn lemma_reduce_order_independent(t: Option<i32>, a: i32, b: i32)
    ensures
        reduced(reduced(t, a), b) == reduced(reduced(t, b), a),
        poll_millis(reduced(t, a)) <= clamp_nonneg(a),
        poll_millis(reduced(t, a)) >= 0 || (t matches Some(c) && c < 0),
        t matches Some(c) ==> poll_millis(reduced(t, a)) <= c,
{
}

/// The earliest deadline after offering every value of `offers`, in order.
pub open spec fn reduced_all(start: Option<i32>, offers: Seq<i32>) -> Option<i32>
    decreases offers.len(),
{
    if offers.len() == 0 {
        start
    } else {
        reduced(reduced_all(start, offers.drop_last()), offers.last())
    }
}

/// Whether `m` is the smallest clamped value of the non-empty `offers`.
pub open spec fn is_least_clamped(m: i32, offers: Seq<i32>) -> bool {
    &&& forall|i: int| 0 <= i < offers.len() ==> m <= clamp_nonneg(#[trigger] offers[i])
    &&& exists|i: int| 0 <= i < offers.len() && m == clamp_nonneg(#[trigger] offers[i])
}

/// Starting from no deadline, offering a non-empty list of deadlines in
/// order leaves the smallest of them, counting elapsed ones as zero: never
/// negative, so the wait is no longer unbounded.
pub proof fn lemma_reduced_all_is_least(offers: Seq<i32>)
    requires
        offers.len() > 0,
    ensures
        reduced_all(None, offers) matches Some(m) && m >= 0 && is_least_clamped(m, offers),
    decreases offers.len(),
{
    let init = offers.drop_last();
    let x = offers.last();
    if init.len() == 0 {
        assert(reduced_all(None, init) is None);
        assert(offers[0] == x);
        assert(is_least_clamped(clamp_nonneg(x), offers));
    } else {
        lemma_reduced_all_is_least(init);
        let m0 = reduced_all(None, init)->0;
        let m = if m0 <= clamp_nonneg(x) { m0 } else { clamp_nonneg(x) };
        assert(reduced_all(None, offers) == Some(m));
        assert forall|i: int| 0 <= i < offers.len() implies m <= clamp_nonneg(
            #[trigger] offers[i],
        ) by {
            if i < offers.len() - 1 {
                assert(offers[i] == init[i]);
            }
        }
        if m0 <= clamp_nonneg(x) {
            let j = choose|j: int| 0 <= j < init.len() && m0 == clamp_nonneg(#[trigger] init[j]);
            assert(offers[j] == init[j]);
        } else {
            assert(offers[offers.len() - 1] == x);
        }
    }
}

/// The timeout does not depend on the order in which the deadlines were
/// offered: two offer lists holding the same values leave the same timeout.
pub proof fn lemma_reduced_all_order_independent(a: Seq<i32>, b: Seq<i32>)
    requires
        a.to_multiset() == b.to_multiset(),
    ensures
        reduced_all(None, a) == reduced_all(None, b),
{
    a.to_multiset_ensures();
    b.to_multiset_ensures();
    if a.len() == 0 {
        assert(b.len() == 0);
    } else {
        lemma_reduced_all_is_least(a);
        lemma_reduced_all_is_least(b);
        let ma = reduced_all(None, a)->0;
        let mb = reduced_all(None, b)->0;
        let i = choose|i: int| 0 <= i < a.len() && ma == clamp_nonneg(#[trigger] a[i]);
        let j = choose|j: int| 0 <= j < b.len() && mb == clamp_nonneg(#[trigger] b[j]);
        assert(a.contains(a[i]));
        assert(a.to_multiset().count(a[i]) > 0);
        assert(b.contains(a[i]));
        let i2 = choose|k: int| 0 <= k < b.len() && b[k] == a[i];
        assert(mb <= clamp_nonneg(b[i2]));
        assert(b.contains(b[j]));
        assert(b.to_multiset().count(b[j]) > 0);
        assert(a.contains(b[j]));
        let j2 = choose|k: int| 0 <= k < a.len() && a[k] == b[j];
        assert(ma <= clamp_nonneg(a[j2]));
    }
}

/// Once a deadline was offered, a later offer never raises the timeout and
/// never makes the wait unbounded again.
pub proof fn lemma_reduce_never_rises(offers: Seq<i32>, later: Seq<i32>)
    requires
        offers.len() > 0,
    ensures
        reduced_all(None, offers + later) matches Some(m) && m >= 0 && m <= reduced_all(
            None,
            offers,
        )->0,
    decreases later.len(),
{
    lemma_reduced_all_is_least(offers);
    if later.len() == 0 {
        assert(offers + later == offers);
    } else {
        lemma_reduce_never_rises(offers, later.drop_last());
        assert((offers + later).drop_last() == offers + later.drop_last());
        assert((offers + later).last() == later.last());
    }
}

/// The smallest value of the non-empty `values`.
pub open spec fn min_of(values: Seq<i32>) -> int
    decreases values.len(),
{
    if values.len() <= 1 {
        values[0] as int
    } else {
        let m = min_of(values.drop_last());
        if m <= values.last() {
            m
        } else {
            values.last() as int
        }
    }
}

/// A `PollTimeout` made with `default()` (or `new()`), after `reduce` was
/// called once with each of the non-empty `offers` in turn, hands `poll(2)`
/// (through `as_millis`) `max(0, min(offers))`, whatever the order of the
/// offers; it is never `-1` again, and a later `reduce` never raises it.
pub proof fn lemma_poll_timeout_is_clamped_min(offers: Seq<i32>, reordered: Seq<i32>, later: Seq<
    i32,
>)
    requires
        offers.len() > 0,
        reordered.to_multiset() == offers.to_multiset(),
    ensures
        poll_millis(reduced_all(None, offers)) == (if min_of(offers) < 0 {
            0
        } else {
            min_of(offers)
        }),
        poll_millis(reduced_all(None, reordered)) == poll_millis(reduced_all(None, offers)),
        poll_millis(reduced_all(None, offers)) >= 0,
        0 <= poll_millis(reduced_all(None, offers + later)) <= poll_millis(
            reduced_all(None, offers),
        ),
{
    lemma_clamped_min(offers);
    lemma_reduced_all_order_independent(reordered, offers);
    lemma_reduce_never_rises(offers, later);
}

proof fn lemma_clamped_min(offers: Seq<i32>)
    requires
        offers.len() > 0,
    ensures
        reduced_all(None, offers) is Some,
        reduced_all(None, offers)->0 == (if min_of(offers) < 0 {
            0
        } else {
            min_of(offers)
        }),
    decreases offers.len(),
{
    if offers.len() > 1 {
        lemma_clamped_min(offers.drop_last());
    } else {
        assert(offers.drop_last().len() == 0);
        assert(reduced_all(None, offers.drop_last()) is None);
        assert(offers.last() == offers[0]);
    }
}

} // verus!
