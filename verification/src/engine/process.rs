//! Request and recovery policy of the out-of-process engine backend, and the
//! translation of engine protocol records into framework values.
use vstd::prelude::*;
use vstd::arithmetic::power2::pow2;

use crate::engine::composition::{Candidate, Composition, PreeditFormat, PreeditSegment};
use crate::engine::protocol::{
    EngineHello, Request, WireAvailability, WireCandidate, WireComposition, WireEngineKind,
    WireKeyResult, WireMode, WireModeSalience, WirePreeditFormat, WirePreeditSegment,
};
use crate::engine::types::{
    EngineAvailability, EngineMode, EngineType, KeyProcessResult, KeySym, ModeSalience,
};
use crate::engine::reply::EngineError;
use crate::time::{Span, Timestamp, NANOS_PER_SEC};

verus! {

/// Budget for `init`: heavy engine initialisation (60 s).
pub const ENGINE_INIT_TIMEOUT_MS: u64 = 60_000;
/// Budget for `reload-config` (5 s).
pub const ENGINE_RELOAD_TIMEOUT_MS: u64 = 5_000;
/// Budget for engine commands, the control-plane budget (5 s).
pub const ENGINE_COMMAND_TIMEOUT_MS: u64 = 5_000;
/// Budget for `process-key`: interactive keystroke latency (50 ms).
pub const ENGINE_KEY_TIMEOUT_MS: u64 = 50;
/// Budget for `availability` (100 ms).
pub const ENGINE_REQUEST_TIMEOUT_MS: u64 = 100;
/// Budget for every other request (500 ms).
pub const ENGINE_DEFAULT_TIMEOUT_MS: u64 = 500;
/// Budget for `process-audio`: voice inference (120 s).
pub const ENGINE_VOICE_TIMEOUT_MS: u64 = 120_000;
/// Budget for the worker's hello before heavyweight initialisation (5 s).
pub const ENGINE_HANDSHAKE_TIMEOUT_MS: u64 = 5_000;

/// Largest backoff exponent: the respawn wait is capped at `2^6` seconds.
pub const RECOVERY_BACKOFF_MAX_EXP: u32 = 6;

/// The time budget, in milliseconds, of one request.
pub open spec fn request_timeout_ms(request: Request) -> u64 {
    match request {
        Request::Initialize => ENGINE_INIT_TIMEOUT_MS,
        Request::ReloadConfig => ENGINE_RELOAD_TIMEOUT_MS,
        Request::InvokeCommand(_) => ENGINE_COMMAND_TIMEOUT_MS,
        Request::ProcessKey(_) => ENGINE_KEY_TIMEOUT_MS,
        Request::Availability => ENGINE_REQUEST_TIMEOUT_MS,
        Request::ProcessAudio(_) => ENGINE_VOICE_TIMEOUT_MS,
        _ => ENGINE_DEFAULT_TIMEOUT_MS,
    }
}

/// Pick a timeout appropriate for the request's operation: a slow-operation
/// budget for `init` and `reload-config`, the control-plane budget for
/// commands, a tight budget for keystrokes and availability, a long one for
/// inference, and a generous default for everything else.
pub fn request_timeout_for(request: &Request) -> (timeout: Span)
    ensures
        timeout.nanos == request_timeout_ms(*request) * 1_000_000,
{
    let ms: u64 = match request {
        Request::Initialize => ENGINE_INIT_TIMEOUT_MS,
        Request::ReloadConfig => ENGINE_RELOAD_TIMEOUT_MS,
        Request::InvokeCommand(_) => ENGINE_COMMAND_TIMEOUT_MS,
        Request::ProcessKey(_) => ENGINE_KEY_TIMEOUT_MS,
        Request::Availability => ENGINE_REQUEST_TIMEOUT_MS,
        Request::ProcessAudio(_) => ENGINE_VOICE_TIMEOUT_MS,
        _ => ENGINE_DEFAULT_TIMEOUT_MS,
    };
    Span::from_millis(ms)
}

/// The request id after `id`: ids wrap but never become zero.
pub fn next_request_id(id: u64) -> (next: u64)
    ensures
        next == (if id == u64::MAX { 1 } else { id + 1 }),
        next != 0,
{
    let next = id.wrapping_add(1);
    if next < 1 { 1 } else { next }
}

/// How an engine error reply is classified, by its first tab-separated field.
#[derive(Debug, Clone, Copy, PartialEq, Eq, Structural)]
pub enum ReplyErrorKind {
    /// `NOT_FOUND`: the named thing does not exist.
    NotFound,
    /// `NOT_SUPPORTED`: the engine does not implement the operation.
    NotSupported,
    /// Anything else: a transport-level failure carrying the whole message.
    Transport,
}

/// The characters of `s` before its first tab (all of `s` if it has none).
pub open spec fn first_field(s: Seq<char>) -> Seq<char>
    decreases s.len(),
{
    if s.len() == 0 {
        s
    } else if s[0] == '\t' {
        Seq::empty()
    } else {
        seq![s[0]] + first_field(s.drop_first())
    }
}

/// Classify an error reply by its first tab-separated field.
pub fn classify_reply_error(error: &str) -> (kind: ReplyErrorKind)
    ensures
        first_field(error@) == "NOT_FOUND"@ ==> kind == ReplyErrorKind::NotFound,
        first_field(error@) == "NOT_SUPPORTED"@ ==> kind == ReplyErrorKind::NotSupported,
        first_field(error@) != "NOT_FOUND"@ && first_field(error@) != "NOT_SUPPORTED"@ ==> kind
            == ReplyErrorKind::Transport,
{
    let n = error.unicode_len();
    let mut end: usize = 0;
    proof {
        assert(error@.subrange(0, 0) + first_field(error@.subrange(0, n as int)) =~= first_field(
            error@,
        )) by {
            assert(error@.subrange(0, n as int) =~= error@);
        }
    }
    while end < n && error.get_char(end) != '\t'
        invariant
            n == error@.len(),
            0 <= end <= n,
            forall|j: int| 0 <= j < end ==> error@[j] != '\t',
            first_field(error@) == error@.subrange(0, end as int) + first_field(
                error@.subrange(end as int, n as int),
            ),
        decreases n - end,
    {
        proof {
            let rest = error@.subrange(end as int, n as int);
            assert(rest.drop_first() =~= error@.subrange(end + 1, n as int));
            assert(error@.subrange(0, end as int) + seq![rest[0]] =~= error@.subrange(
                0,
                end + 1,
            ));
        }
        end = end + 1;
    }
    proof {
        let rest = error@.subrange(end as int, n as int);
        assert(first_field(rest) =~= Seq::<char>::empty());
        assert(error@.subrange(0, end as int) + Seq::<char>::empty() =~= error@.subrange(
            0,
            end as int,
        ));
    }
    let field = error.substring_char(0, end);
    proof {
        reveal_strlit("NOT_FOUND");
        reveal_strlit("NOT_SUPPORTED");
        assert("NOT_FOUND"@.len() != "NOT_SUPPORTED"@.len());
    }
    if crate::text::str_eq(field, "NOT_FOUND") {
        ReplyErrorKind::NotFound
    } else if crate::text::str_eq(field, "NOT_SUPPORTED") {
        ReplyErrorKind::NotSupported
    } else {
        ReplyErrorKind::Transport
    }
}

/// Wait, in seconds, before the next respawn after `failures` consecutive
/// failed recoveries: `2^(failures-1)`, capped at `2^6`.
pub open spec fn backoff_secs(failures: nat) -> nat {
    let exp = if failures == 0 { 0nat } else { (failures - 1) as nat };
    pow2(if exp > RECOVERY_BACKOFF_MAX_EXP { RECOVERY_BACKOFF_MAX_EXP as nat } else { exp })
}

/// The respawn backoff doubles with each consecutive failure until it reaches
/// the cap (64 s), then stays there.
pub proof fn lemma_backoff_doubles_and_caps(failures: nat)
    requires
        failures >= 1,
    ensures
        backoff_secs(1) == 1,
        failures < 7 ==> backoff_secs(failures + 1) == 2 * backoff_secs(failures),
        failures >= 7 ==> backoff_secs(failures + 1) == backoff_secs(failures),
        backoff_secs(failures) <= 64,
{
    vstd::arithmetic::power2::lemma2_to64();
    if failures < 7 {
        vstd::arithmetic::power2::lemma_pow2_unfold((failures) as nat);
    }
}

/// Respawn backoff of a crashed engine worker: after N consecutive failed
/// recoveries the next attempt waits `2^(N-1)` seconds, capped; a single
/// transient crash still recovers immediately.
#[derive(Debug, Clone, Copy, PartialEq, Eq, Structural)]
pub struct RecoveryBackoff {
    /// Consecutive failed recovery attempts.
    pub failures: u32,
    /// Earliest moment another respawn may be attempted.
    pub not_before: Option<Timestamp>,
}

impl RecoveryBackoff {
    /// No failures, no wait.
    pub fn new() -> (b: RecoveryBackoff)
        ensures
            b.failures == 0,
            b.not_before is None,
    {
        RecoveryBackoff { failures: 0, not_before: None }
    }

    /// Record a failed recovery at `now`: one more failure, and the next
    /// attempt waits [`backoff_secs`] of the new failure count.
    pub fn record_failure(&mut self, now: Timestamp) -> (wait_secs: u64)
        requires
            now.nanos + 64 * NANOS_PER_SEC <= u64::MAX,
        ensures
            final(self).failures == (if old(self).failures == u32::MAX {
                u32::MAX
            } else {
                (old(self).failures + 1) as u32
            }),
            wait_secs == backoff_secs(final(self).failures as nat),
            final(self).not_before == Some(
                Timestamp { nanos: (now.nanos + wait_secs * NANOS_PER_SEC) as u64 },
            ),
    {
        self.failures = self.failures.saturating_add(1);
        let exp = if self.failures - 1 > RECOVERY_BACKOFF_MAX_EXP {
            RECOVERY_BACKOFF_MAX_EXP
        } else {
            self.failures - 1
        };
        let mut secs: u64 = 1;
        let mut i: u32 = 0;
        proof {
            vstd::arithmetic::power2::lemma2_to64();
        }
        while i < exp
            invariant
                0 <= i <= exp <= 6,
                secs == pow2(i as nat),
            decreases exp - i,
        {
            proof {
                vstd::arithmetic::power2::lemma_pow2_unfold((i + 1) as nat);
                vstd::arithmetic::power2::lemma2_to64();
            }
            secs = secs * 2;
            i = i + 1;
        }
        proof {
            vstd::arithmetic::power2::lemma2_to64();
        }
        self.not_before = Some(now.add(Span::from_secs(secs)));
        secs
    }

    /// A request reached a live worker: the engine is healthy again, so a
    /// future crash recovers instantly.
    pub fn note_success(&mut self)
        ensures
            final(self).failures == 0,
            final(self).not_before is None,
    {
        if self.failures != 0 || self.not_before.is_some() {
            self.failures = 0;
            self.not_before = None;
        }
    }

    /// Whether a respawn may be attempted at `now`.
    pub fn may_attempt(&self, now: Timestamp) -> (ok: bool)
        ensures
            ok == (self.not_before matches Some(t) ==> now.nanos >= t.nanos),
    {
        match self.not_before {
            None => true,
            Some(t) => now.nanos >= t.nanos,
        }
    }
}

/// The engine worker a backend holds.
#[derive(Debug, Clone, Copy, PartialEq, Eq, Structural)]
pub enum WorkerSlot {
    /// No worker.
    Absent,
    /// A worker that answers requests.
    Live,
    /// A worker whose transport failed; it must be replaced.
    Poisoned,
}

/// What an in-flight asynchronous respawn reported since the last look.
#[derive(Debug, Clone, Copy, PartialEq, Eq, Structural)]
pub enum RecoveryPoll {
    /// No respawn is in flight.
    Idle,
    /// The respawn is still running.
    Pending,
    /// The respawned worker is up and initialised.
    Installed,
    /// The respawn failed.
    Failed,
    /// The respawn went away without an answer.
    Abandoned,
}

/// The recovery state of an out-of-process engine backend.
#[derive(Debug, Clone, Copy, PartialEq, Eq, Structural)]
pub struct RecoveryState {
    pub worker: WorkerSlot,
    /// An asynchronous respawn is running.
    pub respawn_in_flight: bool,
    pub backoff: RecoveryBackoff,
}

/// The worker and in-flight flag after taking in a respawn report.
pub open spec fn after_poll(s: RecoveryState, poll: RecoveryPoll) -> (WorkerSlot, bool) {
    if !s.respawn_in_flight {
        (s.worker, false)
    } else {
        match poll {
            RecoveryPoll::Installed => (WorkerSlot::Live, false),
            RecoveryPoll::Failed => (s.worker, false),
            RecoveryPoll::Abandoned => (s.worker, false),
            _ => (s.worker, true),
        }
    }
}

/// Bring a backend's worker back before a request: install a respawn that
/// completed, and replace a poisoned worker by starting a respawn, unless the
/// backend has no command to run, a respawn is already running, or the
/// backoff after failed recoveries has not yet elapsed. A failed respawn
/// counts as a failed recovery. Returns whether to start a respawn now.
pub fn recovery_step(
    state: &mut RecoveryState,
    poll: RecoveryPoll,
    command_usable: bool,
    now: Timestamp,
) -> (respawn: bool)
    requires
        now.nanos + 64 * NANOS_PER_SEC <= u64::MAX,
    ensures
        ({
            let (worker, in_flight) = after_poll(*old(state), poll);
            let failed = old(state).respawn_in_flight && poll == RecoveryPoll::Failed;
            let backoff = if failed {
                final(state).backoff.failures == (if old(state).backoff.failures == u32::MAX {
                    u32::MAX
                } else {
                    (old(state).backoff.failures + 1) as u32
                }) && final(state).backoff.not_before == Some(
                    Timestamp {
                        nanos: (now.nanos + backoff_secs(final(state).backoff.failures as nat)
                            * NANOS_PER_SEC) as u64,
                    },
                )
            } else {
                final(state).backoff == old(state).backoff
            };
            let may = match final(state).backoff.not_before {
                Some(t) => now.nanos >= t.nanos,
                None => true,
            };
            &&& backoff
            &&& worker != WorkerSlot::Poisoned ==> !respawn && final(state).worker == worker
                && final(state).respawn_in_flight == in_flight
            &&& worker == WorkerSlot::Poisoned ==> final(state).worker == WorkerSlot::Absent
            &&& worker == WorkerSlot::Poisoned ==> respawn == (command_usable && !in_flight && may)
            &&& worker == WorkerSlot::Poisoned ==> final(state).respawn_in_flight == (in_flight
                || respawn)
        }),
{
    if state.respawn_in_flight {
        match poll {
            RecoveryPoll::Installed => {
                state.worker = WorkerSlot::Live;
                state.respawn_in_flight = false;
            },
            RecoveryPoll::Failed => {
                state.respawn_in_flight = false;
                state.backoff.record_failure(now);
            },
            RecoveryPoll::Abandoned => {
                state.respawn_in_flight = false;
            },
            _ => {},
        }
    }
    if state.worker != WorkerSlot::Poisoned {
        return false;
    }
    state.worker = WorkerSlot::Absent;
    if !command_usable {
        return false;
    }
    if state.respawn_in_flight {
        return false;
    }
    if !state.backoff.may_attempt(now) {
        return false;
    }
    state.respawn_in_flight = true;
    true
}

/// Whether a worker command line can be run: it names a program.
pub fn worker_command_usable(argv: &[String]) -> (ok: bool)
    ensures
        ok == (argv@.len() > 0 && argv@[0]@.len() > 0),
{
    argv.len() > 0 && argv[0].unicode_len() > 0
}

/// The framework key result for a wire key result.
pub fn key_result_from_wire(result: WireKeyResult) -> (r: KeyProcessResult)
    ensures
        result == WireKeyResult::NotHandled ==> r == KeyProcessResult::NotHandled,
        result == WireKeyResult::Handled ==> r == KeyProcessResult::Handled,
        result == WireKeyResult::PassThrough ==> r == KeyProcessResult::PassThrough,
{
    match result {
        WireKeyResult::NotHandled => KeyProcessResult::NotHandled,
        WireKeyResult::Handled => KeyProcessResult::Handled,
        WireKeyResult::PassThrough => KeyProcessResult::PassThrough,
    }
}

/// The framework availability for a wire availability.
pub fn availability_from_wire(state: WireAvailability) -> (a: EngineAvailability)
    ensures
        state == WireAvailability::Uninitialized ==> a == EngineAvailability::Uninitialized,
        state == WireAvailability::Preparing ==> a == EngineAvailability::Preparing,
        state == WireAvailability::Ready ==> a == EngineAvailability::Ready,
        state == WireAvailability::Failed ==> a == EngineAvailability::Failed,
{
    match state {
        WireAvailability::Uninitialized => EngineAvailability::Uninitialized,
        WireAvailability::Preparing => EngineAvailability::Preparing,
        WireAvailability::Ready => EngineAvailability::Ready,
        WireAvailability::Failed => EngineAvailability::Failed,
    }
}

/// The wire kind that an engine of `engine_type` must announce.
pub open spec fn wire_kind_spec(engine_type: EngineType) -> WireEngineKind {
    match engine_type {
        EngineType::Keyboard => WireEngineKind::Keyboard,
        EngineType::Voice => WireEngineKind::Voice,
    }
}

/// The wire kind that an engine of `engine_type` must announce.
pub fn wire_engine_kind(engine_type: EngineType) -> (k: WireEngineKind)
    ensures
        k == wire_kind_spec(engine_type),
{
    match engine_type {
        EngineType::Keyboard => WireEngineKind::Keyboard,
        EngineType::Voice => WireEngineKind::Voice,
    }
}

/// The framework salience for a wire salience.
pub open spec fn salience_spec(s: WireModeSalience) -> ModeSalience {
    match s {
        WireModeSalience::Quiet => ModeSalience::Quiet,
        WireModeSalience::Notable => ModeSalience::Notable,
    }
}

/// The framework mode for a wire mode: every field carried over unchanged,
/// the salience translated.
pub fn mode_from_wire(mode: WireMode) -> (m: EngineMode)
    ensures
        m.id == mode.id,
        m.label == mode.label,
        m.display_label == mode.display_label,
        m.icon == mode.icon,
        m.profile_id == mode.profile_id,
        m.profile_label == mode.profile_label,
        m.description == mode.description,
        m.is_active == mode.is_active,
        m.salience == salience_spec(mode.salience),
{
    EngineMode {
        id: mode.id,
        label: mode.label,
        display_label: mode.display_label,
        icon: mode.icon,
        profile_id: mode.profile_id,
        profile_label: mode.profile_label,
        description: mode.description,
        is_active: mode.is_active,
        salience: match mode.salience {
            WireModeSalience::Quiet => ModeSalience::Quiet,
            WireModeSalience::Notable => ModeSalience::Notable,
        },
    }
}

/// The framework decoration for a wire decoration.
pub open spec fn format_spec(f: WirePreeditFormat) -> PreeditFormat {
    match f {
        WirePreeditFormat::Plain => PreeditFormat::Plain,
        WirePreeditFormat::Underline => PreeditFormat::Underline,
        WirePreeditFormat::Highlight => PreeditFormat::Highlight,
    }
}

fn clone_opt_string(o: &Option<String>) -> (c: Option<String>)
    ensures
        c == *o,
{
    match o {
        None => None,
        Some(s) => Some(s.clone()),
    }
}

/// The framework composition for a wire composition: segments and candidates
/// carried over in order with their decorations translated, every scalar
/// field unchanged.
pub fn composition_from_wire(wire: &WireComposition) -> (c: Composition)
    ensures
        c.segments@.len() == wire.segments@.len(),
        forall|i: int|
            0 <= i < c.segments@.len() ==> c.segments@[i].text == wire.segments@[i].text
                && c.segments@[i].format == format_spec(#[trigger] wire.segments@[i].format),
        c.candidates@.len() == wire.candidates@.len(),
        forall|i: int|
            #![trigger c.candidates@[i]]
            0 <= i < c.candidates@.len() ==> c.candidates@[i].text
                == wire.candidates@[i].text && c.candidates@[i].comment
                == wire.candidates@[i].comment && c.candidates@[i].label
                == wire.candidates@[i].label,
        c.cursor_pos == wire.cursor_pos,
        c.page == wire.page,
        c.page_size == wire.page_size,
        c.total == wire.total,
        c.selected == wire.selected,
        c.has_prev == wire.has_prev,
        c.has_next == wire.has_next,
        c.host_managed_selection == wire.host_managed_selection,
{
    let mut segments: Vec<PreeditSegment> = Vec::new();
    let ns = wire.segments.len();
    for i in 0..ns
        invariant
            ns == wire.segments@.len(),
            segments@.len() == i,
            forall|j: int|
                0 <= j < i ==> segments@[j].text == wire.segments@[j].text
                    && segments@[j].format == format_spec(#[trigger] wire.segments@[j].format),
    {
        let segment: &WirePreeditSegment = &wire.segments[i];
        let format = match segment.format {
            WirePreeditFormat::Plain => PreeditFormat::Plain,
            WirePreeditFormat::Underline => PreeditFormat::Underline,
            WirePreeditFormat::Highlight => PreeditFormat::Highlight,
        };
        segments.push(PreeditSegment { text: segment.text.clone(), format });
    }
    let mut candidates: Vec<Candidate> = Vec::new();
    let nc = wire.candidates.len();
    for i in 0..nc
        invariant
            nc == wire.candidates@.len(),
            candidates@.len() == i,
            forall|j: int|
                #![trigger candidates@[j]]
                0 <= j < i ==> candidates@[j].text == wire.candidates@[j].text
                    && candidates@[j].comment == wire.candidates@[j].comment
                    && candidates@[j].label == wire.candidates@[j].label,
    {
        let candidate: &WireCandidate = &wire.candidates[i];
        candidates.push(
            Candidate {
                text: candidate.text.clone(),
                comment: clone_opt_string(&candidate.comment),
                label: clone_opt_string(&candidate.label),
            },
        );
    }
    Composition {
        segments,
        cursor_pos: wire.cursor_pos,
        candidates,
        page: wire.page,
        page_size: wire.page_size,
        total: wire.total,
        selected: wire.selected,
        has_prev: wire.has_prev,
        has_next: wire.has_next,
        host_managed_selection: wire.host_managed_selection,
    }
}

/// Why an engine's hello does not match its manifest.
#[derive(Debug, Clone, Copy, PartialEq, Eq, Structural)]
pub enum HelloMismatch {
    /// The hello names a different engine than the manifest.
    Engine,
    /// The hello announces a different engine kind than the manifest.
    Kind,
}

/// Check an engine's hello against its manifest: same name, then same kind.
pub fn validate_engine_hello(name: &str, engine_type: EngineType, hello: &EngineHello) -> (r:
    Result<(), HelloMismatch>)
    ensures
        hello.engine@ != name@ ==> r == Err::<(), HelloMismatch>(HelloMismatch::Engine),
        hello.engine@ == name@ && hello.kind != wire_kind_spec(engine_type) ==> r == Err::<
            (),
            HelloMismatch,
        >(HelloMismatch::Kind),
        hello.engine@ == name@ && hello.kind == wire_kind_spec(engine_type) ==> r is Ok,
{
    if !crate::text::str_eq(hello.engine.as_str(), name) {
        return Err(HelloMismatch::Engine);
    }
    let expected_kind = wire_engine_kind(engine_type);
    if hello.kind != expected_kind {
        return Err(HelloMismatch::Kind);
    }
    Ok(())
}

/// How an engine kind is spelled on the wire and in manifests.
pub open spec fn wire_kind_name(k: WireEngineKind) -> Seq<char> {
    match k {
        WireEngineKind::Keyboard => "keyboard"@,
        WireEngineKind::Voice => "voice"@,
    }
}

/// The wire spelling of an engine kind.
pub fn wire_kind_str(k: WireEngineKind) -> (s: &'static str)
    ensures
        s@ == wire_kind_name(k),
{
    match k {
        WireEngineKind::Keyboard => "keyboard",
        WireEngineKind::Voice => "voice",
    }
}

/// The transport error an engine's hello raises when it does not match the
/// manifest: the engine name checked first, then the kind, each message
/// naming the manifest's value and the engine's.
pub fn check_engine_hello(name: &str, engine_type: EngineType, hello: &EngineHello) -> (r: Result<
    (),
    EngineError,
>)
    ensures
        hello.engine@ != name@ ==> (r matches Err(EngineError::Transport(msg)) && msg@
            == "engine-protocol engine mismatch: manifest '"@ + name@ + "' engine '"@
            + hello.engine@ + "'"@),
        hello.engine@ == name@ && hello.kind != wire_kind_spec(engine_type) ==> (r matches Err(
            EngineError::Transport(msg),
        ) && msg@ == "engine-protocol type mismatch: manifest '"@ + wire_kind_name(
            wire_kind_spec(engine_type),
        ) + "' engine '"@ + wire_kind_name(hello.kind) + "'"@),
        hello.engine@ == name@ && hello.kind == wire_kind_spec(engine_type) ==> r is Ok,
{
    match validate_engine_hello(name, engine_type, hello) {
        Ok(()) => Ok(()),
        Err(HelloMismatch::Engine) => Err(
            EngineError::Transport(
                String::from_str("engine-protocol engine mismatch: manifest '").concat(name).concat(
                    "' engine '",
                ).concat(hello.engine.as_str()).concat("'"),
            ),
        ),
        Err(HelloMismatch::Kind) => Err(
            EngineError::Transport(
                String::from_str("engine-protocol type mismatch: manifest '").concat(
                    wire_kind_str(wire_engine_kind(engine_type)),
                ).concat("' engine '").concat(wire_kind_str(hello.kind)).concat("'"),
            ),
        ),
    }
}

/// The X keysym value of a framework key symbol.
pub open spec fn keysym_spec(sym: KeySym) -> u32 {
    match sym {
        KeySym::Ascii(c) => c as u32,
        KeySym::ShiftL => 0xffe1,
        KeySym::ShiftR => 0xffe2,
        KeySym::ControlL => 0xffe3,
        KeySym::ControlR => 0xffe4,
        KeySym::AltL => 0xffe9,
        KeySym::AltR => 0xffea,
        KeySym::MetaL => 0xffeb,
        KeySym::MetaR => 0xffec,
        KeySym::BackSpace => 0xff08,
        KeySym::Tab => 0xff09,
        KeySym::Return => 0xff0d,
        KeySym::Escape => 0xff1b,
        KeySym::Left => 0xff51,
        KeySym::Up => 0xff52,
        KeySym::Right => 0xff53,
        KeySym::Down => 0xff54,
        KeySym::Home => 0xff50,
        KeySym::End => 0xff57,
        KeySym::PageUp => 0xff55,
        KeySym::PageDown => 0xff56,
        KeySym::F(n) => (0xffbd + n) as u32,
        KeySym::Raw(v) => v,
    }
}

/// Each named key travels to the engine as its X11 keysym value: the
/// editing and navigation keys (BackSpace 0xff08, Tab 0xff09, Return 0xff0d,
/// Escape 0xff1b, Home 0xff50, Left 0xff51, Up 0xff52, Right 0xff53, Down
/// 0xff54, Prior 0xff55, Next 0xff56, End 0xff57), the modifiers (Shift
/// 0xffe1/0xffe2, Control 0xffe3/0xffe4, Alt 0xffe9/0xffea, Meta
/// 0xffeb/0xffec), function key `F<n>` as 0xffbd + n, and a character as its
/// code point.
pub proof fn lemma_named_keys_use_x11_keysyms(c: char, n: u8, raw: u32)
    ensures
        keysym_spec(KeySym::BackSpace) == 0xff08,
        keysym_spec(KeySym::Tab) == 0xff09,
        keysym_spec(KeySym::Return) == 0xff0d,
        keysym_spec(KeySym::Escape) == 0xff1b,
        keysym_spec(KeySym::Home) == 0xff50,
        keysym_spec(KeySym::Left) == 0xff51,
        keysym_spec(KeySym::Up) == 0xff52,
        keysym_spec(KeySym::Right) == 0xff53,
        keysym_spec(KeySym::Down) == 0xff54,
        keysym_spec(KeySym::PageUp) == 0xff55,
        keysym_spec(KeySym::PageDown) == 0xff56,
        keysym_spec(KeySym::End) == 0xff57,
        keysym_spec(KeySym::ShiftL) == 0xffe1,
        keysym_spec(KeySym::ShiftR) == 0xffe2,
        keysym_spec(KeySym::ControlL) == 0xffe3,
        keysym_spec(KeySym::ControlR) == 0xffe4,
        keysym_spec(KeySym::AltL) == 0xffe9,
        keysym_spec(KeySym::AltR) == 0xffea,
        keysym_spec(KeySym::MetaL) == 0xffeb,
        keysym_spec(KeySym::MetaR) == 0xffec,
        keysym_spec(KeySym::F(n)) == 0xffbd + n,
        keysym_spec(KeySym::Ascii(c)) == c as u32,
        keysym_spec(KeySym::Raw(raw)) == raw,
{
}

/// The X keysym value sent on the wire for a framework key symbol.
pub fn keysym_to_u32(sym: KeySym) -> (v: u32)
    ensures
        v == keysym_spec(sym),
{
    match sym {
        KeySym::Ascii(c) => c as u32,
        KeySym::ShiftL => 0xffe1,
        KeySym::ShiftR => 0xffe2,
        KeySym::ControlL => 0xffe3,
        KeySym::ControlR => 0xffe4,
        KeySym::AltL => 0xffe9,
        KeySym::AltR => 0xffea,
        KeySym::MetaL => 0xffeb,
        KeySym::MetaR => 0xffec,
        KeySym::BackSpace => 0xff08,
        KeySym::Tab => 0xff09,
        KeySym::Return => 0xff0d,
        KeySym::Escape => 0xff1b,
        KeySym::Left => 0xff51,
        KeySym::Up => 0xff52,
        KeySym::Right => 0xff53,
        KeySym::Down => 0xff54,
        KeySym::Home => 0xff50,
        KeySym::End => 0xff57,
        KeySym::PageUp => 0xff55,
        KeySym::PageDown => 0xff56,
        KeySym::F(n) => 0xffbd + n as u32,
        KeySym::Raw(v) => v,
    }
}

} // verus!
