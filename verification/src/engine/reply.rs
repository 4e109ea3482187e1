//! Reading an engine worker's answer to one request: whether the answering
//! frame is acceptable, what its records say, and which error it reports.
use vstd::prelude::*;

use crate::engine::composition::{Composition, ContextOutput};
use crate::engine::process::{
    availability_from_wire, classify_reply_error, composition_from_wire, first_field,
    format_spec, key_result_from_wire, mode_from_wire, salience_spec, ReplyErrorKind,
};
use crate::engine::protocol::{
    MessageType, ReplyRecord, WireAvailability, WireCommand, WireComposition, WireKeyResult,
    WireMode,
};
use crate::engine::types::{Command, EngineAvailability, EngineMode, KeyProcessResult};

verus! {

/// The verdict on the frame that answers a request.
#[derive(Debug, Clone, Copy, PartialEq, Eq, Structural)]
pub enum FrameCheck {
    /// A response to this request: decode its records.
    Accept,
    /// The worker reports an error for this request; its payload is the
    /// message. The worker stays usable.
    RemoteError,
    /// The frame answers another request: the stream is out of step and the
    /// worker must be poisoned.
    IdMismatch,
    /// Neither a response nor an error: the worker must be poisoned.
    UnexpectedType,
}

/// Judge the frame answering request `expected_id`.
pub fn check_response_frame(expected_id: u64, frame_id: u64, message_type: MessageType) -> (c:
    FrameCheck)
    ensures
        frame_id != expected_id ==> c == FrameCheck::IdMismatch,
        frame_id == expected_id && message_type == MessageType::Error ==> c
            == FrameCheck::RemoteError,
        frame_id == expected_id && message_type == MessageType::Response ==> c
            == FrameCheck::Accept,
        frame_id == expected_id && message_type == MessageType::Request ==> c
            == FrameCheck::UnexpectedType,
{
    if frame_id != expected_id {
        FrameCheck::IdMismatch
    } else {
        match message_type {
            MessageType::Error => FrameCheck::RemoteError,
            MessageType::Response => FrameCheck::Accept,
            MessageType::Request => FrameCheck::UnexpectedType,
        }
    }
}

/// Whether a frame verdict poisons the worker.
pub fn frame_check_poisons(c: FrameCheck) -> (p: bool)
    ensures
        p == (c == FrameCheck::IdMismatch || c == FrameCheck::UnexpectedType),
{
    match c {
        FrameCheck::IdMismatch | FrameCheck::UnexpectedType => true,
        _ => false,
    }
}

/// Everything a reply told the host, apart from context output.
#[derive(Debug, Clone, PartialEq, Eq)]
pub struct WorkerReply {
    pub error: Option<String>,
    pub key_result: Option<KeyProcessResult>,
    pub availability: Option<EngineAvailability>,
    pub text: Option<String>,
    /// Modes, in the order the engine listed them.
    pub modes: Vec<EngineMode>,
    /// Commands, in the order the engine listed them.
    pub commands: Vec<Command>,
    pub active_mode: Option<EngineMode>,
}

/// The meaning of a reply: for each single-valued record kind the last one
/// received, and the listed modes and commands in order.
pub struct ReplySummary {
    pub error: Option<String>,
    pub key_result: Option<KeyProcessResult>,
    pub availability: Option<EngineAvailability>,
    pub text: Option<String>,
    pub modes: Seq<EngineMode>,
    pub commands: Seq<Command>,
    pub active_mode: Option<EngineMode>,
}

/// The framework key result for a wire key result.
pub open spec fn key_result_spec(r: WireKeyResult) -> KeyProcessResult {
    match r {
        WireKeyResult::NotHandled => KeyProcessResult::NotHandled,
        WireKeyResult::Handled => KeyProcessResult::Handled,
        WireKeyResult::PassThrough => KeyProcessResult::PassThrough,
    }
}

/// The framework availability for a wire availability.
pub open spec fn availability_spec(a: WireAvailability) -> EngineAvailability {
    match a {
        WireAvailability::Uninitialized => EngineAvailability::Uninitialized,
        WireAvailability::Preparing => EngineAvailability::Preparing,
        WireAvailability::Ready => EngineAvailability::Ready,
        WireAvailability::Failed => EngineAvailability::Failed,
    }
}

/// The framework mode for a wire mode.
pub open spec fn mode_spec(m: WireMode) -> EngineMode {
    EngineMode {
        id: m.id,
        label: m.label,
        display_label: m.display_label,
        icon: m.icon,
        profile_id: m.profile_id,
        profile_label: m.profile_label,
        description: m.description,
        is_active: m.is_active,
        salience: salience_spec(m.salience),
    }
}

/// The framework command for a wire command.
pub open spec fn command_spec(c: WireCommand) -> Command {
    Command { id: c.id, label: c.label }
}

/// An empty reply.
pub open spec fn empty_summary() -> ReplySummary {
    ReplySummary {
        error: None,
        key_result: None,
        availability: None,
        text: None,
        modes: Seq::empty(),
        commands: Seq::empty(),
        active_mode: None,
    }
}

/// `s` after taking in one more record.
pub open spec fn summary_step(s: ReplySummary, r: ReplyRecord) -> ReplySummary {
    match r {
        ReplyRecord::Error(e) => ReplySummary {
            error: Some(e),
            key_result: s.key_result,
            availability: s.availability,
            text: s.text,
            modes: s.modes,
            commands: s.commands,
            active_mode: s.active_mode,
        },
        ReplyRecord::KeyResult(k) => ReplySummary {
            error: s.error,
            key_result: Some(key_result_spec(k)),
            availability: s.availability,
            text: s.text,
            modes: s.modes,
            commands: s.commands,
            active_mode: s.active_mode,
        },
        ReplyRecord::Availability(a) => ReplySummary {
            error: s.error,
            key_result: s.key_result,
            availability: Some(availability_spec(a)),
            text: s.text,
            modes: s.modes,
            commands: s.commands,
            active_mode: s.active_mode,
        },
        ReplyRecord::Text(t) => ReplySummary {
            error: s.error,
            key_result: s.key_result,
            availability: s.availability,
            text: Some(t),
            modes: s.modes,
            commands: s.commands,
            active_mode: s.active_mode,
        },
        ReplyRecord::Mode(m) => ReplySummary {
            error: s.error,
            key_result: s.key_result,
            availability: s.availability,
            text: s.text,
            modes: s.modes.push(mode_spec(m)),
            commands: s.commands,
            active_mode: s.active_mode,
        },
        ReplyRecord::Command(c) => ReplySummary {
            error: s.error,
            key_result: s.key_result,
            availability: s.availability,
            text: s.text,
            modes: s.modes,
            commands: s.commands.push(command_spec(c)),
            active_mode: s.active_mode,
        },
        ReplyRecord::ActiveMode(m) => ReplySummary {
            error: s.error,
            key_result: s.key_result,
            availability: s.availability,
            text: s.text,
            modes: s.modes,
            commands: s.commands,
            active_mode: Some(mode_spec(m)),
        },
        _ => s,
    }
}

/// The meaning of a sequence of reply records.
pub open spec fn summarize(records: Seq<ReplyRecord>) -> ReplySummary
    decreases records.len(),
{
    if records.len() == 0 {
        empty_summary()
    } else {
        summary_step(summarize(records.drop_last()), records.last())
    }
}

/// The meaning of a collected reply.
pub open spec fn reply_summary(r: WorkerReply) -> ReplySummary {
    ReplySummary {
        error: r.error,
        key_result: r.key_result,
        availability: r.availability,
        text: r.text,
        modes: r.modes@,
        commands: r.commands@,
        active_mode: r.active_mode,
    }
}

/// Whether a record is output for the input context.
pub open spec fn is_output_record(r: ReplyRecord) -> bool {
    r is Composition || r is Commit || r is Clear
}

/// The records of `records` that are output for the input context, in order.
pub open spec fn output_records(records: Seq<ReplyRecord>) -> Seq<ReplyRecord> {
    records.filter(|r: ReplyRecord| is_output_record(r))
}

/// The composition `c` carries over the wire composition `w`: segments and
/// candidates in order with decorations translated, scalars unchanged.
pub open spec fn composition_matches(c: Composition, w: WireComposition) -> bool {
    &&& c.segments@.len() == w.segments@.len()
    &&& forall|i: int|
        0 <= i < c.segments@.len() ==> c.segments@[i].text == w.segments@[i].text
            && c.segments@[i].format == format_spec(#[trigger] w.segments@[i].format)
    &&& c.candidates@.len() == w.candidates@.len()
    &&& forall|i: int|
        #![trigger c.candidates@[i]]
        0 <= i < c.candidates@.len() ==> c.candidates@[i].text == w.candidates@[i].text
            && c.candidates@[i].comment == w.candidates@[i].comment && c.candidates@[i].label
            == w.candidates@[i].label
    &&& c.cursor_pos == w.cursor_pos
    &&& c.page == w.page
    &&& c.page_size == w.page_size
    &&& c.total == w.total
    &&& c.selected == w.selected
    &&& c.has_prev == w.has_prev
    &&& c.has_next == w.has_next
    &&& c.host_managed_selection == w.host_managed_selection
}

/// Whether the context output `o` is what the record `r` asks for.
pub open spec fn output_matches(o: ContextOutput, r: ReplyRecord) -> bool {
    match (o, r) {
        (ContextOutput::Composition(c), ReplyRecord::Composition(w)) => composition_matches(c, w),
        (ContextOutput::Commit(a), ReplyRecord::Commit(b)) => a == b,
        (ContextOutput::Clear, ReplyRecord::Clear) => true,
        _ => false,
    }
}

/// Take in the records of a reply, in order. Context output (compositions,
/// commits, clears) is passed on in order when there is an input context and
/// dropped otherwise; everything else is summarised in the reply.
pub fn collect_reply(records: Vec<ReplyRecord>, has_context: bool) -> (r: (
    WorkerReply,
    Vec<ContextOutput>,
))
    ensures
        reply_summary(r.0) == summarize(records@),
        has_context ==> r.1@.len() == output_records(records@).len(),
        has_context ==> forall|k: int|
            0 <= k < r.1@.len() ==> output_matches(#[trigger] r.1@[k], output_records(records@)[k]),
        !has_context ==> r.1@.len() == 0,
{
    let ghost all = records@;
    let mut reply = WorkerReply {
        error: None,
        key_result: None,
        availability: None,
        text: None,
        modes: Vec::new(),
        commands: Vec::new(),
        active_mode: None,
    };
    let mut outputs: Vec<ContextOutput> = Vec::new();
    proof {
        assert(all.subrange(0, 0) =~= Seq::<ReplyRecord>::empty());
        assert(reply_summary(reply) == empty_summary()) by {
            assert(reply.modes@ =~= Seq::<EngineMode>::empty());
            assert(reply.commands@ =~= Seq::<Command>::empty());
        }
        assert(output_records(Seq::<ReplyRecord>::empty()) =~= Seq::<ReplyRecord>::empty());
    }
    for record in it: records
        invariant
            it.seq() == all,
            reply_summary(reply) == summarize(all.subrange(0, it.index() as int)),
            has_context ==> outputs@.len() == output_records(
                all.subrange(0, it.index() as int),
            ).len(),
            has_context ==> forall|k: int|
                0 <= k < outputs@.len() ==> output_matches(
                    #[trigger] outputs@[k],
                    output_records(all.subrange(0, it.index() as int))[k],
                ),
            !has_context ==> outputs@.len() == 0,
    {
        let ghost i = it.index() as int;
        let ghost prefix = all.subrange(0, i);
        let ghost next = all.subrange(0, i + 1);
        let ghost before = reply_summary(reply);
        let ghost outs_before = outputs@;
        proof {
            assert(next.drop_last() =~= prefix);
            assert(next.last() == record);
            assert(summarize(next) == summary_step(summarize(prefix), record));
            reveal(Seq::filter);
            assert(output_records(next) == output_records(prefix) + (if is_output_record(record) {
                seq![record]
            } else {
                Seq::<ReplyRecord>::empty()
            })) by {
                assert(next.filter(|r: ReplyRecord| is_output_record(r)) == next.drop_last().filter(
                    |r: ReplyRecord| is_output_record(r),
                ) + (if is_output_record(next.last()) {
                    seq![next.last()]
                } else {
                    Seq::<ReplyRecord>::empty()
                }));
            }
        }
        match record {
            ReplyRecord::Success => {},
            ReplyRecord::Error(e) => {
                reply.error = Some(e);
            },
            ReplyRecord::KeyResult(k) => {
                reply.key_result = Some(key_result_from_wire(k));
            },
            ReplyRecord::Availability(a) => {
                reply.availability = Some(availability_from_wire(a));
            },
            ReplyRecord::Text(t) => {
                reply.text = Some(t);
            },
            ReplyRecord::Mode(m) => {
                let ghost ms = reply.modes@;
                reply.modes.push(mode_from_wire(m));
                proof {
                    assert(reply.modes@ =~= ms.push(mode_spec(m)));
                }
            },
            ReplyRecord::Command(c) => {
                let ghost cs = reply.commands@;
                reply.commands.push(Command { id: c.id, label: c.label });
                proof {
                    assert(reply.commands@ =~= cs.push(command_spec(c)));
                }
            },
            ReplyRecord::ActiveMode(m) => {
                reply.active_mode = Some(mode_from_wire(m));
            },
            ReplyRecord::Composition(w) => {
                if has_context {
                    let c = composition_from_wire(&w);
                    outputs.push(ContextOutput::Composition(c));
                }
            },
            ReplyRecord::Commit(t) => {
                if has_context {
                    outputs.push(ContextOutput::Commit(t));
                }
            },
            ReplyRecord::Clear => {
                if has_context {
                    outputs.push(ContextOutput::Clear);
                }
            },
        }
        proof {
            if has_context {
                if is_output_record(record) {
                    assert(outputs@ =~= outs_before.push(outputs@.last()));
                    assert forall|k: int| 0 <= k < outputs@.len() implies output_matches(
                        #[trigger] outputs@[k],
                        output_records(next)[k],
                    ) by {
                        if k < outs_before.len() {
                            assert(outputs@[k] == outs_before[k]);
                            assert(output_records(next)[k] == output_records(prefix)[k]);
                        } else {
                            assert(output_records(next)[k] == record);
                        }
                    }
                } else {
                    assert(output_records(next) =~= output_records(prefix));
                }
            }
        }
    }
    proof {
        assert(all.subrange(0, all.len() as int) =~= all);
    }
    (reply, outputs)
}

/// Why an engine request failed, as the framework reports it.
#[derive(Debug, Clone, PartialEq, Eq)]
pub enum EngineError {
    NotFound,
    NotSupported,
    /// A transport-level failure, with its message.
    Transport(String),
}

/// The outcome of a collected reply: an error record turns into the error it
/// names by its first tab-separated field (`NOT_FOUND`, `NOT_SUPPORTED`,
/// anything else a transport error carrying the whole text); otherwise the
/// reply itself.
pub fn finish_reply(reply: WorkerReply) -> (r: Result<WorkerReply, EngineError>)
    ensures
        match reply.error {
            None => r matches Ok(x) && reply_summary(x) == reply_summary(reply),
            Some(e) => {
                &&& first_field(e@) == "NOT_FOUND"@ ==> r == Err::<WorkerReply, EngineError>(
                    EngineError::NotFound,
                )
                &&& first_field(e@) == "NOT_SUPPORTED"@ ==> r == Err::<WorkerReply, EngineError>(
                    EngineError::NotSupported,
                )
                &&& first_field(e@) != "NOT_FOUND"@ && first_field(e@) != "NOT_SUPPORTED"@ ==> r
                    == Err::<WorkerReply, EngineError>(EngineError::Transport(e))
            },
        },
{
    match reply.error {
        None => Ok(reply),
        Some(e) => match classify_reply_error(e.as_str()) {
            ReplyErrorKind::NotFound => Err(EngineError::NotFound),
            ReplyErrorKind::NotSupported => Err(EngineError::NotSupported),
            ReplyErrorKind::Transport => Err(EngineError::Transport(e)),
        },
    }
}

} // verus!
