use typio_host::engine::composition::{ContextOutput, PreeditFormat};
use typio_host::engine::process::{
    check_engine_hello,
    classify_reply_error, composition_from_wire, keysym_to_u32, next_request_id,
    recovery_step, request_timeout_for, validate_engine_hello, worker_command_usable,
    HelloMismatch, RecoveryBackoff, RecoveryPoll, RecoveryState, ReplyErrorKind, WorkerSlot,
    ENGINE_COMMAND_TIMEOUT_MS, ENGINE_DEFAULT_TIMEOUT_MS, ENGINE_INIT_TIMEOUT_MS,
    ENGINE_KEY_TIMEOUT_MS, ENGINE_RELOAD_TIMEOUT_MS, ENGINE_REQUEST_TIMEOUT_MS,
    ENGINE_VOICE_TIMEOUT_MS,
};
use typio_host::engine::protocol::{
    EngineHello, MessageType, ReplyRecord, Request, WireCandidate, WireCommand, WireComposition,
    WireEngineKind, WireKeyEvent, WireKeyResult, WireKeyState, WireMode, WireModeSalience,
    WirePreeditFormat, WirePreeditSegment, WireAvailability,
};
use typio_host::engine::reply::{
    check_response_frame, collect_reply, finish_reply, frame_check_poisons, EngineError,
    FrameCheck,
};
use typio_host::engine::types::{EngineAvailability, EngineType, KeyProcessResult, KeySym, ModeSalience};
use typio_host::time::{Span, Timestamp};

#[test]
fn request_timeouts_match_operation_cost() {
    let key = Request::ProcessKey(WireKeyEvent {
        context_id: 1,
        state: WireKeyState::Press,
        keycode: 0,
        keysym: 0,
        modifiers: 0,
        unicode: 0,
        time: 0,
        is_repeat: false,
        base_keysym: 0,
    });
    assert_eq!(request_timeout_for(&key), Span::from_millis(ENGINE_KEY_TIMEOUT_MS));
    assert_eq!(
        request_timeout_for(&Request::Availability),
        Span::from_millis(ENGINE_REQUEST_TIMEOUT_MS)
    );
    assert_eq!(
        request_timeout_for(&Request::Initialize),
        Span::from_millis(ENGINE_INIT_TIMEOUT_MS)
    );
    assert_eq!(
        request_timeout_for(&Request::ReloadConfig),
        Span::from_millis(ENGINE_RELOAD_TIMEOUT_MS)
    );
    assert_eq!(
        request_timeout_for(&Request::InvokeCommand("diagnose".into())),
        Span::from_millis(ENGINE_COMMAND_TIMEOUT_MS)
    );
    assert_eq!(
        request_timeout_for(&Request::ProcessAudio(vec![0])),
        Span::from_millis(ENGINE_VOICE_TIMEOUT_MS)
    );
    assert_eq!(
        request_timeout_for(&Request::FocusIn(1)),
        Span::from_millis(ENGINE_DEFAULT_TIMEOUT_MS)
    );
}

#[test]
fn recovery_backoff_doubles_and_caps() {
    let mut backoff = RecoveryBackoff::new();
    assert!(backoff.not_before.is_none());
    let now = Timestamp::from_nanos(1_000_000_000_000);

    let mut expected = vec![1u64, 2, 4, 8, 16, 32, 64, 64, 64];
    for want in expected.drain(..) {
        let secs = backoff.record_failure(now);
        let not_before = backoff.not_before.expect("backoff deadline set after failure");
        let remaining = not_before.saturating_duration_since(now).nanos / 1_000_000_000;
        assert!(
            remaining + 1 >= want && remaining <= want + 1,
            "expected ~{want}s backoff, got {remaining}s (failures = {})",
            backoff.failures
        );
        assert_eq!(secs, want);
    }

    backoff.note_success();
    assert_eq!(backoff.failures, 0);
    assert!(backoff.not_before.is_none());
}

#[test]
fn backoff_gate_opens_when_the_wait_elapsed() {
    let mut backoff = RecoveryBackoff::new();
    let t0 = Timestamp::from_nanos(5_000_000_000);
    assert!(backoff.may_attempt(t0));
    backoff.record_failure(t0);
    backoff.record_failure(t0);
    assert!(!backoff.may_attempt(t0.add(Span::from_millis(1_999))));
    assert!(backoff.may_attempt(t0.add(Span::from_secs(2))));
}

#[test]
fn request_ids_wrap_past_zero() {
    assert_eq!(next_request_id(1), 2);
    assert_eq!(next_request_id(u64::MAX), 1);
}

#[test]
fn reply_errors_classify_by_first_field() {
    assert_eq!(classify_reply_error("NOT_FOUND\tno such command"), ReplyErrorKind::NotFound);
    assert_eq!(classify_reply_error("NOT_SUPPORTED"), ReplyErrorKind::NotSupported);
    assert_eq!(classify_reply_error("NOT_FOUNDX\tx"), ReplyErrorKind::Transport);
    assert_eq!(classify_reply_error(""), ReplyErrorKind::Transport);
}

#[test]
fn engine_hello_must_match_manifest_name_and_kind() {
    let hello = EngineHello { engine: "demo".into(), kind: WireEngineKind::Keyboard };
    assert_eq!(validate_engine_hello("demo", EngineType::Keyboard, &hello), Ok(()));
    assert_eq!(
        validate_engine_hello("other", EngineType::Keyboard, &hello),
        Err(HelloMismatch::Engine)
    );
    assert_eq!(
        validate_engine_hello("demo", EngineType::Voice, &hello),
        Err(HelloMismatch::Kind)
    );
}

#[test]
fn keysyms_follow_x11_values() {
    assert_eq!(keysym_to_u32(KeySym::Ascii('a')), 0x61);
    assert_eq!(keysym_to_u32(KeySym::ShiftL), 0xffe1);
}

fn wire_mode(id: &str, salience: WireModeSalience) -> WireMode {
    WireMode {
        id: id.into(),
        label: id.to_uppercase(),
        display_label: Some("中".into()),
        icon: None,
        profile_id: None,
        profile_label: None,
        description: None,
        is_active: true,
        salience,
    }
}

fn wire_composition() -> WireComposition {
    WireComposition {
        segments: vec![WirePreeditSegment { text: "ni".into(), format: WirePreeditFormat::Underline }],
        cursor_pos: 2,
        candidates: vec![WireCandidate { text: "你".into(), comment: None, label: Some("1".into()) }],
        page: 0,
        page_size: 5,
        total: 1,
        selected: 0,
        has_prev: false,
        has_next: true,
        host_managed_selection: 3,
    }
}

#[test]
fn wire_composition_translates_field_by_field() {
    let c = composition_from_wire(&wire_composition());
    assert_eq!(c.segments.len(), 1);
    assert_eq!(c.segments[0].text, "ni");
    assert_eq!(c.segments[0].format, PreeditFormat::Underline);
    assert_eq!(c.candidates[0].label.as_deref(), Some("1"));
    assert_eq!((c.cursor_pos, c.page_size, c.has_next, c.host_managed_selection), (2, 5, true, 3));
}

#[test]
fn reply_records_are_summarised_last_one_wins() {
    let records = vec![
        ReplyRecord::Success,
        ReplyRecord::KeyResult(WireKeyResult::PassThrough),
        ReplyRecord::KeyResult(WireKeyResult::Handled),
        ReplyRecord::Availability(WireAvailability::Ready),
        ReplyRecord::Mode(wire_mode("a", WireModeSalience::Quiet)),
        ReplyRecord::Command(WireCommand { id: "diagnose".into(), label: "Run diagnostics".into() }),
        ReplyRecord::Mode(wire_mode("b", WireModeSalience::Notable)),
        ReplyRecord::ActiveMode(wire_mode("b", WireModeSalience::Notable)),
        ReplyRecord::Text("t".into()),
        ReplyRecord::Commit("你".into()),
        ReplyRecord::Composition(wire_composition()),
        ReplyRecord::Clear,
    ];
    let (reply, outputs) = collect_reply(records.clone(), true);
    assert_eq!(reply.key_result, Some(KeyProcessResult::Handled));
    assert_eq!(reply.availability, Some(EngineAvailability::Ready));
    assert_eq!(reply.modes.iter().map(|m| m.id.as_str()).collect::<Vec<_>>(), ["a", "b"]);
    assert_eq!(reply.modes[1].salience, ModeSalience::Notable);
    assert_eq!(reply.commands[0].label, "Run diagnostics");
    assert_eq!(reply.active_mode.as_ref().map(|m| m.id.as_str()), Some("b"));
    assert_eq!(reply.text.as_deref(), Some("t"));
    assert_eq!(reply.error, None);
    assert_eq!(outputs.len(), 3);
    assert_eq!(outputs[0], ContextOutput::Commit("你".into()));
    assert!(matches!(outputs[1], ContextOutput::Composition(_)));
    assert_eq!(outputs[2], ContextOutput::Clear);

    let (_, dropped) = collect_reply(records, false);
    assert!(dropped.is_empty());
}

#[test]
fn error_records_become_framework_errors() {
    let (reply, _) = collect_reply(vec![ReplyRecord::Error("NOT_SUPPORTED\tx".into())], false);
    assert_eq!(finish_reply(reply), Err(EngineError::NotSupported));
    let (reply, _) = collect_reply(vec![ReplyRecord::Error("NOT_FOUND".into())], false);
    assert_eq!(finish_reply(reply), Err(EngineError::NotFound));
    let (reply, _) = collect_reply(vec![ReplyRecord::Error("boom\tdetail".into())], false);
    assert_eq!(finish_reply(reply), Err(EngineError::Transport("boom\tdetail".into())));
    let (reply, _) = collect_reply(vec![ReplyRecord::Text("ok".into())], false);
    assert_eq!(finish_reply(reply).unwrap().text.as_deref(), Some("ok"));
}

#[test]
fn response_frames_are_checked_before_decoding() {
    assert_eq!(check_response_frame(4, 4, MessageType::Response), FrameCheck::Accept);
    assert_eq!(check_response_frame(4, 4, MessageType::Error), FrameCheck::RemoteError);
    assert_eq!(check_response_frame(4, 5, MessageType::Response), FrameCheck::IdMismatch);
    assert_eq!(check_response_frame(4, 4, MessageType::Request), FrameCheck::UnexpectedType);
    assert!(frame_check_poisons(FrameCheck::IdMismatch));
    assert!(frame_check_poisons(FrameCheck::UnexpectedType));
    assert!(!frame_check_poisons(FrameCheck::RemoteError));
}

#[test]
fn poisoned_worker_is_respawned_once_and_backs_off_after_failure() {
    let now = Timestamp::from_nanos(10_000_000_000);
    let mut state = RecoveryState {
        worker: WorkerSlot::Poisoned,
        respawn_in_flight: false,
        backoff: RecoveryBackoff::new(),
    };
    assert!(recovery_step(&mut state, RecoveryPoll::Idle, true, now));
    assert_eq!(state.worker, WorkerSlot::Absent);
    assert!(state.respawn_in_flight);

    // Still running: nothing to do.
    assert!(!recovery_step(&mut state, RecoveryPoll::Pending, true, now));
    // It failed: the failure is counted, the next attempt waits.
    assert!(!recovery_step(&mut state, RecoveryPoll::Failed, true, now));
    assert!(!state.respawn_in_flight);
    assert_eq!(state.backoff.failures, 1);
    assert_eq!(state.backoff.not_before, Some(now.add(Span::from_secs(1))));

    // A live worker needs nothing.
    let mut live = RecoveryState { worker: WorkerSlot::Live, respawn_in_flight: false, backoff: RecoveryBackoff::new() };
    assert!(!recovery_step(&mut live, RecoveryPoll::Idle, true, now));
    assert_eq!(live.worker, WorkerSlot::Live);

    // Without a command there is nothing to respawn.
    let mut no_cmd = RecoveryState { worker: WorkerSlot::Poisoned, respawn_in_flight: false, backoff: RecoveryBackoff::new() };
    assert!(!recovery_step(&mut no_cmd, RecoveryPoll::Idle, false, now));
    assert_eq!(no_cmd.worker, WorkerSlot::Absent);

    // A completed respawn is installed.
    let mut arriving = RecoveryState { worker: WorkerSlot::Absent, respawn_in_flight: true, backoff: RecoveryBackoff::new() };
    assert!(!recovery_step(&mut arriving, RecoveryPoll::Installed, true, now));
    assert_eq!(arriving.worker, WorkerSlot::Live);
}

#[test]
fn worker_command_needs_a_program() {
    assert!(!worker_command_usable(&[]));
    assert!(!worker_command_usable(&["".to_string()]));
    assert!(worker_command_usable(&["/bin/true".to_string()]));
}

#[test]
fn hello_mismatches_become_transport_errors_naming_both_values() {
    let hello = EngineHello {
        engine: "rime".to_string(),
        kind: WireEngineKind::Voice,
    };
    assert_eq!(
        check_engine_hello("pinyin", EngineType::Keyboard, &hello),
        Err(EngineError::Transport(
            "engine-protocol engine mismatch: manifest 'pinyin' engine 'rime'".to_string()
        ))
    );
    assert_eq!(
        check_engine_hello("rime", EngineType::Keyboard, &hello),
        Err(EngineError::Transport(
            "engine-protocol type mismatch: manifest 'keyboard' engine 'voice'".to_string()
        ))
    );
    assert_eq!(check_engine_hello("rime", EngineType::Voice, &hello), Ok(()));
}
