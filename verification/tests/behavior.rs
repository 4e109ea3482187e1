use typio_host::vet::behavior::{
    modifier_passthrough_verdict, no_commit_verdict, printable_key_verdict, ContextEvent,
    KeyResult, NoCommitCheck,
};
use typio_host::vet::check::{CheckCategory, CheckStatus};

fn commit(s: &str) -> ContextEvent {
    ContextEvent::Commit(s.to_string())
}

#[test]
fn printable_key_result_must_cohere_with_events() {
    let r = printable_key_verdict(KeyResult::Committed, &vec![]);
    assert_eq!((r.status, r.detail.as_str()), (CheckStatus::Fail, "returned COMMITTED but emitted no commit"));
    let r = printable_key_verdict(KeyResult::Committed, &vec![commit(""), commit("")]);
    assert_eq!((r.status, r.detail.as_str()), (CheckStatus::Fail, "committed an empty string"));
    let r = printable_key_verdict(KeyResult::Committed, &vec![commit(""), commit("a")]);
    assert_eq!(r.status, CheckStatus::Pass);
    let r = printable_key_verdict(KeyResult::NotHandled, &vec![ContextEvent::Clear]);
    assert_eq!((r.status, r.detail.as_str()), (CheckStatus::Fail, "returned NOT_HANDLED but emitted context events"));
    let r = printable_key_verdict(KeyResult::NotHandled, &vec![]);
    assert_eq!(r.status, CheckStatus::Warn);
    assert_eq!(
        r.detail,
        "declined plain key 'a' (expected for passthrough/Latin engines, suspicious otherwise)"
    );
    let composing = ContextEvent::SetComposition { preedit: "a".into(), cursor: 1, candidate_count: 3 };
    assert_eq!(printable_key_verdict(KeyResult::Composing, &vec![composing.clone()]).status, CheckStatus::Pass);
    let r = printable_key_verdict(KeyResult::Composing, &vec![composing, commit("a")]);
    assert_eq!((r.status, r.detail.as_str()), (CheckStatus::Fail, "returned COMPOSING but also committed"));
    let r = printable_key_verdict(KeyResult::Handled, &vec![]);
    assert_eq!((r.category, r.name, r.status), (CheckCategory::Behavior, "printable_key", CheckStatus::Pass));
}

#[test]
fn lone_modifier_must_not_commit() {
    let r = modifier_passthrough_verdict(KeyResult::Committed, &vec![]);
    assert_eq!(r.status, CheckStatus::Fail);
    assert_eq!(r.detail, "lone modifier key produced a commit (result=TypioKeyCommitted)");
    let r = modifier_passthrough_verdict(KeyResult::Handled, &vec![commit("x")]);
    assert_eq!(r.detail, "lone modifier key produced a commit (result=TypioKeyHandled)");
    let r = modifier_passthrough_verdict(KeyResult::NotHandled, &vec![ContextEvent::Clear]);
    assert_eq!((r.name, r.status), ("modifier_passthrough", CheckStatus::Pass));
}

#[test]
fn escape_and_reset_must_not_commit() {
    let r = no_commit_verdict(NoCommitCheck::EscapeOnEmpty, &vec![commit("x")]);
    assert_eq!((r.name, r.status, r.detail.as_str()), ("escape_on_empty", CheckStatus::Fail, "Escape on empty context committed text"));
    let r = no_commit_verdict(NoCommitCheck::Reset, &vec![commit("x")]);
    assert_eq!((r.name, r.detail.as_str()), ("reset", "reset emitted a commit instead of clearing"));
    let r = no_commit_verdict(NoCommitCheck::Reset, &vec![ContextEvent::Clear]);
    assert_eq!(r.status, CheckStatus::Pass);
}
