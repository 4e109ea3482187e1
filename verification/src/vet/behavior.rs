//! Behaviour verdicts of the keyboard-engine drive: after each scripted key
//! or lifecycle call, the engine's result code and the context events it
//! emitted decide the check. Driving the engine itself is done at the edge.
use vstd::prelude::*;

use crate::vet::check::{CheckCategory, CheckResult, CheckStatus};

verus! {

/// What a keyboard engine answered to a key.
#[derive(Debug, Clone, Copy, PartialEq, Eq, Structural)]
pub enum KeyResult {
    NotHandled,
    Handled,
    Composing,
    Committed,
}

/// A context event recorded by the mock host.
#[derive(Debug, Clone, PartialEq, Eq)]
pub enum ContextEvent {
    Commit(String),
    Clear,
    SetComposition { preedit: String, cursor: i32, candidate_count: usize },
}

/// The committed texts among `events`, in order.
pub open spec fn commit_texts(events: Seq<ContextEvent>) -> Seq<Seq<char>>
    decreases events.len(),
{
    if events.len() == 0 {
        Seq::empty()
    } else {
        let rest = commit_texts(events.drop_last());
        match events.last() {
            ContextEvent::Commit(s) => rest.push(s@),
            _ => rest,
        }
    }
}

/// Whether every text of `texts` is empty.
pub open spec fn all_empty(texts: Seq<Seq<char>>) -> bool {
    forall|i: int| 0 <= i < texts.len() ==> #[trigger] texts[i].len() == 0
}

/// The verdict of the `printable_key` check as status and detail: the result
/// code must cohere with what was emitted.
pub open spec fn printable_key_spec(result: KeyResult, events: Seq<ContextEvent>) -> (
    CheckStatus,
    Seq<char>,
) {
    let commits = commit_texts(events);
    match result {
        KeyResult::Committed => if commits.len() == 0 {
            (CheckStatus::Fail, "returned COMMITTED but emitted no commit"@)
        } else if all_empty(commits) {
            (CheckStatus::Fail, "committed an empty string"@)
        } else {
            (CheckStatus::Pass, Seq::empty())
        },
        KeyResult::NotHandled => if events.len() > 0 {
            (CheckStatus::Fail, "returned NOT_HANDLED but emitted context events"@)
        } else {
            (
                CheckStatus::Warn,
                "declined plain key 'a' (expected for passthrough/Latin engines, suspicious otherwise)"@,
            )
        },
        KeyResult::Composing => if commits.len() > 0 {
            (CheckStatus::Fail, "returned COMPOSING but also committed"@)
        } else {
            (CheckStatus::Pass, Seq::empty())
        },
        KeyResult::Handled => (CheckStatus::Pass, Seq::empty()),
    }
}

fn commit_summary(events: &Vec<ContextEvent>) -> (r: (usize, bool))
    ensures
        r.0 == commit_texts(events@).len(),
        r.1 == all_empty(commit_texts(events@)),
{
    let mut count: usize = 0;
    let mut empty = true;
    let mut i: usize = 0;
    while i < events.len()
        invariant
            i <= events.len(),
            count <= i,
            count == commit_texts(events@.take(i as int)).len(),
            empty == all_empty(commit_texts(events@.take(i as int))),
        decreases events.len() - i,
    {
        assert(events@.take(i + 1).drop_last() == events@.take(i as int));
        let ghost before = commit_texts(events@.take(i as int));
        match &events[i] {
            ContextEvent::Commit(s) => {
                assert(commit_texts(events@.take(i + 1)) == before.push(s@));
                if s.unicode_len() != 0 {
                    assert(before.push(s@)[before.len() as int].len() != 0);
                    empty = false;
                } else {
                    assert forall|j: int| 0 <= j < before.len() + 1 implies #[trigger] before.push(
                        s@,
                    )[j].len() == 0 <== empty by {
                        if j < before.len() {
                            assert(before.push(s@)[j] == before[j]);
                        }
                    }
                    assert(!empty ==> !all_empty(before.push(s@))) by {
                        if !empty {
                            let j = choose|j: int| 0 <= j < before.len() && before[j].len() != 0;
                            assert(before.push(s@)[j] == before[j]);
                        }
                    }
                }
                count = count + 1;
            },
            _ => {},
        }
        i = i + 1;
    }
    assert(events@.take(events.len() as int) == events@);
    (count, empty)
}

/// The `printable_key` check after a plain `a` was pressed.
pub fn printable_key_verdict(result: KeyResult, events: &Vec<ContextEvent>) -> (r: CheckResult)
    ensures
        r.category == CheckCategory::Behavior,
        r.name@ == "printable_key"@,
        (r.status, r.detail@) == printable_key_spec(result, events@),
{
    let (commits, all_commits_empty) = commit_summary(events);
    proof {
        reveal_strlit("printable_key");
    }
    let name = "printable_key";
    match result {
        KeyResult::Committed => if commits == 0 {
            CheckResult::fail(
                CheckCategory::Behavior,
                name,
                String::from_str("returned COMMITTED but emitted no commit"),
            )
        } else if all_commits_empty {
            CheckResult::fail(
                CheckCategory::Behavior,
                name,
                String::from_str("committed an empty string"),
            )
        } else {
            CheckResult::pass(CheckCategory::Behavior, name)
        },
        KeyResult::NotHandled => if events.len() > 0 {
            CheckResult::fail(
                CheckCategory::Behavior,
                name,
                String::from_str("returned NOT_HANDLED but emitted context events"),
            )
        } else {
            CheckResult::warn(
                CheckCategory::Behavior,
                name,
                String::from_str(
                    "declined plain key 'a' (expected for passthrough/Latin engines, suspicious otherwise)",
                ),
            )
        },
        KeyResult::Composing => if commits > 0 {
            CheckResult::fail(
                CheckCategory::Behavior,
                name,
                String::from_str("returned COMPOSING but also committed"),
            )
        } else {
            CheckResult::pass(CheckCategory::Behavior, name)
        },
        KeyResult::Handled => CheckResult::pass(CheckCategory::Behavior, name),
    }
}

/// The name of a result code as reports print it.
pub open spec fn key_result_name(result: KeyResult) -> Seq<char> {
    match result {
        KeyResult::NotHandled => "TypioKeyNotHandled"@,
        KeyResult::Handled => "TypioKeyHandled"@,
        KeyResult::Composing => "TypioKeyComposing"@,
        KeyResult::Committed => "TypioKeyCommitted"@,
    }
}

fn key_result_str(result: KeyResult) -> (s: &'static str)
    ensures
        s@ == key_result_name(result),
{
    match result {
        KeyResult::NotHandled => "TypioKeyNotHandled",
        KeyResult::Handled => "TypioKeyHandled",
        KeyResult::Composing => "TypioKeyComposing",
        KeyResult::Committed => "TypioKeyCommitted",
    }
}

/// The `modifier_passthrough` check after a lone Shift: it fails when the
/// engine answered `Committed` or emitted a commit, naming the result code.
pub fn modifier_passthrough_verdict(result: KeyResult, events: &Vec<ContextEvent>) -> (r:
    CheckResult)
    ensures
        r.category == CheckCategory::Behavior,
        r.name@ == "modifier_passthrough"@,
        (result == KeyResult::Committed || commit_texts(events@).len() > 0) ==> (r.status
            == CheckStatus::Fail && r.detail@ == "lone modifier key produced a commit (result="@
            + key_result_name(result) + ")"@),
        !(result == KeyResult::Committed || commit_texts(events@).len() > 0) ==> (r.status
            == CheckStatus::Pass && r.detail@.len() == 0),
{
    proof {
        reveal_strlit("modifier_passthrough");
    }
    let (commits, _) = commit_summary(events);
    let committed = match result {
        KeyResult::Committed => true,
        _ => commits > 0,
    };
    if committed {
        CheckResult::fail(
            CheckCategory::Behavior,
            "modifier_passthrough",
            String::from_str("lone modifier key produced a commit (result=").concat(
                key_result_str(result),
            ).concat(")"),
        )
    } else {
        CheckResult::pass(CheckCategory::Behavior, "modifier_passthrough")
    }
}

/// A check that the engine must not commit anything.
#[derive(Debug, Clone, Copy, PartialEq, Eq, Structural)]
pub enum NoCommitCheck {
    /// Escape on an empty context.
    EscapeOnEmpty,
    /// Reset after composing.
    Reset,
}

/// A no-commit check's name and its failure detail.
pub open spec fn no_commit_text(check: NoCommitCheck) -> (Seq<char>, Seq<char>) {
    match check {
        NoCommitCheck::EscapeOnEmpty => (
            "escape_on_empty"@,
            "Escape on empty context committed text"@,
        ),
        NoCommitCheck::Reset => ("reset"@, "reset emitted a commit instead of clearing"@),
    }
}

/// The verdict of a no-commit check: it fails, with the check's detail,
/// exactly when one of `events` is a commit.
pub fn no_commit_verdict(check: NoCommitCheck, events: &Vec<ContextEvent>) -> (r: CheckResult)
    ensures
        r.category == CheckCategory::Behavior,
        r.name@ == no_commit_text(check).0,
        commit_texts(events@).len() > 0 ==> r.status == CheckStatus::Fail && r.detail@
            == no_commit_text(check).1,
        commit_texts(events@).len() == 0 ==> r.status == CheckStatus::Pass && r.detail@.len() == 0,
{
    let (commits, _) = commit_summary(events);
    let (name, detail): (&'static str, &'static str) = match check {
        NoCommitCheck::EscapeOnEmpty => ("escape_on_empty", "Escape on empty context committed text"),
        NoCommitCheck::Reset => ("reset", "reset emitted a commit instead of clearing"),
    };
    if commits > 0 {
        CheckResult::fail(CheckCategory::Behavior, name, String::from_str(detail))
    } else {
        CheckResult::pass(CheckCategory::Behavior, name)
    }
}

} // verus!
