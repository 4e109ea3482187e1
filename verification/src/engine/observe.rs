//! What the framework keeps between replies: the last keyboard mode an engine
//! reported, with a flag for a change not yet handed out, and the answers the
//! keyboard-engine calls give once a reply (or its failure) is known.
use vstd::prelude::*;

use crate::engine::reply::{EngineError, WorkerReply};
use crate::engine::types::{EngineMode, KeyProcessResult, ModeSalience};

verus! {

fn clone_opt_text(o: &Option<String>) -> (c: Option<String>)
    ensures
        c == *o,
{
    match o {
        None => None,
        Some(s) => Some(s.clone()),
    }
}

/// A copy of a mode, field for field.
pub fn clone_mode(m: &EngineMode) -> (c: EngineMode)
    ensures
        c == *m,
{
    EngineMode {
        id: m.id.clone(),
        label: m.label.clone(),
        display_label: clone_opt_text(&m.display_label),
        icon: clone_opt_text(&m.icon),
        profile_id: clone_opt_text(&m.profile_id),
        profile_label: clone_opt_text(&m.profile_label),
        description: clone_opt_text(&m.description),
        is_active: m.is_active,
        salience: match m.salience {
            ModeSalience::Quiet => ModeSalience::Quiet,
            ModeSalience::Notable => ModeSalience::Notable,
        },
    }
}

/// The observation cache of the active keyboard mode.
pub struct ModeObserver {
    /// The mode most recently taken as the active one.
    pub last: Option<EngineMode>,
    /// Whether `last` changed since the change was last handed out.
    pub changed: bool,
}

/// Whether `mode` counts as a change against what was observed: its
/// identity, the mode id, differs, or nothing was observed yet.
pub open spec fn differs_from(last: Option<EngineMode>, mode: EngineMode) -> bool {
    match last {
        None => true,
        Some(prev) => prev.id@ != mode.id@,
    }
}

/// The cache after an `ACTIVE_MODE` report.
pub open spec fn observe_spec(s: ModeObserver, mode: EngineMode) -> ModeObserver {
    if differs_from(s.last, mode) {
        ModeObserver { last: Some(mode), changed: true }
    } else {
        s
    }
}

/// The cache after handing out a pending change, and what was handed out.
pub open spec fn take_spec(s: ModeObserver) -> (ModeObserver, Option<EngineMode>) {
    if s.changed {
        (ModeObserver { last: s.last, changed: false }, s.last)
    } else {
        (s, None)
    }
}

impl ModeObserver {
    /// Nothing observed, nothing pending.
    pub fn new() -> (o: ModeObserver)
        ensures
            o.last is None,
            !o.changed,
    {
        ModeObserver { last: None, changed: false }
    }

    /// Folds a reported active mode into the cache: a mode whose id differs
    /// from the last observed one (or the first one) is stored and flagged;
    /// one with the same id leaves the cache as it was.
    pub fn observe_active_mode(&mut self, mode: &EngineMode)
        ensures
            *final(self) == observe_spec(*old(self), *mode),
    {
        let differs = match &self.last {
            None => true,
            Some(prev) => !crate::text::str_eq(prev.id.as_str(), mode.id.as_str()),
        };
        if differs {
            self.last = Some(clone_mode(mode));
            self.changed = true;
        }
    }

    /// Hands out the mode once after a change: the observed mode when a
    /// change is pending, which clears the flag; `None` otherwise.
    pub fn take_changed_mode(&mut self) -> (m: Option<EngineMode>)
        ensures
            (*final(self), m) == take_spec(*old(self)),
    {
        if self.changed {
            self.changed = false;
            match &self.last {
                None => None,
                Some(mode) => Some(clone_mode(mode)),
            }
        } else {
            None
        }
    }
}

/// A pending change is handed out once: a second take right after the
/// first hands out nothing.
pub proof fn lemma_change_taken_once(s: ModeObserver)
    ensures
        take_spec(take_spec(s).0).1 is None,
{
}

/// A report of a mode with the id already observed is no change, whatever
/// its other fields hold.
pub proof fn lemma_same_id_is_no_change(s: ModeObserver, m1: EngineMode, m2: EngineMode)
    requires
        m1.id@ == m2.id@,
    ensures
        take_spec(observe_spec(take_spec(observe_spec(s, m1)).0, m2)).1 is None,
{
}

/// A report of a mode with a new id is handed out by the next take.
pub proof fn lemma_new_id_is_handed_out(s: ModeObserver, m: EngineMode)
    requires
        differs_from(s.last, m),
    ensures
        take_spec(observe_spec(s, m)).1 == Some(m),
{
}

/// The key result of a `process-key` exchange: the reply's key result,
/// `NotHandled` where the reply carried none or the exchange failed.
pub fn key_outcome(reply: &Result<WorkerReply, EngineError>) -> (r: KeyProcessResult)
    ensures
        r == match reply {
            Ok(w) => match w.key_result {
                Some(k) => k,
                None => KeyProcessResult::NotHandled,
            },
            Err(_) => KeyProcessResult::NotHandled,
        },
{
    match reply {
        Ok(w) => match w.key_result {
            Some(k) => k,
            None => KeyProcessResult::NotHandled,
        },
        Err(_) => KeyProcessResult::NotHandled,
    }
}

} // verus!
