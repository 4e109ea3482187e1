//! Redraw scheduling policy for the candidate panel's dirty tick.
//!
//! Given the current schedule state and a few live flags, decides whether the
//! panel should flush this tick. No I/O, no Wayland handles.
use vstd::prelude::*;

verus! {

/// Per-tick schedule state of the panel.
#[derive(Debug, Clone, Copy, PartialEq, Eq, Structural)]
pub enum PanelScheduleState {
    /// Nothing pending.
    Idle,
    /// A redraw is queued for the next flush opportunity.
    Dirty,
}

impl Default for PanelScheduleState {
    /// A fresh panel has nothing pending.
    fn default() -> (s: PanelScheduleState)
        ensures
            s == PanelScheduleState::Idle,
    {
        PanelScheduleState::Idle
    }
}

/// Queue a redraw: whatever the current state, the panel becomes dirty.
pub fn mark_dirty(current: PanelScheduleState) -> (next: PanelScheduleState)
    ensures
        next == PanelScheduleState::Dirty,
{
    PanelScheduleState::Dirty
}

/// A flush completed: nothing is pending any more.
pub fn complete() -> (next: PanelScheduleState)
    ensures
        next == PanelScheduleState::Idle,
{
    PanelScheduleState::Idle
}

/// A pending redraw was abandoned.
pub fn cancel() -> (next: PanelScheduleState)
    ensures
        next == PanelScheduleState::Idle,
{
    PanelScheduleState::Idle
}

/// The panel flushes exactly when a redraw is queued and a focused input
/// context of a live session can receive it.
pub fn should_flush(
    state: PanelScheduleState,
    has_session: bool,
    has_context: bool,
    context_focused: bool,
) -> (flush: bool)
    ensures
        flush == (state == PanelScheduleState::Dirty && has_session && has_context
            && context_focused),
{
    state != PanelScheduleState::Idle && has_session && has_context && context_focused
}

} // verus!
