//! Follow-up decisions of the key-event driver, once the router has seen a
//! key: what a press or release leads to (chord, push-to-talk, engine
//! output, forwarding, repeat), and the feedback shown when push-to-talk
//! cannot start.
use vstd::prelude::*;

verus! {

/// What follows a key press the router has dispatched.
#[derive(Debug, Clone, Copy, PartialEq, Eq, Structural)]
pub enum PressAction {
    /// The language-switch chord completed: cycle the language and refresh
    /// derived state; the modifier press itself is not forwarded.
    CycleLanguage,
    /// Push-to-talk was pressed: stop key repeat and start voice capture.
    StartVoice,
    /// The engine consumed the key: drain its output, then arm key repeat
    /// in engine mode.
    EngineRepeat,
    /// The engine declined the key: forward it to the application, then arm
    /// key repeat in forward mode.
    ForwardRepeat,
}

/// Decide what follows a press. The chord takes precedence over
/// push-to-talk, which takes precedence over the engine's verdict.
pub fn press_action(chord_fired: bool, ptt_pressed: bool, consumed: bool) -> (a: PressAction)
    ensures
        chord_fired ==> a == PressAction::CycleLanguage,
        !chord_fired && ptt_pressed ==> a == PressAction::StartVoice,
        !chord_fired && !ptt_pressed && consumed ==> a == PressAction::EngineRepeat,
        !chord_fired && !ptt_pressed && !consumed ==> a == PressAction::ForwardRepeat,
{
    if chord_fired {
        PressAction::CycleLanguage
    } else if ptt_pressed {
        PressAction::StartVoice
    } else if consumed {
        PressAction::EngineRepeat
    } else {
        PressAction::ForwardRepeat
    }
}

/// What follows a key release the router has dispatched (key repeat always
/// stops on a release).
#[derive(Debug, Clone, Copy, PartialEq, Eq, Structural)]
pub struct ReleaseAction {
    /// Push-to-talk was released: stop voice capture.
    pub stop_voice: bool,
    /// The engine consumed the release: drain its output.
    pub drain_engine: bool,
    /// Deliver the release to the application.
    pub forward: bool,
}

/// Decide what follows a release. Outside push-to-talk, a release reaches the
/// application whenever the engine declined it or the matching press went to
/// the application, so an application never sees a press without its
/// release.
pub fn release_action(ptt_released: bool, consumed: bool, press_was_forwarded: bool) -> (a:
    ReleaseAction)
    ensures
        a.stop_voice == ptt_released,
        a.drain_engine == (!ptt_released && consumed),
        a.forward == (!ptt_released && (press_was_forwarded || !consumed)),
{
    if ptt_released {
        ReleaseAction { stop_voice: true, drain_engine: false, forward: false }
    } else {
        ReleaseAction { stop_voice: false, drain_engine: consumed, forward: press_was_forwarded || !consumed }
    }
}

/// How an attempt to start push-to-talk capture went.
#[derive(Debug, Clone, PartialEq, Eq)]
pub enum VoiceStartOutcome {
    /// No voice controller is configured.
    NoVoice,
    /// The controller exists but cannot record, for this reason.
    Unavailable(String),
    /// Capture started.
    Started,
    /// The controller is available but capture failed to start.
    FailedToStart,
}

/// The transient banner for a push-to-talk press. A started capture shows
/// none here: the session's own `Recording` state drives the sticky banner.
pub fn voice_start_banner(outcome: &VoiceStartOutcome) -> (label: Option<String>)
    ensures
        outcome is Started ==> label is None,
        outcome is NoVoice ==> (label matches Some(l) && l@ == "Voice: unavailable"@),
        outcome is FailedToStart ==> (label matches Some(l) && l@
            == "Voice: could not start audio capture"@),
        outcome matches VoiceStartOutcome::Unavailable(reason) ==> (label matches Some(l) && l@
            == "Voice: "@ + reason@),
{
    match outcome {
        VoiceStartOutcome::NoVoice => Some(String::from_str("Voice: unavailable")),
        VoiceStartOutcome::Unavailable(reason) => Some(
            String::from_str("Voice: ").concat(reason.as_str()),
        ),
        VoiceStartOutcome::Started => None,
        VoiceStartOutcome::FailedToStart => Some(
            String::from_str("Voice: could not start audio capture"),
        ),
    }
}

} // verus!
