//! Voice session states and the status-banner policy that mirrors them.
//!
//! The in-progress states ("loading…", "listening…", "transcribing…") show
//! a sticky banner that stays for as long as the session sits in that state;
//! terminal feedback (a transcription, an error, or no speech) shows a
//! transient banner that fades after the indicator duration.
use vstd::prelude::*;

use crate::time::{millis_of, Timestamp};

verus! {

/// Voice session state machine states.
#[derive(Clone, Copy, PartialEq, Eq, Debug, Structural)]
pub enum VoiceState {
    /// Idle, no recording or inference in progress.
    Idle,
    /// Model is being loaded.
    Loading,
    /// Audio is being recorded.
    Recording,
    /// Inference is running on captured audio.
    Processing,
}

/// Internal voice event used for cross-thread communication.
#[derive(Debug, Clone, PartialEq, Eq)]
pub enum VoiceEvent {
    /// State transitioned.
    StateChange(VoiceState),
    /// Transcription result available.
    Result(String),
    /// An error occurred.
    Error(String),
}

/// What the status banner should do after a voice-session change.
#[derive(Debug, PartialEq, Eq)]
pub enum BannerAction {
    /// Show this label until the session state advances (no auto-hide).
    ShowSticky(&'static str),
    /// Show this label and let it fade after the indicator duration.
    ShowTransient(String),
    /// Leave whatever is on screen alone.
    Keep,
    /// Hide the voice banner.
    Hide,
}

/// Map a session state transition onto the status banner.
///
/// The in-progress states render sticky banners. Reaching `Idle` keeps a
/// transient result/error banner that is already on screen (its own timer
/// owns the fade), reports "no speech" when the session went idle straight
/// out of `Processing`, and otherwise tears the sticky banner down.
pub fn banner_for_state(
    previous: VoiceState,
    state: VoiceState,
    transient_banner_armed: bool,
) -> (action: BannerAction)
    ensures
        state == VoiceState::Loading ==> (action matches BannerAction::ShowSticky(l) && l@
            == "Voice: loading model…"@),
        state == VoiceState::Recording ==> (action matches BannerAction::ShowSticky(l) && l@
            == "Voice: listening…"@),
        state == VoiceState::Processing ==> (action matches BannerAction::ShowSticky(l) && l@
            == "Voice: transcribing…"@),
        state == VoiceState::Idle && transient_banner_armed ==> action == BannerAction::Keep,
        state == VoiceState::Idle && !transient_banner_armed && previous == VoiceState::Processing
            ==> (action matches BannerAction::ShowTransient(l) && l@
            == "Voice: no speech detected"@),
        state == VoiceState::Idle && !transient_banner_armed && previous != VoiceState::Processing
            ==> action == BannerAction::Hide,
{
    match state {
        VoiceState::Loading => BannerAction::ShowSticky("Voice: loading model…"),
        VoiceState::Recording => BannerAction::ShowSticky("Voice: listening…"),
        VoiceState::Processing => BannerAction::ShowSticky("Voice: transcribing…"),
        VoiceState::Idle => {
            if transient_banner_armed {
                BannerAction::Keep
            } else if previous == VoiceState::Processing {
                BannerAction::ShowTransient(String::from_str("Voice: no speech detected"))
            } else {
                BannerAction::Hide
            }
        },
    }
}

/// The transient banner for a finished transcription: "no speech" for an
/// empty result, otherwise the recognised text after a `Voice: ` prefix.
pub fn banner_for_result(text: &str) -> (label: String)
    ensures
        text@.len() == 0 ==> label@ == "Voice: no speech detected"@,
        text@.len() > 0 ==> label@ == "Voice: "@ + text@,
{
    if text.unicode_len() == 0 {
        String::from_str("Voice: no speech detected")
    } else {
        String::from_str("Voice: ").concat(text)
    }
}

/// The transient banner for a session error: the message after `Voice: `.
pub fn banner_for_error(message: &str) -> (label: String)
    ensures
        label@ == "Voice: "@ + message@,
{
    String::from_str("Voice: ").concat(message)
}

/// Milliseconds until an auto-hide deadline, for the poll reducer: `None`
/// when no deadline is armed or it has already passed; otherwise the whole
/// milliseconds left, as a 32-bit count (never negative).
pub fn hide_remaining_ms(deadline: Option<Timestamp>, now: Timestamp) -> (ms: Option<i32>)
    ensures
        deadline is None ==> ms is None,
        deadline matches Some(d) ==> {
            &&& now.nanos > d.nanos ==> ms is None
            &&& now.nanos <= d.nanos ==> ms == Some({
                let wrapped = (millis_of(d.nanos - now.nanos) as u64) as i32;
                if wrapped < 0 { 0i32 } else { wrapped }
            })
        },
{
    match deadline {
        None => None,
        Some(d) => {
            if now.nanos > d.nanos {
                None
            } else {
                let remaining = d.saturating_duration_since(now).as_millis();
                let wrapped = remaining as i32;
                Some(if wrapped < 0 { 0 } else { wrapped })
            }
        },
    }
}

} // verus!
