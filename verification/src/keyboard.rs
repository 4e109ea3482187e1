//! Keyboard routing policy: modifier tracking, the Ctrl+Shift switch chord,
//! the Super+V push-to-talk shortcut, symmetric modifier release forwarding,
//! auto-repeat bookkeeping and preedit de-duplication.
//!
//! The router decides; the host performs. Each decoded key event goes through
//! [`KeyboardRouter::dispatch_key`], which updates the routing state and says
//! where the key goes ([`KeyRoute`]); the host then calls the engine or the
//! virtual keyboard accordingly.
use vstd::prelude::*;

use crate::text::opt_str_eq;

verus! {

/// Shift modifier bit (xkb real modifier `Shift`).
pub const MOD_SHIFT: u32 = 1;
/// Caps Lock bit (xkb real modifier `Lock`).
pub const MOD_CAPS: u32 = 2;
/// Control modifier bit (xkb real modifier `Control`).
pub const MOD_CTRL: u32 = 4;
/// Alt modifier bit (xkb real modifier `Mod1`).
pub const MOD_ALT: u32 = 8;
/// Num Lock bit (xkb real modifier `Mod2`).
pub const MOD_NUM: u32 = 16;
/// Super modifier bit (xkb real modifier `Mod4`).
pub const MOD_SUPER: u32 = 64;
/// The modifiers that make a key press a shortcut rather than text.
pub const MOD_BLOCKING: u32 = 77;
/// The engine-switch chord: Control and Shift held together.
pub const MOD_CHORD: u32 = 5;

/// X keysym `v`.
pub const KEY_V: u32 = 0x0076;
/// X keysym `V`.
pub const KEY_CAPITAL_V: u32 = 0x0056;
/// X keysym `Shift_L`.
pub const KEY_SHIFT_L: u32 = 0xffe1;
/// X keysym `Shift_R`.
pub const KEY_SHIFT_R: u32 = 0xffe2;
/// X keysym `Control_L`.
pub const KEY_CONTROL_L: u32 = 0xffe3;
/// X keysym `Control_R`.
pub const KEY_CONTROL_R: u32 = 0xffe4;
/// X keysym `Alt_L`.
pub const KEY_ALT_L: u32 = 0xffe9;
/// X keysym `Alt_R`.
pub const KEY_ALT_R: u32 = 0xffea;
/// X keysym `Super_L`.
pub const KEY_SUPER_L: u32 = 0xffeb;
/// X keysym `Super_R`.
pub const KEY_SUPER_R: u32 = 0xffec;

/// `wl_keyboard` key state `pressed`.
pub const WL_KEYBOARD_KEY_STATE_PRESSED: u32 = 1;
/// `wl_keyboard` key state `released`.
pub const WL_KEYBOARD_KEY_STATE_RELEASED: u32 = 0;

/// A modifier bit mask in the xkb real-modifier layout.
#[derive(Debug, Clone, Copy, PartialEq, Eq, Structural)]
pub struct Modifiers(pub u32);

impl Modifiers {
    /// True iff the two masks share a bit.
    pub fn intersects(self, other: Modifiers) -> (b: bool)
        ensures
            b == (self.0 & other.0 != 0),
    {
        self.0 & other.0 != 0
    }
}

/// A keyboard shortcut: a modifier set plus an optional keysym.
#[derive(Debug, Clone, Copy, PartialEq, Eq, Structural)]
pub struct ShortcutBinding {
    pub modifiers: Modifiers,
    pub keysym: u32,
}

/// Default engine-switch chord: Ctrl+Shift, the standard Linux IME switch.
/// Both modifiers must be held simultaneously (any side, any order); the
/// chord fires when they are released without any other key having been
/// pressed, so Ctrl+Shift+V and similar app shortcuts pass through untouched.
pub fn default_switch_binding() -> (b: ShortcutBinding)
    ensures
        b.modifiers.0 == MOD_CHORD,
        b.keysym == 0,
{
    assert(4u32 | 1u32 == 5u32) by (bit_vector);
    ShortcutBinding { modifiers: Modifiers(MOD_CTRL | MOD_SHIFT), keysym: 0 }
}

/// The modifier bit a modifier keysym drives, or 0 for any other key.
pub open spec fn modifier_bit_spec(keysym: u32) -> u32 {
    if keysym == KEY_SHIFT_L || keysym == KEY_SHIFT_R {
        MOD_SHIFT
    } else if keysym == KEY_CONTROL_L || keysym == KEY_CONTROL_R {
        MOD_CTRL
    } else if keysym == KEY_ALT_L || keysym == KEY_ALT_R {
        MOD_ALT
    } else if keysym == KEY_SUPER_L || keysym == KEY_SUPER_R {
        MOD_SUPER
    } else {
        0
    }
}

/// Map a keysym to the modifier bit it drives (0 for non-modifier keys).
pub fn modifier_bit_for_keysym(keysym: u32) -> (bit: u32)
    ensures
        bit == modifier_bit_spec(keysym),
{
    if keysym == KEY_SHIFT_L || keysym == KEY_SHIFT_R {
        MOD_SHIFT
    } else if keysym == KEY_CONTROL_L || keysym == KEY_CONTROL_R {
        MOD_CTRL
    } else if keysym == KEY_ALT_L || keysym == KEY_ALT_R {
        MOD_ALT
    } else if keysym == KEY_SUPER_L || keysym == KEY_SUPER_R {
        MOD_SUPER
    } else {
        0
    }
}

/// Whether `keysym` is the push-to-talk key (`v` or `V`).
pub fn is_voice_ptt_key(keysym: u32) -> (b: bool)
    ensures
        b == (keysym == KEY_V || keysym == KEY_CAPITAL_V),
{
    keysym == KEY_V || keysym == KEY_CAPITAL_V
}

/// State of the release-triggered switch-chord gesture.
#[derive(Debug, Clone, Copy, PartialEq, Eq, Structural)]
pub struct ChordModel {
    /// Physical modifier bits currently held.
    pub physical: u32,
    /// A non-modifier key was pressed during the current gesture.
    pub saw_non_modifier: bool,
    /// The full chord set was held together during the current gesture.
    pub full_set_held: bool,
    /// The chord already fired in the current gesture.
    pub already_triggered: bool,
}

/// One modifier-key transition of the switch-chord gesture: the next state and
/// whether this transition fires the switch.
///
/// A gesture spans from the first chord modifier going down (with none held)
/// to the last one coming up; its flags reset at both boundaries. The switch
/// fires on the first chord-modifier release that breaks a fully held set,
/// provided no non-modifier key joined the gesture and it has not fired yet.
/// A press never fires, so the prefix of an app shortcut never switches.
pub open spec fn chord_step(s: ChordModel, bit: u32, pressed: bool) -> (ChordModel, bool) {
    let is_chord_mod = bit & MOD_CHORD != 0;
    if pressed {
        let starts = is_chord_mod && s.physical & MOD_CHORD == 0;
        let physical = s.physical | bit;
        (ChordModel {
            physical,
            saw_non_modifier: if starts { false } else { s.saw_non_modifier },
            full_set_held: (if starts { false } else { s.full_set_held }) || physical & MOD_CHORD
                == MOD_CHORD,
            already_triggered: if starts { false } else { s.already_triggered },
        }, false)
    } else {
        let fired = is_chord_mod && s.full_set_held && !s.saw_non_modifier
            && !s.already_triggered;
        let physical = s.physical & !bit;
        let ends = physical & MOD_CHORD == 0;
        (ChordModel {
            physical,
            saw_non_modifier: if ends { false } else { s.saw_non_modifier },
            full_set_held: if ends { false } else { s.full_set_held },
            already_triggered: if ends { false } else { s.already_triggered || fired },
        }, fired)
    }
}

/// The switch fires at most once per gesture: a release that follows a firing
/// release (with no press in between) never fires, and a press never fires.
pub proof fn lemma_chord_fires_once(s: ChordModel, b1: u32, b2: u32)
    ensures
        !chord_step(s, b1, true).1,
        chord_step(s, b1, false).1 ==> !chord_step(chord_step(s, b1, false).0, b2, false).1,
{
}

/// From any state with no chord modifier held, Ctrl down, Shift down, Shift
/// up fires the switch, whatever happened before the gesture started.
pub proof fn lemma_clean_ctrl_shift_fires(s: ChordModel)
    requires
        s.physical & MOD_CHORD == 0,
    ensures
        ({
            let s1 = chord_step(s, MOD_CTRL, true).0;
            let s2 = chord_step(s1, MOD_SHIFT, true).0;
            chord_step(s2, MOD_SHIFT, false).1
        }),
{
    let p = s.physical;
    assert(p & 5 == 0 ==> (p | 4) & 5 != 0 && ((p | 4) | 1) & 5 == 5 && (p | 4) & 5 != 5
        && (((p | 4) | 1) & !1u32) & 5 != 0) by (bit_vector);
    assert(4u32 & 5u32 != 0 && 1u32 & 5u32 != 0) by (bit_vector);
}

/// Super+Shift is not the switch chord: from any state with no chord modifier
/// held, Super down, Shift down, Shift up does not fire.
pub proof fn lemma_super_shift_does_not_fire(s: ChordModel)
    requires
        s.physical & MOD_CHORD == 0,
    ensures
        ({
            let s1 = chord_step(s, MOD_SUPER, true).0;
            let s2 = chord_step(s1, MOD_SHIFT, true).0;
            !chord_step(s2, MOD_SHIFT, false).1
        }),
{
    let p = s.physical;
    assert(p & 5 == 0 ==> (p | 64) & 5 == 0 && ((p | 64) | 1) & 5 != 5 && ((p | 64) | 1) & 5 != 0)
        by (bit_vector);
}

/// A non-modifier key pressed while Ctrl+Shift are held cancels the switch:
/// neither of the following modifier releases fires.
pub proof fn lemma_tainted_gesture_does_not_fire(s: ChordModel, b1: u32, b2: u32)
    requires
        s.saw_non_modifier,
        s.physical & MOD_CHORD != 0,
    ensures
        !chord_step(s, b1, false).1,
        !chord_step(chord_step(s, b1, false).0, b2, false).1,
{
}

/// Each left and right modifier key drives its modifier's bit (the X11
/// keysyms `Shift_L`/`Shift_R` 0xffe1/0xffe2 Shift, `Control_L`/`Control_R`
/// 0xffe3/0xffe4 Control, `Alt_L`/`Alt_R` 0xffe9/0xffea Alt,
/// `Super_L`/`Super_R` 0xffeb/0xffec Super); every other key drives none.
pub proof fn lemma_modifier_keys_of_either_side(keysym: u32)
    ensures
        modifier_bit_spec(0xffe1) == 1 && modifier_bit_spec(0xffe2) == 1,
        modifier_bit_spec(0xffe3) == 4 && modifier_bit_spec(0xffe4) == 4,
        modifier_bit_spec(0xffe9) == 8 && modifier_bit_spec(0xffea) == 8,
        modifier_bit_spec(0xffeb) == 64 && modifier_bit_spec(0xffec) == 64,
        !(0xffe1 <= keysym <= 0xffe4 || 0xffe9 <= keysym <= 0xffec) ==> modifier_bit_spec(keysym)
            == 0,
{
}

/// The switch chord fires with the keys of either side, held in either
/// order: from a state with no chord modifier held, pressing a Control key
/// and a Shift key (either first) and then releasing either of them fires.
pub proof fn lemma_ctrl_shift_fires_any_side_any_order(s: ChordModel, ctrl: u32, shift: u32)
    requires
        s.physical & MOD_CHORD == 0,
        ctrl == 0xffe3 || ctrl == 0xffe4,
        shift == 0xffe1 || shift == 0xffe2,
    ensures
        ({
            let c = modifier_bit_spec(ctrl);
            let h = modifier_bit_spec(shift);
            &&& chord_step(chord_step(chord_step(s, c, true).0, h, true).0, h, false).1
            &&& chord_step(chord_step(chord_step(s, c, true).0, h, true).0, c, false).1
            &&& chord_step(chord_step(chord_step(s, h, true).0, c, true).0, c, false).1
            &&& chord_step(chord_step(chord_step(s, h, true).0, c, true).0, h, false).1
        }),
{
    let p = s.physical;
    assert(modifier_bit_spec(ctrl) == 4 && modifier_bit_spec(shift) == 1);
    assert(p & 5 == 0 ==> (p | 4) & 5 != 0 && ((p | 4) | 1) & 5 == 5 && (p | 4) & 5 != 5
        && (((p | 4) | 1) & !1u32) & 5 != 0 && (((p | 4) | 1) & !4u32) & 5 != 0) by (bit_vector);
    assert(p & 5 == 0 ==> (p | 1) & 5 != 0 && ((p | 1) | 4) & 5 == 5 && (p | 1) & 5 != 5
        && (((p | 1) | 4) & !1u32) & 5 != 0 && (((p | 1) | 4) & !4u32) & 5 != 0) by (bit_vector);
    assert(4u32 & 5u32 != 0 && 1u32 & 5u32 != 0) by (bit_vector);
}

/// What happens when the repeat timer fires for the held key.
#[derive(Debug, Clone, Copy, PartialEq, Eq, Structural)]
pub enum RepeatMode {
    /// Re-dispatch to the engine with `is_repeat: true`.
    Engine,
    /// Forward a synthetic press to the virtual keyboard.
    Forward,
}

/// Result of one auto-repeat tick.
#[derive(Debug, Clone, Copy, PartialEq, Eq, Structural)]
pub enum RepeatOutcome {
    /// The repeat key was forwarded to the virtual keyboard.
    Forwarded,
    /// The engine consumed the repeat event. The caller should drain any
    /// resulting commit/composition output.
    Consumed,
    /// The repeat chain has ended — either no key is pending or the engine
    /// declined the repeat. The caller should stop the timer.
    Stopped,
}

/// A decoded key event from the input-method keyboard grab.
#[derive(Debug, Clone, PartialEq, Eq)]
pub struct DecodedKeyEvent {
    pub keycode: u32,
    pub xkb_keycode: u32,
    pub keysym: u32,
    pub unicode: String,
    /// `wl_keyboard` key state: 1 for pressed, anything else for released.
    pub state: u32,
    pub time: u32,
}

/// Keys tracked for symmetric press/release.
pub const MAX_TRACKED_KEYS: usize = 256;

/// Per-key press/release bookkeeping.
#[derive(Debug, Clone, Copy, PartialEq, Eq, Structural)]
pub enum KeyTrackState {
    /// Not held, or nothing to pair.
    Idle,
    /// The press went to the application; its release must follow it.
    Forwarded,
    /// The press was an application shortcut passed through.
    AppShortcut,
    /// Held since before the grab started; its release is swallowed.
    SuppressedStartup,
    /// A release was already synthesized for the application; the physical
    /// release still to come must be swallowed.
    ReleasedPending,
}

/// The state of a tracked key after a soft pause synthesized releases for
/// the keys the application holds.
pub open spec fn released_pending(s: KeyTrackState) -> KeyTrackState {
    if s == KeyTrackState::Forwarded || s == KeyTrackState::AppShortcut {
        KeyTrackState::ReleasedPending
    } else {
        s
    }
}

/// Where a key event goes after routing.
#[derive(Debug, Clone, Copy, PartialEq, Eq, Structural)]
pub enum KeyRoute {
    /// Release of the held push-to-talk key: push-to-talk ends, the key is
    /// consumed and reaches neither the engine nor the application.
    VoicePttReleased,
    /// Super+V press: push-to-talk starts, the key is consumed.
    VoicePttPressed,
    /// Release of a modifier whose press the engine never saw: withheld from
    /// the engine so it never observes an unpaired release; not consumed.
    SuppressedRelease,
    /// Send the key to the engine; the engine decides whether it is consumed.
    Engine,
}

/// What the preedit sync should do for a composition update.
#[derive(Debug, Clone, Copy, PartialEq, Eq, Structural)]
pub enum TextUiPlan {
    /// Preedit text and cursor are unchanged: only the candidate panel needs
    /// repainting; the `set_preedit_string` + `commit` round-trip is skipped.
    SyncPanelOnly,
    /// The preedit changed: resend it and repaint the panel.
    SyncPreeditAndPanel,
}

/// Compare the last preedit actually sent with a new one. Identical text and
/// cursor (the Up/Down candidate-navigation case) need only a panel repaint;
/// any change to the text or the cursor resends the preedit.
pub fn text_ui_plan_update(
    last_text: Option<&str>,
    last_cursor: i32,
    new_text: Option<&str>,
    new_cursor: i32,
) -> (plan: TextUiPlan)
    ensures
        plan == TextUiPlan::SyncPanelOnly <==> (last_cursor == new_cursor && match (
            last_text,
            new_text,
        ) {
            (None, None) => true,
            (Some(x), Some(y)) => x@ == y@,
            _ => false,
        }),
{
    if last_cursor == new_cursor && opt_str_eq(last_text, new_text) {
        TextUiPlan::SyncPanelOnly
    } else {
        TextUiPlan::SyncPreeditAndPanel
    }
}

/// The last preedit the host actually sent to the compositor.
#[derive(Debug)]
pub struct PreeditTracking {
    pub last_text: Option<String>,
    pub last_cursor: i32,
}

impl PreeditTracking {
    /// Nothing sent yet.
    pub fn new() -> (t: PreeditTracking)
        ensures
            t.last_text is None,
            t.last_cursor == -1,
    {
        PreeditTracking { last_text: None, last_cursor: -1 }
    }

    /// Forget what was sent, so the next composition is never suppressed
    /// against stale tracking.
    pub fn reset(&mut self)
        ensures
            final(self).last_text is None,
            final(self).last_cursor == -1,
    {
        self.last_text = None;
        self.last_cursor = -1;
    }
}

/// The caret position, in bytes, to show for an engine's preedit: a
/// non-negative cursor as given, a negative one at the end of the text.
pub open spec fn resolve_cursor_spec(cursor_pos: i32, len: usize) -> usize {
    if cursor_pos >= 0 {
        cursor_pos as usize
    } else {
        len
    }
}

/// The caret position, in bytes, to show for an engine's preedit.
pub fn resolve_cursor(cursor_pos: i32, len: usize) -> (c: usize)
    ensures
        c == resolve_cursor_spec(cursor_pos, len),
{
    if cursor_pos >= 0 {
        cursor_pos as usize
    } else {
        len
    }
}

/// What a composition update does to the inline preedit.
#[derive(Debug, Clone, Copy, PartialEq, Eq, Structural)]
pub enum PreeditUpdate {
    /// Leave the compositor's preedit as it is.
    Keep,
    /// Clear the preedit the host had sent.
    Clear,
    /// Send the new preedit with the caret at this byte offset.
    Show { cursor: u32 },
}

impl PreeditTracking {
    /// Take in a composition update (preedit text, engine cursor, candidate
    /// count) and decide what the compositor must be sent. An update with
    /// neither preedit nor candidates clears a preedit only if one was sent;
    /// otherwise the preedit is resent only when its text or cursor changed
    /// since the last one sent (candidate navigation repaints the panel
    /// alone).
    pub fn plan_update(&mut self, preedit: &str, cursor_pos: i32, candidate_count: usize) -> (u:
        PreeditUpdate)
        ensures
            preedit@.len() == 0 && candidate_count == 0 ==> {
                &&& (old(self).last_text is Some || old(self).last_cursor != -1) ==> u
                    == PreeditUpdate::Clear && final(self).last_text is None
                    && final(self).last_cursor == -1
                &&& !(old(self).last_text is Some || old(self).last_cursor != -1) ==> u
                    == PreeditUpdate::Keep && final(self).last_text == old(self).last_text
                    && final(self).last_cursor == old(self).last_cursor
            },
            !(preedit@.len() == 0 && candidate_count == 0) ==> {
                let unchanged = old(self).last_cursor == cursor_pos && (match old(self).last_text {
                    Some(t) => t@ == preedit@,
                    None => false,
                });
                &&& unchanged ==> u == PreeditUpdate::Keep && final(self).last_text
                    == old(self).last_text && final(self).last_cursor == old(self).last_cursor
                &&& !unchanged ==> u == (PreeditUpdate::Show {
                    cursor: resolve_cursor_spec(cursor_pos, preedit.len())
                        as u32,
                }) && (final(self).last_text matches Some(t) && t@ == preedit@)
                    && final(self).last_cursor == cursor_pos
            },
    {
        if preedit.unicode_len() == 0 && candidate_count == 0 {
            if self.last_text.is_some() || self.last_cursor != -1 {
                self.reset();
                return PreeditUpdate::Clear;
            }
            return PreeditUpdate::Keep;
        }
        let plan = match &self.last_text {
            Some(t) => text_ui_plan_update(Some(t.as_str()), self.last_cursor, Some(preedit), cursor_pos),
            None => text_ui_plan_update(None, self.last_cursor, Some(preedit), cursor_pos),
        };
        if plan == TextUiPlan::SyncPreeditAndPanel {
            let cursor = resolve_cursor(cursor_pos, preedit.len()) as u32;
            self.last_text = Some(String::from_str(preedit));
            self.last_cursor = cursor_pos;
            PreeditUpdate::Show { cursor }
        } else {
            PreeditUpdate::Keep
        }
    }
}

/// Routing state of the keyboard grab.
#[derive(Debug)]
pub struct KeyboardRouter {
    /// Key currently held down and subject to auto-repeat, if any.
    pub repeat_key: Option<DecodedKeyEvent>,
    /// What the repeat timer should do for `repeat_key`.
    pub repeat_mode: RepeatMode,
    /// Physical modifier state tracked from key events.
    pub physical_modifiers: Modifiers,
    /// Whether `physical_modifiers` has been seeded from the first xkb
    /// modifier sample of this grab generation.
    pub modifiers_acquired: bool,
    /// Current grab epoch; never zero.
    pub active_generation: u32,
    /// Per-keycode tracking state for symmetric press/release.
    pub key_tracking_states: Vec<KeyTrackState>,
    /// Per-keycode generation stamp.
    pub key_tracking_generations: Vec<u32>,
    /// Gesture latch: a non-modifier key was pressed during the current
    /// switch gesture.
    pub shortcut_saw_non_modifier: bool,
    /// The full chord set (Ctrl+Shift) was held during the current gesture.
    pub chord_full_set_held: bool,
    /// The switch chord already fired in this gesture.
    pub shortcut_already_triggered: bool,
    /// Set when the chord completes; drained by the main loop.
    pub shortcut_fired: bool,
    /// Modifiers whose most recent press was forwarded to the engine.
    pub engine_tracked_mods: Modifiers,
    /// Last preedit the host sent to the compositor.
    pub preedit_tracking: PreeditTracking,
    /// Keycode currently held as the voice push-to-talk trigger, if any.
    pub voice_ptt_keycode: Option<u32>,
    /// Latched when Super+V starts voice push-to-talk.
    pub voice_ptt_pressed: bool,
    /// Latched when the matching V release ends voice push-to-talk.
    pub voice_ptt_released: bool,
}

impl KeyboardRouter {
    /// The chord-gesture part of the routing state.
    pub open spec fn chord(&self) -> ChordModel {
        ChordModel {
            physical: self.physical_modifiers.0,
            saw_non_modifier: self.shortcut_saw_non_modifier,
            full_set_held: self.chord_full_set_held,
            already_triggered: self.shortcut_already_triggered,
        }
    }

    /// A router at the start of grab generation 1 with nothing held.
    pub fn new() -> (r: KeyboardRouter)
        ensures
            r.repeat_key is None,
            r.repeat_mode == RepeatMode::Forward,
            r.physical_modifiers.0 == 0,
            !r.modifiers_acquired,
            r.active_generation == 1,
            r.key_tracking_states@.len() == MAX_TRACKED_KEYS,
            forall|i: int| 0 <= i < MAX_TRACKED_KEYS ==> r.key_tracking_states@[i] == KeyTrackState::Idle,
            r.key_tracking_generations@.len() == MAX_TRACKED_KEYS,
            forall|i: int| 0 <= i < MAX_TRACKED_KEYS ==> r.key_tracking_generations@[i] == 0,
            !r.shortcut_saw_non_modifier,
            !r.chord_full_set_held,
            !r.shortcut_already_triggered,
            !r.shortcut_fired,
            r.engine_tracked_mods.0 == 0,
            r.preedit_tracking.last_text is None,
            r.preedit_tracking.last_cursor == -1,
            r.voice_ptt_keycode is None,
            !r.voice_ptt_pressed,
            !r.voice_ptt_released,
    {
        let mut states: Vec<KeyTrackState> = Vec::new();
        let mut generations: Vec<u32> = Vec::new();
        for i in 0..MAX_TRACKED_KEYS
            invariant
                states@.len() == i,
                generations@.len() == i,
                forall|j: int| 0 <= j < i ==> states@[j] == KeyTrackState::Idle,
                forall|j: int| 0 <= j < i ==> generations@[j] == 0,
        {
            states.push(KeyTrackState::Idle);
            generations.push(0);
        }
        KeyboardRouter {
            repeat_key: None,
            repeat_mode: RepeatMode::Forward,
            physical_modifiers: Modifiers(0),
            modifiers_acquired: false,
            active_generation: 1,
            key_tracking_states: states,
            key_tracking_generations: generations,
            shortcut_saw_non_modifier: false,
            chord_full_set_held: false,
            shortcut_already_triggered: false,
            shortcut_fired: false,
            engine_tracked_mods: Modifiers(0),
            preedit_tracking: PreeditTracking::new(),
            voice_ptt_keycode: None,
            voice_ptt_pressed: false,
            voice_ptt_released: false,
        }
    }

    /// Forget the last preedit claimed to have been sent to the compositor.
    pub fn preedit_tracking_reset(&mut self)
        ensures
            final(self).preedit_tracking.last_text is None,
            final(self).preedit_tracking.last_cursor == -1,
            final(self).chord() == old(self).chord(),
            final(self).active_generation == old(self).active_generation,
    {
        self.preedit_tracking.reset();
    }

    /// Enter a soft pause: keep the grab, but drop repeat, modifier, gesture
    /// and push-to-talk state. The generation and any fired-but-undrained
    /// chord are kept.
    pub fn soft_pause(&mut self)
        ensures
            final(self).key_tracking_states@.len() == old(self).key_tracking_states@.len(),
            forall|i: int|
                0 <= i < old(self).key_tracking_states@.len() ==> final(self).key_tracking_states@[i]
                    == released_pending(#[trigger] old(self).key_tracking_states@[i]),
            final(self).key_tracking_generations == old(self).key_tracking_generations,
            final(self).repeat_key is None,
            final(self).repeat_mode == RepeatMode::Forward,
            final(self).physical_modifiers.0 == 0,
            !final(self).modifiers_acquired,
            final(self).engine_tracked_mods.0 == 0,
            !final(self).shortcut_saw_non_modifier,
            !final(self).chord_full_set_held,
            final(self).shortcut_already_triggered == old(self).shortcut_already_triggered,
            final(self).shortcut_fired == old(self).shortcut_fired,
            final(self).active_generation == old(self).active_generation,
            final(self).voice_ptt_keycode is None,
            !final(self).voice_ptt_pressed,
            !final(self).voice_ptt_released,
    {
        let n = self.key_tracking_states.len();
        let mut states: Vec<KeyTrackState> = Vec::new();
        for i in 0..n
            invariant
                n == self.key_tracking_states@.len(),
                states@.len() == i,
                forall|j: int| 0 <= j < i ==> states@[j] == released_pending(
                    #[trigger] self.key_tracking_states@[j],
                ),
        {
            let s = self.key_tracking_states[i];
            if s == KeyTrackState::Forwarded || s == KeyTrackState::AppShortcut {
                states.push(KeyTrackState::ReleasedPending);
            } else {
                states.push(s);
            }
        }
        self.key_tracking_states = states;
        self.repeat_key = None;
        self.repeat_mode = RepeatMode::Forward;
        self.physical_modifiers = Modifiers(0);
        self.modifiers_acquired = false;
        self.engine_tracked_mods = Modifiers(0);
        self.shortcut_saw_non_modifier = false;
        self.chord_full_set_held = false;
        self.voice_ptt_keycode = None;
        self.voice_ptt_pressed = false;
        self.voice_ptt_released = false;
    }

    /// Start a new key generation (grab handoff): advance the epoch (skipping
    /// zero) and drop every piece of per-key, modifier, gesture and
    /// push-to-talk state, so nothing held across the boundary leaks into it.
    pub fn scrub_generation(&mut self)
        ensures
            final(self).active_generation == (if old(self).active_generation == u32::MAX {
                1
            } else {
                old(self).active_generation + 1
            }),
            final(self).active_generation != 0,
            final(self).key_tracking_states@.len() == old(self).key_tracking_states@.len(),
            forall|i: int|
                0 <= i < final(self).key_tracking_states@.len() ==> #[trigger] final(self).key_tracking_states@[i]
                    == KeyTrackState::Idle,
            final(self).key_tracking_generations@.len() == old(self).key_tracking_generations@.len(),
            forall|i: int|
                0 <= i < final(self).key_tracking_generations@.len() ==> #[trigger] final(self).key_tracking_generations@[i]
                    == 0,
            final(self).repeat_key is None,
            final(self).repeat_mode == RepeatMode::Forward,
            final(self).physical_modifiers.0 == 0,
            !final(self).modifiers_acquired,
            !final(self).shortcut_saw_non_modifier,
            !final(self).chord_full_set_held,
            !final(self).shortcut_already_triggered,
            !final(self).shortcut_fired,
            final(self).engine_tracked_mods.0 == 0,
            final(self).voice_ptt_keycode is None,
            !final(self).voice_ptt_pressed,
            !final(self).voice_ptt_released,
    {
        self.active_generation = self.active_generation.wrapping_add(1);
        if self.active_generation == 0 {
            self.active_generation = 1;
        }
        let n = self.key_tracking_states.len();
        let mut states: Vec<KeyTrackState> = Vec::new();
        for i in 0..n
            invariant
                states@.len() == i,
                forall|j: int| 0 <= j < i ==> #[trigger] states@[j] == KeyTrackState::Idle,
        {
            states.push(KeyTrackState::Idle);
        }
        let m = self.key_tracking_generations.len();
        let mut generations: Vec<u32> = Vec::new();
        for i in 0..m
            invariant
                generations@.len() == i,
                forall|j: int| 0 <= j < i ==> #[trigger] generations@[j] == 0,
        {
            generations.push(0);
        }
        self.key_tracking_states = states;
        self.key_tracking_generations = generations;
        self.repeat_key = None;
        self.repeat_mode = RepeatMode::Forward;
        self.physical_modifiers = Modifiers(0);
        self.modifiers_acquired = false;
        self.shortcut_saw_non_modifier = false;
        self.chord_full_set_held = false;
        self.shortcut_already_triggered = false;
        self.shortcut_fired = false;
        self.engine_tracked_mods = Modifiers(0);
        self.voice_ptt_keycode = None;
        self.voice_ptt_pressed = false;
        self.voice_ptt_released = false;
    }

    /// True iff the switch chord completed since the last call; reading
    /// clears the latch.
    pub fn take_switch_chord_fired(&mut self) -> (fired: bool)
        ensures
            fired == old(self).shortcut_fired,
            !final(self).shortcut_fired,
            final(self).chord() == old(self).chord(),
    {
        let fired = self.shortcut_fired;
        self.shortcut_fired = false;
        fired
    }

    /// True iff push-to-talk started since the last call; reading clears it.
    pub fn take_voice_ptt_pressed(&mut self) -> (pressed: bool)
        ensures
            pressed == old(self).voice_ptt_pressed,
            !final(self).voice_ptt_pressed,
            final(self).voice_ptt_keycode == old(self).voice_ptt_keycode,
    {
        let pressed = self.voice_ptt_pressed;
        self.voice_ptt_pressed = false;
        pressed
    }

    /// True iff push-to-talk ended since the last call; reading clears it.
    pub fn take_voice_ptt_released(&mut self) -> (released: bool)
        ensures
            released == old(self).voice_ptt_released,
            !final(self).voice_ptt_released,
            final(self).voice_ptt_keycode == old(self).voice_ptt_keycode,
    {
        let released = self.voice_ptt_released;
        self.voice_ptt_released = false;
        released
    }

    /// Current grab epoch.
    pub fn active_generation(&self) -> (g: u32)
        ensures
            g == self.active_generation,
    {
        self.active_generation
    }

    /// The modifiers that count for shortcut detection: tracked physical
    /// state plus the xkb sample.
    pub fn shortcut_modifiers(&self, xkb_mods_depressed: u32) -> (m: Modifiers)
        ensures
            m.0 == self.physical_modifiers.0 | xkb_mods_depressed,
    {
        Modifiers(self.physical_modifiers.0 | xkb_mods_depressed)
    }

    /// Advance the switch-chord gesture by one modifier-key transition and
    /// report whether this is the release that completes the switch.
    pub fn track_switch_modifier(&mut self, bit: Modifiers, pressed: bool) -> (fired: bool)
        ensures
            (final(self).chord(), fired) == chord_step(old(self).chord(), bit.0, pressed),
            final(self).engine_tracked_mods == old(self).engine_tracked_mods,
            final(self).shortcut_fired == old(self).shortcut_fired,
            final(self).modifiers_acquired == old(self).modifiers_acquired,
            final(self).voice_ptt_keycode == old(self).voice_ptt_keycode,
            final(self).voice_ptt_pressed == old(self).voice_ptt_pressed,
            final(self).voice_ptt_released == old(self).voice_ptt_released,
            final(self).active_generation == old(self).active_generation,
    {
        let chord_mods = default_switch_binding().modifiers;
        let is_chord_mod = (chord_mods.0 & bit.0) != 0;
        if pressed {
            if is_chord_mod && (self.physical_modifiers.0 & chord_mods.0) == 0 {
                self.shortcut_saw_non_modifier = false;
                self.chord_full_set_held = false;
                self.shortcut_already_triggered = false;
            }
            self.physical_modifiers = Modifiers(self.physical_modifiers.0 | bit.0);
            if (self.physical_modifiers.0 & chord_mods.0) == chord_mods.0 {
                self.chord_full_set_held = true;
            }
            proof {
                let b = bit.0;
                assert(b & 5 == 5 & b) by (bit_vector);
            }
            false
        } else {
            let fired = is_chord_mod && self.chord_full_set_held && !self.shortcut_saw_non_modifier
                && !self.shortcut_already_triggered;
            if fired {
                self.shortcut_already_triggered = true;
            }
            self.physical_modifiers = Modifiers(self.physical_modifiers.0 & !bit.0);
            if (self.physical_modifiers.0 & chord_mods.0) == 0 {
                self.shortcut_saw_non_modifier = false;
                self.chord_full_set_held = false;
                self.shortcut_already_triggered = false;
            }
            proof {
                let b = bit.0;
                assert(b & 5 == 5 & b) by (bit_vector);
            }
            fired
        }
    }

    /// Route one decoded key event and update the routing state.
    ///
    /// The first event of a generation seeds the tracked modifiers from the
    /// xkb sample. A modifier key drives the switch-chord gesture (a firing
    /// release latches `shortcut_fired`); any other pressed key taints the
    /// gesture. Then, in order:
    /// - the release of the held push-to-talk key ends push-to-talk;
    /// - V (or v) pressed with Super held starts push-to-talk;
    /// - a modifier release whose press the engine never saw is withheld;
    /// - everything else goes to the engine (a modifier press is recorded
    ///   so that its release is later forwarded symmetrically).
    pub fn dispatch_key(&mut self, key: &DecodedKeyEvent, xkb_mods_depressed: u32) -> (route: KeyRoute)
        ensures
            ({
                let pressed = key.state == 1;
                let bit = modifier_bit_spec(key.keysym);
                let seeded = if old(self).modifiers_acquired {
                    old(self).physical_modifiers.0
                } else {
                    old(self).physical_modifiers.0 | (xkb_mods_depressed & MOD_BLOCKING)
                };
                let before = ChordModel { physical: seeded, ..old(self).chord() };
                let step = chord_step(before, bit, pressed);
                let after = if bit != 0 {
                    step.0
                } else if pressed {
                    ChordModel { saw_non_modifier: true, ..before }
                } else {
                    before
                };
                let fired = bit != 0 && step.1;
                let ptt_release = !pressed && old(self).voice_ptt_keycode == Some(key.keycode);
                let ptt_press = pressed && bit == 0 && (key.keysym == KEY_V || key.keysym
                    == KEY_CAPITAL_V) && (seeded | xkb_mods_depressed) & MOD_SUPER != 0;
                let engine_mods = old(self).engine_tracked_mods.0;
                &&& final(self).modifiers_acquired
                &&& final(self).chord() == after
                &&& final(self).shortcut_fired == (old(self).shortcut_fired || fired)
                &&& final(self).active_generation == old(self).active_generation
                &&& ptt_release ==> {
                    &&& route == KeyRoute::VoicePttReleased
                    &&& final(self).voice_ptt_keycode is None
                    &&& final(self).voice_ptt_released
                    &&& final(self).voice_ptt_pressed == old(self).voice_ptt_pressed
                }
                &&& !ptt_release && ptt_press ==> {
                    &&& route == KeyRoute::VoicePttPressed
                    &&& final(self).voice_ptt_keycode == Some(key.keycode)
                    &&& final(self).voice_ptt_pressed
                    &&& final(self).voice_ptt_released == old(self).voice_ptt_released
                }
                &&& !ptt_release && !ptt_press ==> {
                    &&& final(self).voice_ptt_keycode == old(self).voice_ptt_keycode
                    &&& final(self).voice_ptt_pressed == old(self).voice_ptt_pressed
                    &&& final(self).voice_ptt_released == old(self).voice_ptt_released
                    &&& !pressed ==> route == (if bit != 0 && engine_mods & bit == 0 {
                        KeyRoute::SuppressedRelease
                    } else {
                        KeyRoute::Engine
                    })
                    &&& pressed ==> route == KeyRoute::Engine
                }
                &&& final(self).engine_tracked_mods.0 == (if bit != 0 && !pressed {
                    engine_mods & !bit
                } else if bit != 0 && pressed && !ptt_release && !ptt_press {
                    engine_mods | bit
                } else {
                    engine_mods
                })
            }),
    {
        self.acquire_modifiers_if_needed(xkb_mods_depressed);
        let pressed = key.state == WL_KEYBOARD_KEY_STATE_PRESSED;
        let bit = modifier_bit_for_keysym(key.keysym);
        let is_modifier_key = bit != 0;
        let mut suppress_engine_release = false;
        if is_modifier_key {
            let chord_fired = self.track_switch_modifier(Modifiers(bit), pressed);
            if chord_fired {
                self.shortcut_fired = true;
            }
            if !pressed {
                if (self.engine_tracked_mods.0 & bit) == 0 {
                    suppress_engine_release = true;
                }
                self.engine_tracked_mods = Modifiers(self.engine_tracked_mods.0 & !bit);
            }
        } else {
            if pressed {
                self.shortcut_saw_non_modifier = true;
            }
        }
        if !pressed && self.voice_ptt_keycode == Some(key.keycode) {
            self.voice_ptt_keycode = None;
            self.voice_ptt_released = true;
            return KeyRoute::VoicePttReleased;
        }
        if pressed && !is_modifier_key && is_voice_ptt_key(key.keysym) && self.shortcut_modifiers(
            xkb_mods_depressed,
        ).intersects(Modifiers(MOD_SUPER)) {
            self.voice_ptt_keycode = Some(key.keycode);
            self.voice_ptt_pressed = true;
            return KeyRoute::VoicePttPressed;
        }
        if !pressed {
            if suppress_engine_release {
                return KeyRoute::SuppressedRelease;
            }
            return KeyRoute::Engine;
        }
        if is_modifier_key {
            self.engine_tracked_mods = Modifiers(self.engine_tracked_mods.0 | bit);
        }
        KeyRoute::Engine
    }

    /// Record that a key was forwarded to the application: repeats of it are
    /// synthetic presses to the virtual keyboard until it is released.
    pub fn on_forward(&mut self, key: DecodedKeyEvent)
        ensures
            final(self).repeat_key == Some(key),
            final(self).repeat_mode == RepeatMode::Forward,
            final(self).chord() == old(self).chord(),
    {
        self.repeat_key = Some(key);
        self.repeat_mode = RepeatMode::Forward;
    }

    /// Record that the engine consumed a key: repeats of it re-enter the
    /// engine with `is_repeat: true` until it is released.
    pub fn on_consumed(&mut self, key: DecodedKeyEvent)
        ensures
            final(self).repeat_key == Some(key),
            final(self).repeat_mode == RepeatMode::Engine,
            final(self).chord() == old(self).chord(),
    {
        self.repeat_key = Some(key);
        self.repeat_mode = RepeatMode::Engine;
    }

    /// Record a key release: when it is the held key, repeating stops.
    pub fn on_release(&mut self, key: &DecodedKeyEvent)
        ensures
            (old(self).repeat_key matches Some(k) && k.keycode == key.keycode) ==> {
                &&& final(self).repeat_key is None
                &&& final(self).repeat_mode == RepeatMode::Forward
            },
            !(old(self).repeat_key matches Some(k) && k.keycode == key.keycode) ==> {
                &&& final(self).repeat_key == old(self).repeat_key
                &&& final(self).repeat_mode == old(self).repeat_mode
            },
            final(self).chord() == old(self).chord(),
    {
        let matches = match &self.repeat_key {
            Some(last) => last.keycode == key.keycode,
            None => false,
        };
        if matches {
            self.repeat_key = None;
            self.repeat_mode = RepeatMode::Forward;
        }
    }

    /// What one repeat tick should do: nothing when no key is held, otherwise
    /// the recorded repeat mode.
    pub fn next_repeat(&self) -> (mode: Option<RepeatMode>)
        ensures
            self.repeat_key is None ==> mode is None,
            self.repeat_key is Some ==> mode == Some(self.repeat_mode),
    {
        match &self.repeat_key {
            None => None,
            Some(_) => Some(self.repeat_mode),
        }
    }

    /// Finish an engine-mode repeat tick with the engine's answer: a consumed
    /// repeat continues; a declined one ends the repeat chain.
    pub fn finish_engine_repeat(&mut self, consumed: bool) -> (outcome: RepeatOutcome)
        ensures
            consumed ==> outcome == RepeatOutcome::Consumed && final(self).repeat_key
                == old(self).repeat_key && final(self).repeat_mode == old(self).repeat_mode,
            !consumed ==> outcome == RepeatOutcome::Stopped && final(self).repeat_key is None
                && final(self).repeat_mode == RepeatMode::Forward,
            final(self).chord() == old(self).chord(),
    {
        if consumed {
            RepeatOutcome::Consumed
        } else {
            self.repeat_key = None;
            self.repeat_mode = RepeatMode::Forward;
            RepeatOutcome::Stopped
        }
    }

    /// Seed the tracked physical modifiers from the first xkb sample of the
    /// generation, so a modifier already held when the grab started (whose
    /// press the compositor never replays) is still seen. Only the blocking
    /// modifiers are seeded; locks stay owned by xkb. Idempotent within a
    /// generation.
    pub fn acquire_modifiers_if_needed(&mut self, xkb_mods_depressed: u32)
        ensures
            final(self).modifiers_acquired,
            final(self).physical_modifiers.0 == (if old(self).modifiers_acquired {
                old(self).physical_modifiers.0
            } else {
                old(self).physical_modifiers.0 | (xkb_mods_depressed & MOD_BLOCKING)
            }),
            final(self).shortcut_saw_non_modifier == old(self).shortcut_saw_non_modifier,
            final(self).chord_full_set_held == old(self).chord_full_set_held,
            final(self).shortcut_already_triggered == old(self).shortcut_already_triggered,
            final(self).shortcut_fired == old(self).shortcut_fired,
            final(self).engine_tracked_mods == old(self).engine_tracked_mods,
            final(self).voice_ptt_keycode == old(self).voice_ptt_keycode,
            final(self).voice_ptt_pressed == old(self).voice_ptt_pressed,
            final(self).voice_ptt_released == old(self).voice_ptt_released,
            final(self).active_generation == old(self).active_generation,
    {
        if self.modifiers_acquired {
            return;
        }
        self.modifiers_acquired = true;
        self.physical_modifiers = Modifiers(
            self.physical_modifiers.0 | (xkb_mods_depressed & MOD_BLOCKING),
        );
    }
}

} // verus!
