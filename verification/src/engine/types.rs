//! Framework-side engine values: engine kinds, key results, availability,
//! keyboard modes and key symbols.
use vstd::prelude::*;

verus! {

/// What an engine does.
#[derive(Debug, Clone, Copy, PartialEq, Eq, Structural)]
pub enum EngineType {
    Keyboard,
    Voice,
}

/// How a keyboard engine handled a key.
#[derive(Debug, Clone, Copy, PartialEq, Eq, Structural)]
pub enum KeyProcessResult {
    NotHandled,
    Handled,
    PassThrough,
}

/// Readiness of an engine.
#[derive(Debug, Clone, Copy, PartialEq, Eq, Structural)]
pub enum EngineAvailability {
    Uninitialized,
    Preparing,
    Ready,
    Failed,
}

/// Whether a keyboard-mode change deserves an on-screen indicator.
#[derive(Debug, Clone, Copy, PartialEq, Eq, Structural)]
pub enum ModeSalience {
    Quiet,
    Notable,
}

/// One keyboard mode an engine offers.
#[derive(Debug, Clone, PartialEq, Eq)]
pub struct EngineMode {
    pub id: String,
    pub label: String,
    pub display_label: Option<String>,
    pub icon: Option<String>,
    pub profile_id: Option<String>,
    pub profile_label: Option<String>,
    pub description: Option<String>,
    pub is_active: bool,
    pub salience: ModeSalience,
}

/// A key symbol as the framework names it.
#[derive(Debug, Clone, Copy, PartialEq, Eq, Structural)]
pub enum KeySym {
    Ascii(char),
    ShiftL,
    ShiftR,
    ControlL,
    ControlR,
    AltL,
    AltR,
    MetaL,
    MetaR,
    BackSpace,
    Tab,
    Return,
    Escape,
    Left,
    Up,
    Right,
    Down,
    Home,
    End,
    PageUp,
    PageDown,
    /// Function key `F<n>`.
    F(u8),
    /// Any other X keysym value.
    Raw(u32),
}

/// A command an engine offers to its users.
#[derive(Debug, Clone, PartialEq, Eq)]
pub struct Command {
    pub id: String,
    pub label: String,
}

} // verus!
