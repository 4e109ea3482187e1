//! The engine protocol as the host reads it: requests the host sends and the
//! typed records engines answer with. The byte framing is done at the edge;
//! these are the values the policy works on.
use vstd::prelude::*;

verus! {

/// Engine kind as declared on the wire.
#[derive(Debug, Clone, Copy, PartialEq, Eq, Structural)]
pub enum WireEngineKind {
    Keyboard,
    Voice,
}

/// Key state on the wire.
#[derive(Debug, Clone, Copy, PartialEq, Eq, Structural)]
pub enum WireKeyState {
    Press,
    Release,
}

/// One key event sent to an engine.
#[derive(Debug, Clone, Copy, PartialEq, Eq, Structural)]
pub struct WireKeyEvent {
    pub context_id: u64,
    pub state: WireKeyState,
    pub keycode: u32,
    pub keysym: u32,
    pub modifiers: u32,
    pub unicode: u32,
    pub time: u64,
    pub is_repeat: bool,
    pub base_keysym: u32,
}

/// A request from the host to an engine worker.
#[derive(Debug, Clone, PartialEq, Eq)]
pub enum Request {
    Initialize,
    Deactivate,
    FocusIn(u64),
    FocusOut(u64),
    Reset(u64),
    ReloadConfig,
    ListCommands,
    InvokeCommand(String),
    ProcessKey(WireKeyEvent),
    ListModes,
    GetActiveMode(u64),
    SetActiveMode { context_id: u64, mode_id: Option<String> },
    CommitCandidate { context_id: u64, index: i32 },
    Availability,
    ProcessAudio(Vec<u8>),
    Shutdown,
}

/// Key result on the wire.
#[derive(Debug, Clone, Copy, PartialEq, Eq, Structural)]
pub enum WireKeyResult {
    NotHandled,
    Handled,
    PassThrough,
}

/// Availability on the wire.
#[derive(Debug, Clone, Copy, PartialEq, Eq, Structural)]
pub enum WireAvailability {
    Uninitialized,
    Preparing,
    Ready,
    Failed,
}

/// Mode salience on the wire.
#[derive(Debug, Clone, Copy, PartialEq, Eq, Structural)]
pub enum WireModeSalience {
    Quiet,
    Notable,
}

/// A keyboard mode on the wire.
#[derive(Debug, Clone, PartialEq, Eq)]
pub struct WireMode {
    pub id: String,
    pub label: String,
    pub display_label: Option<String>,
    pub icon: Option<String>,
    pub profile_id: Option<String>,
    pub profile_label: Option<String>,
    pub description: Option<String>,
    pub is_active: bool,
    pub salience: WireModeSalience,
}

/// Preedit decoration on the wire.
#[derive(Debug, Clone, Copy, PartialEq, Eq, Structural)]
pub enum WirePreeditFormat {
    Plain,
    Underline,
    Highlight,
}

/// A preedit segment on the wire.
#[derive(Debug, Clone, PartialEq, Eq)]
pub struct WirePreeditSegment {
    pub text: String,
    pub format: WirePreeditFormat,
}

/// A candidate on the wire.
#[derive(Debug, Clone, PartialEq, Eq)]
pub struct WireCandidate {
    pub text: String,
    pub comment: Option<String>,
    pub label: Option<String>,
}

/// A composition snapshot on the wire.
#[derive(Debug, Clone, PartialEq, Eq)]
pub struct WireComposition {
    pub segments: Vec<WirePreeditSegment>,
    pub cursor_pos: i32,
    pub candidates: Vec<WireCandidate>,
    pub page: i32,
    pub page_size: i32,
    pub total: i32,
    pub selected: i32,
    pub has_prev: bool,
    pub has_next: bool,
    pub host_managed_selection: u32,
}

/// The identity an engine announces in its hello: its name and its kind.
#[derive(Debug, Clone, PartialEq, Eq)]
pub struct EngineHello {
    pub engine: String,
    pub kind: WireEngineKind,
}

/// The kind of a protocol frame.
#[derive(Debug, Clone, Copy, PartialEq, Eq, Structural)]
pub enum MessageType {
    Request,
    Response,
    Error,
}

/// A command an engine offers, on the wire.
#[derive(Debug, Clone, PartialEq, Eq)]
pub struct WireCommand {
    pub id: String,
    pub label: String,
}

/// One record of an engine's reply to a request.
#[derive(Debug, Clone, PartialEq, Eq)]
pub enum ReplyRecord {
    /// The request succeeded.
    Success,
    /// The request failed, with a tab-separated error text.
    Error(String),
    KeyResult(WireKeyResult),
    Availability(WireAvailability),
    Text(String),
    /// One of the modes the engine offers.
    Mode(WireMode),
    /// One of the commands the engine offers.
    Command(WireCommand),
    /// The mode now active.
    ActiveMode(WireMode),
    /// A new composition for the input context.
    Composition(WireComposition),
    /// Text to commit into the input context.
    Commit(String),
    /// Clear the input context's composition.
    Clear,
}

} // verus!
