//! The settings application's model of daemon state and its panel options:
//! configuration entries as listed over IPC, display settings with their
//! documented defaults, the menus that edit them, and the requests its
//! actions send.
use vstd::prelude::*;

use crate::config_value::{key_listed, listed_under};
use crate::paths::{join_path, join_path_str};
use crate::text::{opt_str_view, str_eq};

verus! {

/// A change notice from the daemon subscription.
#[derive(Debug, Clone, PartialEq, Eq)]
pub enum Event {
    /// Daemon state changed; the snapshot should be reloaded.
    Changed,
    /// The subscription was lost, with the reason.
    Disconnected(String),
}

/// A command an engine offers.
#[derive(Debug, Clone, PartialEq, Eq)]
pub struct EngineCommand {
    pub id: String,
    pub label: String,
}

/// A language known to the daemon.
#[derive(Debug, Clone, PartialEq, Eq)]
pub struct Language {
    pub tag: String,
    pub active: bool,
}

/// The value of a configuration entry, as far as the settings UI reads it.
#[derive(Debug, Clone, PartialEq, Eq)]
pub enum EntryValue {
    /// A JSON string.
    Text(String),
    /// JSON `null`.
    Null,
    /// A boolean.
    Bool(bool),
    /// Any other JSON value, in its compact JSON text.
    Json(String),
}

/// A configuration entry as `config.list` reports it.
#[derive(Debug, Clone, PartialEq, Eq)]
pub struct ConfigEntry {
    pub key: String,
    /// The declared type (`string`, `int`, `bool`, `float`, `array`).
    pub field_type: String,
    pub value: EntryValue,
    /// Where the value comes from (`user` or `default`).
    pub source: String,
    pub label: String,
    pub section: String,
    pub choices: Vec<String>,
}

/// The text a value shows in an edit field: a string as is, nothing for
/// `null`, anything else as its JSON text.
pub open spec fn value_text_spec(v: EntryValue) -> Seq<char> {
    match v {
        EntryValue::Text(s) => s@,
        EntryValue::Null => Seq::empty(),
        EntryValue::Bool(b) => if b {
            "true"@
        } else {
            "false"@
        },
        EntryValue::Json(t) => t@,
    }
}

/// The text a value shows in an edit field.
pub fn value_as_text(value: &EntryValue) -> (t: String)
    ensures
        t@ == value_text_spec(*value),
{
    match value {
        EntryValue::Text(s) => s.clone(),
        EntryValue::Null => String::new(),
        EntryValue::Bool(b) => if *b {
            String::from_str("true")
        } else {
            String::from_str("false")
        },
        EntryValue::Json(t) => t.clone(),
    }
}

impl ConfigEntry {
    /// The label shown for the entry: its label, or its key when it has none.
    pub fn display_label(&self) -> (l: &str)
        ensures
            self.label@.len() == 0 ==> l@ == self.key@,
            self.label@.len() > 0 ==> l@ == self.label@,
    {
        if self.label.unicode_len() == 0 {
            self.key.as_str()
        } else {
            self.label.as_str()
        }
    }

    /// The entry's value as edit-field text.
    pub fn text_value(&self) -> (t: String)
        ensures
            t@ == value_text_spec(self.value),
    {
        value_as_text(&self.value)
    }

    /// The section the entry is listed under: its own, or `general`.
    pub fn section_label(&self) -> (s: &str)
        ensures
            self.section@.len() == 0 ==> s@ == "general"@,
            self.section@.len() > 0 ==> s@ == self.section@,
    {
        if self.section.unicode_len() == 0 {
            "general"
        } else {
            self.section.as_str()
        }
    }

    /// The index of the current value among the entry's choices, or 0 when it
    /// is none of them.
    pub fn selected_choice(&self) -> (i: usize)
        ensures
            (exists|j: int| 0 <= j < self.choices@.len() && #[trigger] self.choices@[j]@
                == value_text_spec(self.value)) ==> {
                &&& i < self.choices@.len()
                &&& self.choices@[i as int]@ == value_text_spec(self.value)
                &&& forall|j: int| 0 <= j < i ==> #[trigger] self.choices@[j]@ != value_text_spec(
                    self.value,
                )
            },
            !(exists|j: int| 0 <= j < self.choices@.len() && #[trigger] self.choices@[j]@
                == value_text_spec(self.value)) ==> i == 0,
    {
        let text = self.text_value();
        let n = self.choices.len();
        let mut i: usize = 0;
        while i < n
            invariant
                n == self.choices@.len(),
                text@ == value_text_spec(self.value),
                0 <= i <= n,
                forall|j: int| 0 <= j < i ==> #[trigger] self.choices@[j]@ != text@,
            decreases n - i,
        {
            if str_eq(self.choices[i].as_str(), text.as_str()) {
                return i;
            }
            i = i + 1;
        }
        0
    }
}

/// Panel theme used when none is configured.
pub const DEFAULT_THEME: &'static str = "auto";

/// Candidate layout used when none is configured.
pub const DEFAULT_LAYOUT: &'static str = "horizontal";

/// Font family class used when none, or no valid one, is configured.
pub const DEFAULT_FONT_FAMILY: &'static str = "default";

/// Anchor probe timeout used when none is configured.
pub const DEFAULT_ANCHOR_TIMEOUT_MS: i64 = 150;

/// The number of font family classes.
pub const FONT_FAMILY_COUNT: usize = 4;

/// The font family classes that change rendering, in menu order.
pub open spec fn font_families() -> Seq<Seq<char>> {
    seq!["default"@, "sans"@, "serif"@, "mono"@]
}

/// The font family class at menu position `i` (`0 <= i < 4`).
pub fn font_family_at(i: usize) -> (f: &'static str)
    requires
        i < FONT_FAMILY_COUNT,
    ensures
        f@ == font_families()[i as int],
{
    if i == 0 {
        "default"
    } else if i == 1 {
        "sans"
    } else if i == 2 {
        "serif"
    } else {
        "mono"
    }
}

/// The code of `c` with ASCII upper-case letters lowered.
pub open spec fn ascii_lower_code(c: char) -> u32 {
    if 'A' <= c && c <= 'Z' {
        (c as u32 + 32) as u32
    } else {
        c as u32
    }
}

/// Whether `a` and `b` are equal up to ASCII case.
pub open spec fn eq_ignore_ascii_case_spec(a: Seq<char>, b: Seq<char>) -> bool {
    &&& a.len() == b.len()
    &&& forall|i: int| 0 <= i < a.len() ==> ascii_lower_code(#[trigger] a[i]) == ascii_lower_code(b[i])
}

fn lower_code(c: char) -> (code: u32)
    ensures
        code == ascii_lower_code(c),
{
    if 'A' <= c && c <= 'Z' {
        c as u32 + 32
    } else {
        c as u32
    }
}

/// Whether `a` and `b` are equal up to ASCII case.
pub fn eq_ignore_ascii_case(a: &str, b: &str) -> (eq: bool)
    ensures
        eq == eq_ignore_ascii_case_spec(a@, b@),
{
    let n = a.unicode_len();
    if n != b.unicode_len() {
        return false;
    }
    let mut i: usize = 0;
    while i < n
        invariant
            n == a@.len(),
            n == b@.len(),
            0 <= i <= n,
            forall|j: int| 0 <= j < i ==> ascii_lower_code(#[trigger] a@[j]) == ascii_lower_code(b@[j]),
        decreases n - i,
    {
        if lower_code(a.get_char(i)) != lower_code(b.get_char(i)) {
            return false;
        }
        i = i + 1;
    }
    true
}

/// The family class a configured value reads back as: the class equal to it
/// up to ASCII case, or the default class for an unset or unrecognised
/// value.
pub open spec fn font_family_class_spec(value: Option<Seq<char>>) -> Seq<char> {
    let v = match value {
        Some(v) => v,
        None => "default"@,
    };
    if eq_ignore_ascii_case_spec(v, "default"@) {
        "default"@
    } else if eq_ignore_ascii_case_spec(v, "sans"@) {
        "sans"@
    } else if eq_ignore_ascii_case_spec(v, "serif"@) {
        "serif"@
    } else if eq_ignore_ascii_case_spec(v, "mono"@) {
        "mono"@
    } else {
        "default"@
    }
}

/// The family class a configured `display.font_family` value reads back as.
pub fn font_family_class(value: Option<&str>) -> (f: &'static str)
    ensures
        f@ == font_family_class_spec(opt_str_view(value)),
{
    let v = match value {
        Some(v) => v,
        None => "default",
    };
    if eq_ignore_ascii_case(v, "default") {
        "default"
    } else if eq_ignore_ascii_case(v, "sans") {
        "sans"
    } else if eq_ignore_ascii_case(v, "serif") {
        "serif"
    } else if eq_ignore_ascii_case(v, "mono") {
        "mono"
    } else {
        "default"
    }
}

/// The menu position of a family class: its place in [`font_families`], or
/// 0 (the default class) for a value that is none of them.
pub open spec fn family_position(f: Seq<char>) -> int {
    if f == "sans"@ {
        1
    } else if f == "serif"@ {
        2
    } else if f == "mono"@ {
        3
    } else {
        0
    }
}

/// The family class at a menu position, positions out of range clamped to
/// the first or last class.
pub open spec fn family_at(index: int) -> Seq<char> {
    font_families()[if index <= 0 {
        0
    } else if index >= 3 {
        3
    } else {
        index
    }]
}

/// The menu position of a family class (0, the default, for an unknown one).
pub fn font_family_index(family: &str) -> (i: usize)
    ensures
        i == family_position(family@),
{
    proof {
        reveal_strlit("default");
        reveal_strlit("sans");
        reveal_strlit("serif");
        reveal_strlit("mono");
        assert("default"@.len() != "sans"@.len() && "default"@.len() != "serif"@.len());
        assert("default"@.len() != "mono"@.len() && "sans"@.len() != "serif"@.len());
        assert("sans"@[0] != "mono"@[0] && "serif"@.len() != "mono"@.len());
    }
    if str_eq(family, "default") {
        0
    } else if str_eq(family, "sans") {
        1
    } else if str_eq(family, "serif") {
        2
    } else if str_eq(family, "mono") {
        3
    } else {
        0
    }
}

/// The family class a menu position selects, with out-of-range positions
/// clamped to the first or last class.
pub fn font_family_for_index(index: i32) -> (f: &'static str)
    ensures
        f@ == family_at(index as int),
{
    let i: usize = if index <= 0 {
        0
    } else if index >= 3 {
        3
    } else {
        index as usize
    };
    font_family_at(i)
}

/// The menu position of a panel theme value: `light` 1, `dark` 2,
/// anything else 0.
pub open spec fn theme_position(theme: Seq<char>) -> i32 {
    if theme == "light"@ {
        1
    } else if theme == "dark"@ {
        2
    } else {
        0
    }
}

/// The panel theme at a menu position: 1 `light`, 2 `dark`, otherwise `auto`.
pub open spec fn theme_at(index: i32) -> Seq<char> {
    if index == 1 {
        "light"@
    } else if index == 2 {
        "dark"@
    } else {
        "auto"@
    }
}

/// The menu position of a candidate layout value: `vertical` 1, anything
/// else 0.
pub open spec fn layout_position(layout: Seq<char>) -> i32 {
    if layout == "vertical"@ {
        1
    } else {
        0
    }
}

/// The candidate layout at a menu position: 1 `vertical`, otherwise
/// `horizontal`.
pub open spec fn layout_at(index: i32) -> Seq<char> {
    if index == 1 {
        "vertical"@
    } else {
        "horizontal"@
    }
}

/// The menu position of a panel theme: `light` 1, `dark` 2, anything else
/// (`auto`) 0.
pub fn theme_index(theme: &str) -> (i: i32)
    ensures
        i == theme_position(theme@),
{
    proof {
        reveal_strlit("light");
        reveal_strlit("dark");
        assert("light"@.len() != "dark"@.len());
    }
    if str_eq(theme, "light") {
        1
    } else if str_eq(theme, "dark") {
        2
    } else {
        0
    }
}

/// The panel theme a menu position selects: 1 `light`, 2 `dark`, otherwise
/// `auto`.
pub fn theme_for_index(index: i32) -> (t: &'static str)
    ensures
        t@ == theme_at(index),
{
    if index == 1 {
        "light"
    } else if index == 2 {
        "dark"
    } else {
        "auto"
    }
}

/// The menu position of a candidate layout: 1 for `vertical`, else 0.
pub fn layout_index(layout: &str) -> (i: i32)
    ensures
        i == layout_position(layout@),
{
    if str_eq(layout, "vertical") {
        1
    } else {
        0
    }
}

/// The candidate layout a menu position selects: 1 `vertical`, otherwise
/// `horizontal`.
pub fn layout_for_index(index: i32) -> (l: &'static str)
    ensures
        l@ == layout_at(index),
{
    if index == 1 {
        "vertical"
    } else {
        "horizontal"
    }
}

/// Where the platform settings live: under `$XDG_CONFIG_HOME`, else under
/// `$HOME/.config`, else in `/tmp`; an empty variable counts as unset.
pub open spec fn platform_config_path_spec(
    config_home: Option<Seq<char>>,
    home: Option<Seq<char>>,
) -> Seq<char> {
    match config_home {
        Some(c) if c.len() > 0 => join_path(c, "typio/platform.toml"@),
        _ => match home {
            Some(h) if h.len() > 0 => join_path(h, ".config/typio/platform.toml"@),
            _ => "/tmp/typio-platform.toml"@,
        },
    }
}

/// The platform settings path for the given `XDG_CONFIG_HOME` and `HOME`.
pub fn platform_config_path(config_home: Option<&str>, home: Option<&str>) -> (p: String)
    ensures
        p@ == platform_config_path_spec(opt_str_view(config_home), opt_str_view(home)),
{
    match config_home {
        Some(c) if c.unicode_len() > 0 => {
            return join_path_str(c, "typio/platform.toml");
        },
        _ => {},
    }
    match home {
        Some(h) if h.unicode_len() > 0 => join_path_str(h, ".config/typio/platform.toml"),
        _ => String::from_str("/tmp/typio-platform.toml"),
    }
}

/// The oldest daemon protocol the settings application speaks.
pub const MIN_DAEMON_PROTOCOL: u64 = 3;

/// Whether a daemon announcing `protocol` (absent counts as 0) is new enough.
pub fn daemon_protocol_supported(protocol: Option<u64>) -> (ok: bool)
    ensures
        ok == (match protocol {
            Some(p) => p >= MIN_DAEMON_PROTOCOL,
            None => false,
        }),
{
    match protocol {
        Some(p) => p >= MIN_DAEMON_PROTOCOL,
        None => false,
    }
}

/// A change the settings UI asks the daemon for.
#[derive(Debug, Clone, PartialEq, Eq)]
pub enum Action {
    UseLanguage(String),
    /// Activate engine `name` of `kind` (`voice` or a keyboard kind).
    UseEngine { kind: String, name: String },
    SetConfig { key: String, value: String },
    UnsetConfig(String),
    Invoke { engine: String, command: String },
}

/// The IPC method an action calls.
pub fn action_method(action: &Action) -> (m: &'static str)
    ensures
        action is UseLanguage ==> m@ == "language.use"@,
        action matches Action::UseEngine { kind, .. } ==> (kind@ == "voice"@ ==> m@
            == "voice.use"@) && (kind@ != "voice"@ ==> m@ == "keyboard.use"@),
        action is SetConfig ==> m@ == "config.set"@,
        action is UnsetConfig ==> m@ == "config.unset"@,
        action is Invoke ==> m@ == "engine.invoke"@,
{
    match action {
        Action::UseLanguage(_) => "language.use",
        Action::UseEngine { kind, .. } => if str_eq(kind.as_str(), "voice") {
            "voice.use"
        } else {
            "keyboard.use"
        },
        Action::SetConfig { .. } => "config.set",
        Action::UnsetConfig(_) => "config.unset",
        Action::Invoke { .. } => "engine.invoke",
    }
}

/// The status line shown once an action succeeded.
pub fn action_success_message(action: &Action) -> (m: String)
    ensures
        action matches Action::UseLanguage(tag) ==> m@ == "Active language changed to "@ + tag@,
        action matches Action::UseEngine { kind, name } ==> m@ == "Active "@ + kind@
            + " engine changed to "@ + name@,
        action matches Action::SetConfig { key, .. } ==> m@ == "Saved "@ + key@,
        action matches Action::UnsetConfig(key) ==> m@ == "Restored the default for "@ + key@,
        action matches Action::Invoke { engine, command } ==> m@ == "Ran "@ + command@ + " for "@
            + engine@,
{
    match action {
        Action::UseLanguage(tag) => String::from_str("Active language changed to ").concat(
            tag.as_str(),
        ),
        Action::UseEngine { kind, name } => String::from_str("Active ").concat(kind.as_str()).concat(
            " engine changed to ",
        ).concat(name.as_str()),
        Action::SetConfig { key, .. } => String::from_str("Saved ").concat(key.as_str()),
        Action::UnsetConfig(key) => String::from_str("Restored the default for ").concat(
            key.as_str(),
        ),
        Action::Invoke { engine, command } => String::from_str("Ran ").concat(
            command.as_str(),
        ).concat(" for ").concat(engine.as_str()),
    }
}

/// The key whose edit buffer an action settles, if any.
pub fn action_edited_key(action: &Action) -> (k: Option<&String>)
    ensures
        action matches Action::SetConfig { key, .. } ==> k == Some(key),
        action matches Action::UnsetConfig(key) ==> k == Some(key),
        !(action is SetConfig || action is UnsetConfig) ==> k is None,
{
    match action {
        Action::SetConfig { key, .. } => Some(key),
        Action::UnsetConfig(key) => Some(key),
        _ => None,
    }
}

/// The outcome of draining subscription events.
#[derive(Debug, Clone, PartialEq, Eq)]
pub struct PollOutcome {
    /// Reload the daemon snapshot now.
    pub refresh: bool,
    /// Whether the daemon connection is still considered up.
    pub connected: bool,
    /// The status line to show, when an event set one.
    pub status: Option<String>,
}

/// The last disconnection reason among `events`, if any.
pub open spec fn last_disconnect(events: Seq<Event>) -> Option<Seq<char>>
    decreases events.len(),
{
    if events.len() == 0 {
        None
    } else {
        match events.last() {
            Event::Disconnected(e) => Some(e@),
            Event::Changed => last_disconnect(events.drop_last()),
        }
    }
}

/// Whether any of `events` reports a change.
pub open spec fn any_changed(events: Seq<Event>) -> bool {
    exists|i: int| 0 <= i < events.len() && events[i] is Changed
}

/// Drain subscription events: a change asks for a reload; a disconnection
/// marks the connection down and reports the last reason. A connection that
/// is down is retried once `retry_due` (the retry interval has passed since
/// the last reload).
pub fn poll_events(events: &Vec<Event>, connected: bool, retry_due: bool) -> (o: PollOutcome)
    ensures
        o.connected == (connected && last_disconnect(events@) is None),
        match last_disconnect(events@) {
            Some(e) => o.status matches Some(s) && s@ == "Daemon connection lost: "@ + e,
            None => o.status is None,
        },
        o.refresh == (any_changed(events@) || (!o.connected && retry_due)),
{
    let n = events.len();
    let mut changed = false;
    let mut connected_now = connected;
    let mut status: Option<String> = None;
    let mut i: usize = 0;
    proof {
        assert(events@.subrange(0, 0) =~= Seq::<Event>::empty());
    }
    while i < n
        invariant
            n == events@.len(),
            0 <= i <= n,
            changed == exists|j: int| 0 <= j < i && events@[j] is Changed,
            connected_now == (connected && last_disconnect(events@.subrange(0, i as int)) is None),
            match last_disconnect(events@.subrange(0, i as int)) {
                Some(e) => status matches Some(s) && s@ == "Daemon connection lost: "@ + e,
                None => status is None,
            },
        decreases n - i,
    {
        let ghost next = events@.subrange(0, i + 1);
        proof {
            assert(next.drop_last() =~= events@.subrange(0, i as int));
            assert(next.last() == events@[i as int]);
        }
        match &events[i] {
            Event::Changed => {
                changed = true;
            },
            Event::Disconnected(e) => {
                connected_now = false;
                status = Some(String::from_str("Daemon connection lost: ").concat(e.as_str()));
            },
        }
        i = i + 1;
    }
    proof {
        assert(events@.subrange(0, n as int) =~= events@);
    }
    let refresh = changed || (!connected_now && retry_due);
    PollOutcome { refresh, connected: connected_now, status }
}

/// A font family class read from the platform file shows at a menu
/// position that writes the same class back, and each menu position reads
/// back as itself.
pub proof fn lemma_font_family_menu_round_trip(value: Option<Seq<char>>, index: int)
    ensures
        family_at(family_position(font_family_class_spec(value))) == font_family_class_spec(value),
        0 <= index < 4 ==> family_position(family_at(index)) == index,
{
    reveal_strlit("default");
    reveal_strlit("sans");
    reveal_strlit("serif");
    reveal_strlit("mono");
    assert("default"@ != "sans"@ && "default"@ != "serif"@ && "default"@ != "mono"@) by {
        assert("default"@.len() != "sans"@.len());
        assert("default"@.len() != "serif"@.len());
        assert("default"@.len() != "mono"@.len());
    }
    assert("sans"@ != "serif"@ && "serif"@ != "mono"@ && "sans"@ != "mono"@) by {
        assert("sans"@.len() != "serif"@.len());
        assert("serif"@.len() != "mono"@.len());
        assert("sans"@[0] != "mono"@[0]);
    }
}

/// A panel theme shown in the settings menu is written back unchanged, and
/// each menu position reads back as itself.
pub proof fn lemma_theme_menu_round_trip(theme: Seq<char>, index: i32)
    ensures
        (theme == "light"@ || theme == "dark"@ || theme == "auto"@) ==> theme_at(
            theme_position(theme),
        ) == theme,
        0 <= index < 3 ==> theme_position(theme_at(index)) == index,
{
    reveal_strlit("light");
    reveal_strlit("dark");
    reveal_strlit("auto");
    assert("light"@ != "dark"@ && "light"@ != "auto"@) by {
        assert("light"@.len() != "dark"@.len());
        assert("light"@.len() != "auto"@.len());
    }
    assert("dark"@ != "auto"@) by {
        assert("dark"@[0] != "auto"@[0]);
    }
}

/// A candidate layout shown in the settings menu is written back unchanged,
/// and each menu position reads back as itself.
pub proof fn lemma_layout_menu_round_trip(layout: Seq<char>, index: i32)
    ensures
        (layout == "horizontal"@ || layout == "vertical"@) ==> layout_at(layout_position(layout))
            == layout,
        0 <= index < 2 ==> layout_position(layout_at(index)) == index,
{
    reveal_strlit("horizontal");
    reveal_strlit("vertical");
    assert("horizontal"@ != "vertical"@) by {
        assert("horizontal"@.len() != "vertical"@.len());
    }
}

/// Whether a configuration key belongs on the input page: it lies under
/// `keyboard.`, `voice.` or `languages.`.
pub open spec fn is_input_key(key: Seq<char>) -> bool {
    listed_under("keyboard."@, key) || listed_under("voice."@, key) || listed_under(
        "languages."@,
        key,
    )
}

/// The positions, among the first `n` entries, of those on the input page.
pub open spec fn input_indices(entries: Seq<ConfigEntry>, n: int) -> Seq<usize>
    decreases n,
{
    if n <= 0 {
        Seq::empty()
    } else {
        let rest = input_indices(entries, n - 1);
        if is_input_key(entries[n - 1].key@) {
            rest.push((n - 1) as usize)
        } else {
            rest
        }
    }
}

/// The entries the input page shows under "Input behavior", by position,
/// in order: those whose key lies under `keyboard.`, `voice.` or
/// `languages.`.
pub fn input_page_entries(entries: &Vec<ConfigEntry>) -> (v: Vec<usize>)
    ensures
        v@ == input_indices(entries@, entries@.len() as int),
{
    let mut v: Vec<usize> = Vec::new();
    let mut i: usize = 0;
    while i < entries.len()
        invariant
            i <= entries.len(),
            v@ == input_indices(entries@, i as int),
        decreases entries.len() - i,
    {
        let key = entries[i].key.as_str();
        if key_listed("keyboard.", key) || key_listed("voice.", key) || key_listed(
            "languages.",
            key,
        ) {
            v.push(i);
        }
        i = i + 1;
    }
    v
}

/// The first position at or after `k` of a language that is active or is
/// the daemon's active language, or 0 when there is none.
pub open spec fn active_language_from(languages: Seq<Language>, active: Seq<char>, k: int) -> int
    decreases languages.len() - k,
{
    if k < 0 || k >= languages.len() {
        0
    } else if languages[k].active || languages[k].tag@ == active {
        k
    } else {
        active_language_from(languages, active, k + 1)
    }
}

/// The language the input page's dropdown starts on: the first one that is
/// marked active or is the daemon's active language, else the first.
pub fn active_language_index(languages: &Vec<Language>, active: &str) -> (i: usize)
    ensures
        i == active_language_from(languages@, active@, 0),
{
    let mut k: usize = 0;
    while k < languages.len()
        invariant
            k <= languages.len(),
            active_language_from(languages@, active@, 0) == active_language_from(
                languages@,
                active@,
                k as int,
            ),
        decreases languages.len() - k,
    {
        if languages[k].active || str_eq(languages[k].tag.as_str(), active) {
            return k;
        }
        k = k + 1;
    }
    0
}

} // verus!
