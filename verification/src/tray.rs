//! The system-tray menu over a snapshot of the engine registry: which
//! language, keyboard or voice engine a menu entry stands for, and which
//! registry change a menu action asks for.
use vstd::prelude::*;

use crate::config_value::{contains_choice, views};

verus! {

/// A registered engine as the tray menu lists it.
#[derive(Debug, Clone, PartialEq, Eq)]
pub struct EngineDesc {
    pub name: String,
    pub display_name: Option<String>,
    /// The languages the engine serves (empty for voice engines).
    pub languages: Vec<String>,
}

/// The registry as the tray menu shows it.
#[derive(Debug, Clone, PartialEq, Eq)]
pub struct RegistrySnapshot {
    /// Known languages, in menu order.
    pub languages: Vec<String>,
    pub active_language: Option<String>,
    /// Keyboard engines, in registration order.
    pub keyboards: Vec<EngineDesc>,
    /// Voice engines, in registration order.
    pub voices: Vec<EngineDesc>,
    pub active_voice: Option<String>,
}

/// A tray menu selection.
#[derive(Debug, Clone, Copy, PartialEq, Eq, Structural)]
pub enum MenuAction {
    /// The language at this menu index.
    Language(u32),
    /// The keyboard at `engine_idx` under the language at `lang_idx`.
    EngineInLanguage { lang_idx: u32, engine_idx: u32 },
    /// The keyboard at this index among the keyboards serving no known
    /// language.
    OrphanEngine(u32),
    /// The voice engine at this menu index.
    Voice(u32),
    /// Restart the daemon.
    Restart,
    /// Quit the daemon.
    Quit,
}

/// A registry change requested from the tray.
#[derive(Debug, Clone, PartialEq, Eq)]
pub enum RegistryCommand {
    ActivateLanguage(String),
    /// Switch language and keyboard together.
    ActivateLanguageKeyboard { tag: String, keyboard: String },
    ActivateKeyboard(String),
    ActivateVoice(String),
}

/// The names of `engines`.
pub open spec fn names(engines: Seq<EngineDesc>) -> Seq<Seq<char>> {
    engines.map_values(|e: EngineDesc| e.name@)
}

/// Whether an engine serving `langs` serves none of the `known` languages.
pub open spec fn serves_no_known_language(langs: Seq<Seq<char>>, known: Seq<Seq<char>>) -> bool {
    forall|i: int| 0 <= i < langs.len() ==> !known.contains(#[trigger] langs[i])
}

/// The names of the keyboards among `keyboards` that serve no `known`
/// language, in order.
pub open spec fn orphan_names(keyboards: Seq<EngineDesc>, known: Seq<Seq<char>>) -> Seq<Seq<char>>
    decreases keyboards.len(),
{
    if keyboards.len() == 0 {
        Seq::empty()
    } else {
        orphan_names(keyboards.drop_last(), known) + if serves_no_known_language(
            views(keyboards.last().languages@),
            known,
        ) {
            seq![keyboards.last().name@]
        } else {
            Seq::empty()
        }
    }
}

/// The entry at `idx` of `items`, if there is one.
pub open spec fn entry_at(items: Seq<Seq<char>>, idx: int) -> Option<Seq<char>> {
    if 0 <= idx < items.len() {
        Some(items[idx])
    } else {
        None
    }
}

/// The view of an optional string.
pub open spec fn opt_view(s: Option<String>) -> Option<Seq<char>> {
    match s {
        Some(x) => Some(x@),
        None => None,
    }
}

/// Whether `langs` serve none of the `known` languages.
fn serves_none_of(langs: &Vec<String>, known: &Vec<String>) -> (b: bool)
    ensures
        b == serves_no_known_language(views(langs@), views(known@)),
{
    let n = langs.len();
    let mut i: usize = 0;
    while i < n
        invariant
            n == langs@.len(),
            0 <= i <= n,
            forall|j: int| 0 <= j < i ==> !views(known@).contains(#[trigger] views(langs@)[j]),
        decreases n - i,
    {
        let found = contains_choice(known, langs[i].as_str());
        proof {
            if found {
                let k = choose|k: int| 0 <= k < known@.len() && #[trigger] known@[k]@ == langs@[i as int]@;
                assert(views(known@)[k] == views(langs@)[i as int]);
            } else {
                if views(known@).contains(views(langs@)[i as int]) {
                    let k = choose|k: int| 0 <= k < views(known@).len() && views(known@)[k] == views(langs@)[i as int];
                    assert(known@[k]@ == langs@[i as int]@);
                }
            }
        }
        if found {
            return false;
        }
        i = i + 1;
    }
    true
}

/// The keyboards of `snapshot` that serve no known language, by name.
pub fn orphan_keyboards(snapshot: &RegistrySnapshot) -> (orphans: Vec<String>)
    ensures
        views(orphans@) == orphan_names(snapshot.keyboards@, views(snapshot.languages@)),
{
    let kbs = &snapshot.keyboards;
    let ghost known = views(snapshot.languages@);
    let n = kbs.len();
    let mut orphans: Vec<String> = Vec::new();
    let mut i: usize = 0;
    proof {
        assert(kbs@.subrange(0, 0) =~= Seq::<EngineDesc>::empty());
        assert(views(orphans@) =~= Seq::<Seq<char>>::empty());
    }
    while i < n
        invariant
            n == kbs@.len(),
            kbs == &snapshot.keyboards,
            known == views(snapshot.languages@),
            0 <= i <= n,
            views(orphans@) == orphan_names(kbs@.subrange(0, i as int), known),
        decreases n - i,
    {
        let ghost next = kbs@.subrange(0, i + 1);
        proof {
            assert(next.drop_last() =~= kbs@.subrange(0, i as int));
            assert(next.last() == kbs@[i as int]);
        }
        let ghost before = orphans@;
        if serves_none_of(&kbs[i].languages, &snapshot.languages) {
            orphans.push(kbs[i].name.clone());
            proof {
                assert(views(orphans@) =~= views(before) + seq![kbs@[i as int].name@]);
            }
        } else {
            proof {
                assert(views(before) + Seq::<Seq<char>>::empty() =~= views(before));
            }
        }
        i = i + 1;
    }
    proof {
        assert(kbs@.subrange(0, n as int) =~= kbs@);
    }
    orphans
}

/// The string at `idx` of `items`, if there is one.
fn string_at(items: &Vec<String>, idx: usize) -> (s: Option<String>)
    ensures
        opt_view(s) == entry_at(views(items@), idx as int),
{
    if idx < items.len() {
        Some(items[idx].clone())
    } else {
        None
    }
}

/// The name of the engine at `idx` of `engines`, if there is one.
fn name_at(engines: &Vec<EngineDesc>, idx: usize) -> (s: Option<String>)
    ensures
        opt_view(s) == entry_at(names(engines@), idx as int),
{
    if idx < engines.len() {
        Some(engines[idx].name.clone())
    } else {
        None
    }
}

/// The language tag at menu index `idx`.
pub fn language_at_index(snapshot: &RegistrySnapshot, idx: usize) -> (tag: Option<String>)
    ensures
        opt_view(tag) == entry_at(views(snapshot.languages@), idx as int),
{
    string_at(&snapshot.languages, idx)
}

/// The keyboard engine at menu index `idx`.
pub fn keyboard_at_index(snapshot: &RegistrySnapshot, idx: usize) -> (name: Option<String>)
    ensures
        opt_view(name) == entry_at(names(snapshot.keyboards@), idx as int),
{
    name_at(&snapshot.keyboards, idx)
}

/// The keyboard at index `idx` among those serving no known language.
pub fn orphan_keyboard_at_index(snapshot: &RegistrySnapshot, idx: usize) -> (name: Option<String>)
    ensures
        opt_view(name) == entry_at(
            orphan_names(snapshot.keyboards@, views(snapshot.languages@)),
            idx as int,
        ),
{
    let orphans = orphan_keyboards(snapshot);
    string_at(&orphans, idx)
}

/// The voice engine at menu index `idx`.
pub fn voice_at_index(snapshot: &RegistrySnapshot, idx: usize) -> (name: Option<String>)
    ensures
        opt_view(name) == entry_at(names(snapshot.voices@), idx as int),
{
    name_at(&snapshot.voices, idx)
}

/// The registry change a menu action asks for: `None` for an index that
/// names no entry, and for the actions the daemon handles itself (restart,
/// quit).
pub fn plan_tray_action(snapshot: &RegistrySnapshot, action: MenuAction) -> (cmd: Option<
    RegistryCommand,
>)
    ensures
        action matches MenuAction::Language(i) ==> match entry_at(
            views(snapshot.languages@),
            i as int,
        ) {
            Some(t) => cmd matches Some(RegistryCommand::ActivateLanguage(x)) && x@ == t,
            None => cmd is None,
        },
        action matches MenuAction::EngineInLanguage { lang_idx, engine_idx } ==> match (
            entry_at(views(snapshot.languages@), lang_idx as int),
            entry_at(names(snapshot.keyboards@), engine_idx as int),
        ) {
            (Some(t), Some(k)) => cmd matches Some(
                RegistryCommand::ActivateLanguageKeyboard { tag, keyboard },
            ) && tag@ == t && keyboard@ == k,
            _ => cmd is None,
        },
        action matches MenuAction::OrphanEngine(i) ==> match entry_at(
            orphan_names(snapshot.keyboards@, views(snapshot.languages@)),
            i as int,
        ) {
            Some(k) => cmd matches Some(RegistryCommand::ActivateKeyboard(x)) && x@ == k,
            None => cmd is None,
        },
        action matches MenuAction::Voice(i) ==> match entry_at(names(snapshot.voices@), i as int) {
            Some(v) => cmd matches Some(RegistryCommand::ActivateVoice(x)) && x@ == v,
            None => cmd is None,
        },
        action is Restart || action is Quit ==> cmd is None,
{
    match action {
        MenuAction::Language(i) => match language_at_index(snapshot, i as usize) {
            Some(t) => Some(RegistryCommand::ActivateLanguage(t)),
            None => None,
        },
        MenuAction::EngineInLanguage { lang_idx, engine_idx } => {
            let tag = language_at_index(snapshot, lang_idx as usize);
            let keyboard = keyboard_at_index(snapshot, engine_idx as usize);
            match (tag, keyboard) {
                (Some(tag), Some(keyboard)) => Some(
                    RegistryCommand::ActivateLanguageKeyboard { tag, keyboard },
                ),
                _ => None,
            }
        },
        MenuAction::OrphanEngine(i) => match orphan_keyboard_at_index(snapshot, i as usize) {
            Some(k) => Some(RegistryCommand::ActivateKeyboard(k)),
            None => None,
        },
        MenuAction::Voice(i) => match voice_at_index(snapshot, i as usize) {
            Some(v) => Some(RegistryCommand::ActivateVoice(v)),
            None => None,
        },
        MenuAction::Restart | MenuAction::Quit => None,
    }
}

} // verus!
