//! The display settings file (`platform.toml`): reading its `[display]`
//! table with documented defaults, and writing the settings back in place so
//! comments, unknown keys and other tables survive. The TOML document itself
//! is `toml_edit`'s; the library reads and edits it through trusted wrappers
//! whose contracts speak of a model of the document. The file is read and
//! written at the edge; the font size, a floating-point setting, is read
//! there too and handed in as a ready TOML item.
use vstd::prelude::*;

use toml_edit::{value, DocumentMut, Item, Table, TomlError, Value};

use crate::settings::{
    font_family_class, font_family_class_spec, DEFAULT_ANCHOR_TIMEOUT_MS,
    DEFAULT_LAYOUT, DEFAULT_THEME,
};

verus! {

#[verifier::external_type_specification]
#[verifier::external_body]
pub struct ExDocumentMut(toml_edit::DocumentMut);

#[verifier::external_type_specification]
#[verifier::external_body]
pub struct ExItem(toml_edit::Item);

#[verifier::external_type_specification]
#[verifier::external_body]
pub struct ExTomlError(toml_edit::TomlError);

/// A value stored under a key, as the settings read it.
#[derive(Debug, Clone, PartialEq, Eq)]
pub enum TomlEntry {
    Text(String),
    Integer(i64),
    Boolean(bool),
    /// A float, a date, an array or a table.
    Other,
}

/// A stored value as a plain value.
pub enum TomlEntryView {
    Text(Seq<char>),
    Integer(i64),
    Boolean(bool),
    Other,
}

impl View for TomlEntry {
    type V = TomlEntryView;

    open spec fn view(&self) -> TomlEntryView {
        match self {
            TomlEntry::Text(s) => TomlEntryView::Text(s@),
            TomlEntry::Integer(i) => TomlEntryView::Integer(*i),
            TomlEntry::Boolean(b) => TomlEntryView::Boolean(*b),
            TomlEntry::Other => TomlEntryView::Other,
        }
    }
}

/// What a TOML document holds, as far as the display settings go.
pub struct DocumentModel {
    /// The keys under the top-level `display` item (a table or an inline
    /// table) and their values, as `Table::get` sees them (a key holding an
    /// empty item is absent); empty when there is no such item.
    pub display: Map<Seq<char>, TomlEntryView>,
    /// Whether the top-level `display` item is a table (`[display]`).
    pub display_is_table: bool,
    /// The comments and whitespace before the `[display]` header.
    pub display_comment: Seq<char>,
    /// For each key of the `display` table (as `Table::get` sees them: a key
    /// holding an empty item is absent), the comments and whitespace before
    /// it.
    pub key_comments: Map<Seq<char>, Seq<char>>,
    /// Every top-level item other than `display`, as TOML text with its
    /// comments.
    pub others: Map<Seq<char>, Seq<char>>,
}

/// What a `toml_edit::DocumentMut` holds, as the display settings see it.
pub uninterp spec fn document_model(doc: DocumentMut) -> DocumentModel;

/// What `toml_edit` parses `text` into: the model of the document, or `None`
/// when `text` is not valid TOML.
pub uninterp spec fn parsed_document(text: Seq<char>) -> Option<DocumentModel>;

/// `text.parse::<toml_edit::DocumentMut>()`. The contract claims only that
/// the document (or the refusal) is what [`parsed_document`] names for
/// `text`; the TOML grammar is not restated.
#[verifier::external_body]
fn parse_document(text: &str) -> (r: Result<DocumentMut, TomlError>)
    ensures
        match r {
            Ok(doc) => parsed_document(text@) == Some(document_model(doc)),
            Err(_) => parsed_document(text@) is None,
        },
{
    text.parse::<DocumentMut>()
}

/// `toml_edit::DocumentMut::new`: a document with no items at all.
#[verifier::external_body]
fn empty_document() -> (doc: DocumentMut)
    ensures
        document_model(doc).display.dom() == Set::<Seq<char>>::empty(),
        !document_model(doc).display_is_table,
        document_model(doc).others.dom() == Set::<Seq<char>>::empty(),
{
    DocumentMut::new()
}

/// `doc.get("display")` then `Item::get(key)`, the item told apart by its
/// variant: a string, integer or boolean value (the values `Item::as_str`,
/// `as_integer` and `as_bool` return), or anything else. The contract claims
/// that this is the key's entry in [`document_model`].
#[verifier::external_body]
fn display_entry(doc: &DocumentMut, key: &str) -> (e: Option<TomlEntry>)
    ensures
        match e {
            None => !document_model(*doc).display.contains_key(key@),
            Some(v) => document_model(*doc).display.contains_key(key@)
                && document_model(*doc).display[key@] == v@,
        },
{
    let item = match doc.get("display") {
        None => None,
        Some(d) => d.get(key),
    };
    match item {
        None => None,
        Some(Item::Value(Value::String(s))) => Some(TomlEntry::Text(s.value().clone())),
        Some(Item::Value(Value::Integer(i))) => Some(TomlEntry::Integer(*i.value())),
        Some(Item::Value(Value::Boolean(b))) => Some(TomlEntry::Boolean(*b.value())),
        Some(_) => Some(TomlEntry::Other),
    }
}

/// `doc.get("display")` tested with `Item::is_table`.
#[verifier::external_body]
fn display_is_table(doc: &DocumentMut) -> (b: bool)
    ensures
        b == document_model(*doc).display_is_table,
{
    matches!(doc.get("display"), Some(Item::Table(_)))
}

/// `doc["display"] = Item::Table(Table::new())`: the `display` item becomes
/// an empty table; every other top-level item is left as it was. The new
/// table's header carries `toml_edit`'s default decor, which is not stated.
#[verifier::external_body]
fn reset_display_table(doc: &mut DocumentMut)
    ensures
        document_model(*final(doc)).display.dom() == Set::<Seq<char>>::empty(),
        document_model(*final(doc)).display_is_table,
        document_model(*final(doc)).key_comments.dom() == Set::<Seq<char>>::empty(),
        document_model(*final(doc)).others == document_model(*old(doc)).others,
{
    doc["display"] = Item::Table(Table::new());
}

/// A value to store under a display key.
pub enum TomlScalar {
    Text(String),
    Integer(i64),
    Boolean(bool),
    /// A ready TOML item (the font size, a float, made at the edge).
    Item(Item),
}

/// The stored value a scalar reads back as; `None` for a ready item, which
/// the library does not look into.
pub open spec fn scalar_entry(v: TomlScalar) -> Option<TomlEntryView> {
    match v {
        TomlScalar::Text(s) => Some(TomlEntryView::Text(s@)),
        TomlScalar::Integer(i) => Some(TomlEntryView::Integer(i)),
        TomlScalar::Boolean(b) => Some(TomlEntryView::Boolean(b)),
        TomlScalar::Item(_) => None,
    }
}

/// `doc["display"][key] = toml_edit::value(v)` (or the ready item itself) on
/// a document whose `display` item is a table: a text, integer or boolean
/// value is stored under the key, which keeps its place and the comments
/// before it; every other key, the header's comments and every other
/// top-level item are left as they were. Of a ready item nothing is claimed
/// beyond that: an empty item (`Item::None`) leaves the key hidden from
/// `Table::get`, so not even the key's presence is stated.
#[verifier::external_body]
fn set_display_value(doc: &mut DocumentMut, key: &str, v: TomlScalar)
    requires
        document_model(*old(doc)).display_is_table,
    ensures
        document_model(*final(doc)).display_is_table,
        scalar_entry(v) matches Some(e) ==> document_model(*final(doc)).display.contains_key(key@)
            && document_model(*final(doc)).display[key@] == e,
        document_model(*final(doc)).display.remove(key@) == document_model(*old(doc)).display.remove(
            key@,
        ),
        document_model(*final(doc)).display_comment == document_model(*old(doc)).display_comment,
        document_model(*final(doc)).key_comments.remove(key@) == document_model(
            *old(doc),
        ).key_comments.remove(key@),
        scalar_entry(v) is Some && document_model(*old(doc)).key_comments.contains_key(key@)
            ==> document_model(*final(doc)).key_comments.contains_key(key@) && document_model(
            *final(doc),
        ).key_comments[key@] == document_model(*old(doc)).key_comments[key@],
        document_model(*final(doc)).others == document_model(*old(doc)).others,
{
    doc["display"][key] = match v {
        TomlScalar::Text(s) => value(s),
        TomlScalar::Integer(i) => value(i),
        TomlScalar::Boolean(b) => value(b),
        TomlScalar::Item(item) => item,
    };
}

/// Why the settings file could not be loaded.
#[derive(Debug)]
pub enum ConfigLoadError {
    /// The file is not valid TOML.
    InvalidData(TomlError),
}

/// The display settings other than the font size, as read or to be written.
#[derive(Debug, Clone, PartialEq, Eq)]
pub struct DisplayValues {
    pub theme: String,
    pub layout: String,
    pub font_family: String,
    pub panel_mode_indicator: bool,
    pub anchor_probe: bool,
    pub anchor_probe_timeout_ms: i64,
}

/// The text stored under `key`, or `default` when it is absent or not text.
pub open spec fn text_or(display: Map<Seq<char>, TomlEntryView>, key: Seq<char>, default: Seq<
    char,
>) -> Seq<char> {
    if display.contains_key(key) {
        match display[key] {
            TomlEntryView::Text(s) => s,
            _ => default,
        }
    } else {
        default
    }
}

/// The boolean stored under `key`, or `default`.
pub open spec fn bool_or(display: Map<Seq<char>, TomlEntryView>, key: Seq<char>, default: bool) -> bool {
    if display.contains_key(key) {
        match display[key] {
            TomlEntryView::Boolean(b) => b,
            _ => default,
        }
    } else {
        default
    }
}

/// The integer stored under `key`, or `default`.
pub open spec fn integer_or(display: Map<Seq<char>, TomlEntryView>, key: Seq<char>, default: i64) -> i64 {
    if display.contains_key(key) {
        match display[key] {
            TomlEntryView::Integer(i) => i,
            _ => default,
        }
    } else {
        default
    }
}

/// The stored text under `key`, if there is text there.
pub open spec fn stored_text(display: Map<Seq<char>, TomlEntryView>, key: Seq<char>) -> Option<
    Seq<char>,
> {
    if display.contains_key(key) {
        match display[key] {
            TomlEntryView::Text(s) => Some(s),
            _ => None,
        }
    } else {
        None
    }
}

/// The settings a `[display]` table reads as: each key's stored value, or
/// its documented default (`auto`, `horizontal`, the default family class,
/// no mode indicator, anchor probing on, 150 ms) when it is absent or of
/// another kind; the family folded to its class.
pub open spec fn display_settings(display: Map<Seq<char>, TomlEntryView>) -> (
    Seq<char>,
    Seq<char>,
    Seq<char>,
    bool,
    bool,
    i64,
) {
    (
        text_or(display, "panel_theme"@, "auto"@),
        text_or(display, "candidate_layout"@, "horizontal"@),
        font_family_class_spec(stored_text(display, "font_family"@)),
        bool_or(display, "panel_mode_indicator"@, false),
        bool_or(display, "anchor_probe"@, true),
        integer_or(display, "anchor_probe_timeout_ms"@, 150),
    )
}

/// The keys `update` writes.
pub open spec fn is_written_key(k: Seq<char>) -> bool {
    ||| k == "panel_theme"@
    ||| k == "candidate_layout"@
    ||| k == "font_size"@
    ||| k == "font_family"@
    ||| k == "panel_mode_indicator"@
    ||| k == "anchor_probe"@
    ||| k == "anchor_probe_timeout_ms"@
}

/// The display settings file as loaded.
pub struct PlatformConfig {
    pub document: DocumentMut,
}

/// Loads the settings from the file's text: no file (`None`) gives an empty
/// document, which reads as the documented defaults; text that is not valid
/// TOML is refused with the parser's error; otherwise the parsed document.
pub fn load_platform_config(text: Option<&str>) -> (r: Result<PlatformConfig, ConfigLoadError>)
    ensures
        text is None ==> (r matches Ok(c) && document_model(c.document).display.dom() == Set::<
            Seq<char>,
        >::empty() && display_settings(document_model(c.document).display) == (
            "auto"@,
            "horizontal"@,
            "default"@,
            false,
            true,
            150i64,
        )),
        text matches Some(t) ==> (r is Err <==> parsed_document(t@) is None),
        text matches Some(t) ==> (r matches Ok(c) ==> parsed_document(t@) == Some(
            document_model(c.document),
        )),
{
    match text {
        None => {
            let document = empty_document();
            proof {
                reveal_strlit("default");
            }
            Ok(PlatformConfig { document })
        },
        Some(t) => match parse_document(t) {
            Ok(document) => Ok(PlatformConfig { document }),
            Err(e) => Err(ConfigLoadError::InvalidData(e)),
        },
    }
}

fn text_entry_or(doc: &DocumentMut, key: &str, default: &str) -> (s: String)
    ensures
        s@ == text_or(document_model(*doc).display, key@, default@),
{
    match display_entry(doc, key) {
        Some(TomlEntry::Text(s)) => s,
        _ => String::from_str(default),
    }
}

impl PlatformConfig {
    /// The panel theme, `auto` when unset.
    pub fn theme(&self) -> (t: String)
        ensures
            t@ == display_settings(document_model(self.document).display).0,
    {
        proof {
            reveal_strlit("auto");
        }
        text_entry_or(&self.document, "panel_theme", DEFAULT_THEME)
    }

    /// The candidate layout, `horizontal` when unset.
    pub fn candidate_layout(&self) -> (l: String)
        ensures
            l@ == display_settings(document_model(self.document).display).1,
    {
        proof {
            reveal_strlit("horizontal");
        }
        text_entry_or(&self.document, "candidate_layout", DEFAULT_LAYOUT)
    }

    /// The configured family class; an unset or unrecognised value reads
    /// back as the default class.
    pub fn font_family(&self) -> (f: &'static str)
        ensures
            f@ == display_settings(document_model(self.document).display).2,
    {
        match display_entry(&self.document, "font_family") {
            Some(TomlEntry::Text(s)) => font_family_class(Some(s.as_str())),
            _ => font_family_class(None),
        }
    }

    /// Whether the panel shows the keyboard mode; off when unset.
    pub fn panel_mode_indicator(&self) -> (b: bool)
        ensures
            b == display_settings(document_model(self.document).display).3,
    {
        match display_entry(&self.document, "panel_mode_indicator") {
            Some(TomlEntry::Boolean(b)) => b,
            _ => false,
        }
    }

    /// Whether the caret anchor is probed; on when unset.
    pub fn anchor_probe(&self) -> (b: bool)
        ensures
            b == display_settings(document_model(self.document).display).4,
    {
        match display_entry(&self.document, "anchor_probe") {
            Some(TomlEntry::Boolean(b)) => b,
            _ => true,
        }
    }

    /// How long an anchor probe may wait, 150 ms when unset.
    pub fn anchor_probe_timeout_ms(&self) -> (ms: i64)
        ensures
            ms == display_settings(document_model(self.document).display).5,
    {
        match display_entry(&self.document, "anchor_probe_timeout_ms") {
            Some(TomlEntry::Integer(i)) => i,
            _ => DEFAULT_ANCHOR_TIMEOUT_MS,
        }
    }

    /// Writes the settings into the `[display]` table (made a table first
    /// when it is not one), in the file's key order: theme, layout, the font
    /// size item, family, mode indicator, anchor probe and its timeout. Keys
    /// other than these, the comments before the header and before existing
    /// keys (when `display` was already a table), and every other table stay
    /// as they were; the written values read back as given. The font size
    /// item is stored as given and not looked into.
    pub fn update(&mut self, values: &DisplayValues, font_size: Item)
        ensures
            ({
                let before = document_model(old(self).document);
                let after = document_model(final(self).document);
                &&& after.display_is_table
                &&& after.others == before.others
                &&& forall|k: Seq<char>|
                    !is_written_key(k) ==> (#[trigger] after.display.contains_key(k)
                        == (before.display_is_table && before.display.contains_key(k))
                        && (after.display.contains_key(k) ==> after.display[k]
                        == before.display[k]))
                &&& after.display.contains_key("panel_theme"@)
                &&& after.display["panel_theme"@] == TomlEntryView::Text(values.theme@)
                &&& after.display.contains_key("candidate_layout"@)
                &&& after.display["candidate_layout"@] == TomlEntryView::Text(values.layout@)
                &&& after.display.contains_key("font_family"@)
                &&& after.display["font_family"@] == TomlEntryView::Text(values.font_family@)
                &&& after.display.contains_key("panel_mode_indicator"@)
                &&& after.display["panel_mode_indicator"@] == TomlEntryView::Boolean(
                    values.panel_mode_indicator,
                )
                &&& after.display.contains_key("anchor_probe"@)
                &&& after.display["anchor_probe"@] == TomlEntryView::Boolean(values.anchor_probe)
                &&& after.display.contains_key("anchor_probe_timeout_ms"@)
                &&& after.display["anchor_probe_timeout_ms"@] == TomlEntryView::Integer(
                    values.anchor_probe_timeout_ms,
                )
                &&& before.display_is_table ==> after.display_comment == before.display_comment
                &&& before.display_is_table ==> forall|k: Seq<char>|
                    #[trigger] before.key_comments.contains_key(k) && k != "font_size"@
                        ==> after.key_comments.contains_key(k) && after.key_comments[k]
                        == before.key_comments[k]
            }),
    {
        proof {
            reveal_strlit("panel_theme");
            reveal_strlit("candidate_layout");
            reveal_strlit("font_size");
            reveal_strlit("font_family");
            reveal_strlit("panel_mode_indicator");
            reveal_strlit("anchor_probe");
            reveal_strlit("anchor_probe_timeout_ms");
        }
        let ghost before = document_model(self.document);
        if !display_is_table(&self.document) {
            reset_display_table(&mut self.document);
        }
        let ghost base = document_model(self.document);
        set_display_value(&mut self.document, "panel_theme", TomlScalar::Text(values.theme.clone()));
        let ghost m1 = document_model(self.document);
        set_display_value(
            &mut self.document,
            "candidate_layout",
            TomlScalar::Text(values.layout.clone()),
        );
        let ghost m2 = document_model(self.document);
        set_display_value(&mut self.document, "font_size", TomlScalar::Item(font_size));
        let ghost m3 = document_model(self.document);
        set_display_value(
            &mut self.document,
            "font_family",
            TomlScalar::Text(values.font_family.clone()),
        );
        let ghost m4 = document_model(self.document);
        set_display_value(
            &mut self.document,
            "panel_mode_indicator",
            TomlScalar::Boolean(values.panel_mode_indicator),
        );
        let ghost m5 = document_model(self.document);
        set_display_value(&mut self.document, "anchor_probe", TomlScalar::Boolean(values.anchor_probe));
        let ghost m6 = document_model(self.document);
        set_display_value(
            &mut self.document,
            "anchor_probe_timeout_ms",
            TomlScalar::Integer(values.anchor_probe_timeout_ms),
        );
        proof {
            let after = document_model(self.document);
            lemma_keys_distinct();
            let ks = seq![
                "panel_theme"@,
                "candidate_layout"@,
                "font_size"@,
                "font_family"@,
                "panel_mode_indicator"@,
                "anchor_probe"@,
                "anchor_probe_timeout_ms"@,
            ];
            let ms = seq![base, m1, m2, m3, m4, m5, m6, after];
            assert forall|i: int| 0 <= i < 7 implies #[trigger] ms[i + 1].display.remove(ks[i])
                == ms[i].display.remove(ks[i]) && ms[i + 1].key_comments.remove(ks[i])
                == ms[i].key_comments.remove(ks[i]) && (i != 2 ==> ms[i + 1].display.contains_key(
                ks[i],
            )) && (i != 2 && ms[i].key_comments.contains_key(ks[i]) ==> ms[i
                + 1].key_comments.contains_key(ks[i]) && ms[i + 1].key_comments[ks[i]]
                == ms[i].key_comments[ks[i]]) by {}
            assert forall|k: Seq<char>| !is_written_key(k) implies (#[trigger] after.display.contains_key(k)
                == (before.display_is_table && before.display.contains_key(k))
                && (after.display.contains_key(k) ==> after.display[k] == before.display[k])) by {
                assert(forall|l: int| 0 <= l < 7 ==> #[trigger] ks[l] != k);
                lemma_chain_keeps_key(ms, ks, k, 0, 7);
                if !before.display_is_table {
                    assert(!base.display.contains_key(k));
                }
            }
            assert(forall|l: int| 1 <= l < 7 ==> #[trigger] ks[l] != ks[0]);
            lemma_chain_keeps_key(ms, ks, ks[0], 1, 7);
            assert(forall|l: int| 2 <= l < 7 ==> #[trigger] ks[l] != ks[1]);
            lemma_chain_keeps_key(ms, ks, ks[1], 2, 7);
            assert(forall|l: int| 3 <= l < 7 ==> #[trigger] ks[l] != ks[2]);
            lemma_chain_keeps_key(ms, ks, ks[2], 3, 7);
            assert(forall|l: int| 4 <= l < 7 ==> #[trigger] ks[l] != ks[3]);
            lemma_chain_keeps_key(ms, ks, ks[3], 4, 7);
            assert(forall|l: int| 5 <= l < 7 ==> #[trigger] ks[l] != ks[4]);
            lemma_chain_keeps_key(ms, ks, ks[4], 5, 7);
            assert(forall|l: int| 6 <= l < 7 ==> #[trigger] ks[l] != ks[5]);
            lemma_chain_keeps_key(ms, ks, ks[5], 6, 7);
            assert forall|k: Seq<char>| #[trigger] before.key_comments.contains_key(k)
                && k != "font_size"@ && before.display_is_table implies after.key_comments.contains_key(k)
                && after.key_comments[k] == before.key_comments[k] by {
                if forall|l: int| 0 <= l < 7 ==> #[trigger] ks[l] != k {
                    lemma_chain_keeps_key(ms, ks, k, 0, 7);
                } else {
                    let l = choose|l: int| 0 <= l < 7 && #[trigger] ks[l] == k;
                    assert(forall|m: int| 0 <= m < l ==> #[trigger] ks[m] != k);
                    lemma_chain_keeps_key(ms, ks, k, 0, l);
                    assert(forall|m: int| l + 1 <= m < 7 ==> #[trigger] ks[m] != k);
                    assert(ms[l + 1].key_comments[k] == ms[l].key_comments[k]);
                    lemma_chain_keeps_key(ms, ks, k, l + 1, 7);
                }
            }
        }
    }
}

/// Through a run of writes to the keys `ks`, in order, a key none of them
/// names keeps its value and its comments.
proof fn lemma_chain_keeps_key(
    ms: Seq<DocumentModel>,
    ks: Seq<Seq<char>>,
    k: Seq<char>,
    i: int,
    j: int,
)
    requires
        ms.len() == ks.len() + 1,
        0 <= i <= j < ms.len(),
        forall|l: int| i <= l < j ==> #[trigger] ks[l] != k,
        forall|l: int|
            0 <= l < ks.len() ==> #[trigger] ms[l + 1].display.remove(ks[l]) == ms[l].display.remove(
                ks[l],
            ) && ms[l + 1].key_comments.remove(ks[l]) == ms[l].key_comments.remove(ks[l]),
    ensures
        ms[j].display.contains_key(k) == ms[i].display.contains_key(k),
        ms[i].display.contains_key(k) ==> ms[j].display[k] == ms[i].display[k],
        ms[i].key_comments.contains_key(k) ==> ms[j].key_comments.contains_key(k)
            && ms[j].key_comments[k] == ms[i].key_comments[k],
    decreases j - i,
{
    if i < j {
        lemma_chain_keeps_key(ms, ks, k, i, j - 1);
        let l = j - 1;
        assert(ms[l + 1].display.remove(ks[l]) == ms[l].display.remove(ks[l]));
        assert(ms[l + 1].display.remove(ks[l]).contains_key(k) == ms[l + 1].display.contains_key(k));
        assert(ms[l].display.remove(ks[l]).contains_key(k) == ms[l].display.contains_key(k));
        if ms[l].display.contains_key(k) {
            assert(ms[l + 1].display.remove(ks[l])[k] == ms[l + 1].display[k]);
            assert(ms[l].display.remove(ks[l])[k] == ms[l].display[k]);
        }
        if ms[l].key_comments.contains_key(k) {
            assert(ms[l].key_comments.remove(ks[l]).contains_key(k));
            assert(ms[l + 1].key_comments.remove(ks[l]).contains_key(k));
            assert(ms[l + 1].key_comments.remove(ks[l])[k] == ms[l + 1].key_comments[k]);
            assert(ms[l].key_comments.remove(ks[l])[k] == ms[l].key_comments[k]);
        }
    }
}

proof fn lemma_keys_distinct()
    ensures
        "panel_theme"@ != "candidate_layout"@,
        "panel_theme"@ != "font_size"@,
        "panel_theme"@ != "font_family"@,
        "panel_theme"@ != "panel_mode_indicator"@,
        "panel_theme"@ != "anchor_probe"@,
        "panel_theme"@ != "anchor_probe_timeout_ms"@,
        "candidate_layout"@ != "font_size"@,
        "candidate_layout"@ != "font_family"@,
        "candidate_layout"@ != "panel_mode_indicator"@,
        "candidate_layout"@ != "anchor_probe"@,
        "candidate_layout"@ != "anchor_probe_timeout_ms"@,
        "font_size"@ != "font_family"@,
        "font_size"@ != "panel_mode_indicator"@,
        "font_size"@ != "anchor_probe"@,
        "font_size"@ != "anchor_probe_timeout_ms"@,
        "font_family"@ != "panel_mode_indicator"@,
        "font_family"@ != "anchor_probe"@,
        "font_family"@ != "anchor_probe_timeout_ms"@,
        "panel_mode_indicator"@ != "anchor_probe"@,
        "panel_mode_indicator"@ != "anchor_probe_timeout_ms"@,
        "anchor_probe"@ != "anchor_probe_timeout_ms"@,
{
    reveal_strlit("panel_theme");
    reveal_strlit("candidate_layout");
    reveal_strlit("font_size");
    reveal_strlit("font_family");
    reveal_strlit("panel_mode_indicator");
    reveal_strlit("anchor_probe");
    reveal_strlit("anchor_probe_timeout_ms");
    assert("panel_theme"@.len() != "candidate_layout"@.len());
    assert("panel_theme"@.len() != "font_size"@.len());
    assert("panel_theme"@[0] != "font_family"@[0]);
    assert("panel_theme"@.len() != "panel_mode_indicator"@.len());
    assert("panel_theme"@[0] != "anchor_probe"@[0]);
    assert("panel_theme"@.len() != "anchor_probe_timeout_ms"@.len());
    assert("candidate_layout"@[0] != "font_size"@[0]);
    assert("candidate_layout"@[0] != "font_family"@[0]);
    assert("candidate_layout"@[0] != "panel_mode_indicator"@[0]);
    assert("candidate_layout"@[0] != "anchor_probe"@[0]);
    assert("candidate_layout"@[0] != "anchor_probe_timeout_ms"@[0]);
    assert("font_size"@.len() != "font_family"@.len());
    assert("font_size"@[0] != "panel_mode_indicator"@[0]);
    assert("font_size"@[0] != "anchor_probe"@[0]);
    assert("font_size"@[0] != "anchor_probe_timeout_ms"@[0]);
    assert("font_family"@[0] != "panel_mode_indicator"@[0]);
    assert("font_family"@[0] != "anchor_probe"@[0]);
    assert("font_family"@[0] != "anchor_probe_timeout_ms"@[0]);
    assert("panel_mode_indicator"@[0] != "anchor_probe"@[0]);
    assert("panel_mode_indicator"@[0] != "anchor_probe_timeout_ms"@[0]);
    assert("anchor_probe"@.len() != "anchor_probe_timeout_ms"@.len());
}

} // verus!
