//! Parsing of raw configuration values as typed by users over IPC
//! (`config.set <key> <text>`): whitespace trimming, integers, booleans,
//! choice lists and string lists (comma-separated or a JSON array).
use vstd::prelude::*;

use crate::text::str_eq;

verus! {

/// Unicode `White_Space` characters, the set `str::trim` removes.
pub open spec fn is_white_space(c: char) -> bool {
    ||| ('\u{9}' <= c && c <= '\u{d}')
    ||| c == ' '
    ||| c == '\u{85}'
    ||| c == '\u{a0}'
    ||| c == '\u{1680}'
    ||| ('\u{2000}' <= c && c <= '\u{200a}')
    ||| c == '\u{2028}'
    ||| c == '\u{2029}'
    ||| c == '\u{202f}'
    ||| c == '\u{205f}'
    ||| c == '\u{3000}'
}

/// Whether `c` is Unicode `White_Space`.
pub fn is_whitespace_char(c: char) -> (b: bool)
    ensures
        b == is_white_space(c),
{
    ('\u{9}' <= c && c <= '\u{d}') || c == ' ' || c == '\u{85}' || c == '\u{a0}' || c
        == '\u{1680}' || ('\u{2000}' <= c && c <= '\u{200a}') || c == '\u{2028}' || c
        == '\u{2029}' || c == '\u{202f}' || c == '\u{205f}' || c == '\u{3000}'
}

/// `s` without its leading white space.
pub open spec fn trim_start_spec(s: Seq<char>) -> Seq<char>
    decreases s.len(),
{
    if s.len() > 0 && is_white_space(s[0]) {
        trim_start_spec(s.drop_first())
    } else {
        s
    }
}

/// `s` without its trailing white space.
pub open spec fn trim_end_spec(s: Seq<char>) -> Seq<char>
    decreases s.len(),
{
    if s.len() > 0 && is_white_space(s.last()) {
        trim_end_spec(s.drop_last())
    } else {
        s
    }
}

/// `s` without leading and trailing white space.
pub open spec fn trim_spec(s: Seq<char>) -> Seq<char> {
    trim_end_spec(trim_start_spec(s))
}

proof fn lemma_trim_start_from(s: Seq<char>, i: int)
    requires
        0 <= i <= s.len(),
        forall|j: int| 0 <= j < i ==> is_white_space(#[trigger] s[j]),
    ensures
        trim_start_spec(s) == trim_start_spec(s.subrange(i, s.len() as int)),
    decreases i,
{
    if i > 0 {
        assert(s.drop_first().subrange(i - 1, s.drop_first().len() as int) =~= s.subrange(
            i,
            s.len() as int,
        ));
        assert forall|j: int| 0 <= j < i - 1 implies is_white_space(
            #[trigger] s.drop_first()[j],
        ) by {
            assert(s.drop_first()[j] == s[j + 1]);
        }
        lemma_trim_start_from(s.drop_first(), i - 1);
    } else {
        assert(s.subrange(0, s.len() as int) =~= s);
    }
}

proof fn lemma_trim_end_to(s: Seq<char>, k: int)
    requires
        0 <= k <= s.len(),
        forall|j: int| k <= j < s.len() ==> is_white_space(#[trigger] s[j]),
    ensures
        trim_end_spec(s) == trim_end_spec(s.subrange(0, k)),
    decreases s.len() - k,
{
    if k < s.len() {
        assert(s.drop_last().subrange(0, k) =~= s.subrange(0, k));
        assert forall|j: int| k <= j < s.drop_last().len() implies is_white_space(
            #[trigger] s.drop_last()[j],
        ) by {
            assert(s.drop_last()[j] == s[j]);
        }
        lemma_trim_end_to(s.drop_last(), k);
    } else {
        assert(s.subrange(0, k) =~= s);
    }
}

/// `s` without leading and trailing Unicode white space.
pub fn trim(s: &str) -> (t: &str)
    ensures
        t@ == trim_spec(s@),
{
    let n = s.unicode_len();
    let mut start: usize = 0;
    while start < n && is_whitespace_char(s.get_char(start))
        invariant
            n == s@.len(),
            0 <= start <= n,
            forall|j: int| 0 <= j < start ==> is_white_space(#[trigger] s@[j]),
        decreases n - start,
    {
        start = start + 1;
    }
    let mut end: usize = n;
    while end > start && is_whitespace_char(s.get_char(end - 1))
        invariant
            n == s@.len(),
            0 <= start <= end <= n,
            forall|j: int| end <= j < n ==> is_white_space(#[trigger] s@[j]),
        decreases end - start,
    {
        end = end - 1;
    }
    proof {
        lemma_trim_start_from(s@, start as int);
        let rest = s@.subrange(start as int, n as int);
        assert(start == n || !is_white_space(rest[0]));
        assert(trim_start_spec(rest) == rest);
        assert forall|j: int| end - start <= j < rest.len() implies is_white_space(
            #[trigger] rest[j],
        ) by {
            assert(rest[j] == s@[j + start]);
        }
        lemma_trim_end_to(rest, end - start);
        let kept = rest.subrange(0, end - start);
        assert(kept =~= s@.subrange(start as int, end as int));
        assert(kept.len() == 0 || !is_white_space(kept.last()));
        assert(trim_end_spec(kept) == kept);
    }
    s.substring_char(start, end)
}


/// The trimmed field `field`, if it is not empty.
pub open spec fn keep_field(field: Seq<char>) -> Seq<Seq<char>> {
    if trim_spec(field).len() == 0 {
        Seq::empty()
    } else {
        seq![trim_spec(field)]
    }
}

/// The non-empty trimmed comma-separated items of `s`, where `current` holds
/// the characters of the field in progress.
pub open spec fn items_from(s: Seq<char>, current: Seq<char>) -> Seq<Seq<char>>
    decreases s.len(),
{
    if s.len() == 0 {
        keep_field(current)
    } else if s[0] == ',' {
        keep_field(current) + items_from(s.drop_first(), Seq::empty())
    } else {
        items_from(s.drop_first(), current.push(s[0]))
    }
}

/// The items of a comma-separated list: split on `,`, trim each field, drop
/// the empty ones.
pub open spec fn csv_items(s: Seq<char>) -> Seq<Seq<char>> {
    items_from(s, Seq::empty())
}

/// The character views of a vector of strings.
pub open spec fn views(v: Seq<String>) -> Seq<Seq<char>> {
    v.map_values(|x: String| x@)
}

/// Split `s` on commas, trim each field and keep the non-empty ones.
pub fn split_csv_items(s: &str) -> (items: Vec<String>)
    ensures
        views(items@) == csv_items(s@),
{
    let n = s.unicode_len();
    let mut items: Vec<String> = Vec::new();
    let mut field_start: usize = 0;
    let mut i: usize = 0;
    proof {
        assert(s@.subrange(0, n as int) =~= s@);
        assert(s@.subrange(0, 0) =~= Seq::<char>::empty());
        assert(views(items@) =~= Seq::<Seq<char>>::empty());
    }
    while i < n
        invariant
            n == s@.len(),
            0 <= field_start <= i <= n,
            csv_items(s@) == views(items@) + items_from(
                s@.subrange(i as int, n as int),
                s@.subrange(field_start as int, i as int),
            ),
        decreases n - i,
    {
        let c = s.get_char(i);
        let ghost rest = s@.subrange(i as int, n as int);
        let ghost current = s@.subrange(field_start as int, i as int);
        proof {
            assert(rest.drop_first() =~= s@.subrange(i + 1, n as int));
            assert(rest[0] == c);
        }
        if c == ',' {
            let field = s.substring_char(field_start, i);
            let trimmed = trim(field);
            let ghost before = items@;
            if trimmed.unicode_len() > 0 {
                items.push(String::from_str(trimmed));
            }
            proof {
                assert(views(items@) =~= views(before) + keep_field(current));
                assert(s@.subrange(i + 1, i + 1) =~= Seq::<char>::empty());
            }
            field_start = i + 1;
        } else {
            proof {
                assert(current.push(c) =~= s@.subrange(field_start as int, i + 1));
            }
        }
        i = i + 1;
    }
    let field = s.substring_char(field_start, n);
    let trimmed = trim(field);
    let ghost before = items@;
    if trimmed.unicode_len() > 0 {
        items.push(String::from_str(trimmed));
    }
    proof {
        assert(views(items@) =~= views(before) + keep_field(s@.subrange(field_start as int, n as int)));
        assert(s@.subrange(n as int, n as int).len() == 0);
    }
    items
}


/// What `serde_json` makes of `text` when asked for a list of strings: the
/// strings of a JSON array whose items are all strings, or `None` when `text`
/// is not valid JSON or is not such an array.
pub uninterp spec fn json_string_array(text: Seq<char>) -> Option<Seq<Seq<char>>>;

/// Deserialize `text` as a JSON array of strings with
/// `serde_json::from_str::<Vec<String>>`. The contract claims only that the
/// strings returned (or the refusal) are what [`json_string_array`] names for
/// `text`; what serde_json accepts as such an array is not restated.
#[verifier::external_body]
fn parse_json_string_array(text: &str) -> (items: Option<Vec<String>>)
    ensures
        match items {
            Some(v) => json_string_array(text@) == Some(views(v@)),
            None => json_string_array(text@) is None,
        },
{
    serde_json::from_str::<Vec<String>>(text).ok()
}

/// The string list a raw value denotes: after trimming, text starting with
/// `[` must be a JSON array of strings (anything else is rejected); other
/// text is a comma-separated list whose trimmed, non-empty items are kept.
pub open spec fn string_list_spec(raw: Seq<char>) -> Option<Seq<Seq<char>>> {
    let t = trim_spec(raw);
    if t.len() > 0 && t[0] == '[' {
        json_string_array(t)
    } else {
        Some(csv_items(t))
    }
}

/// Parse a list-valued setting: a JSON array of strings, or comma-separated
/// items.
pub fn parse_string_list(raw: &str) -> (list: Result<Vec<String>, ()>)
    ensures
        match list {
            Ok(v) => string_list_spec(raw@) == Some(views(v@)),
            Err(_) => string_list_spec(raw@) is None,
        },
{
    let trimmed = trim(raw);
    if trimmed.unicode_len() > 0 && trimmed.get_char(0) == '[' {
        match parse_json_string_array(trimmed) {
            Some(v) => Ok(v),
            None => Err(()),
        }
    } else {
        Ok(split_csv_items(trimmed))
    }
}

/// Whether `c` is an ASCII decimal digit.
pub open spec fn is_digit(c: char) -> bool {
    '0' <= c && c <= '9'
}

/// The value of a string of decimal digits (0 for the empty string).
pub open spec fn digits_value(s: Seq<char>) -> int
    decreases s.len(),
{
    if s.len() == 0 {
        0
    } else {
        digits_value(s.drop_last()) * 10 + (s.last() as int - '0' as int)
    }
}

/// `s` without a leading sign character.
pub open spec fn unsigned_part(s: Seq<char>) -> Seq<char> {
    if s.len() > 0 && (s[0] == '-' || s[0] == '+') {
        s.drop_first()
    } else {
        s
    }
}

/// Whether every character of `s` is an ASCII digit.
pub open spec fn all_digits(s: Seq<char>) -> bool {
    forall|i: int| 0 <= i < s.len() ==> is_digit(#[trigger] s[i])
}

/// The `i32` a text denotes in Rust's integer syntax: an optional `+` or `-`
/// followed by one or more ASCII digits, whose value fits in an `i32`.
pub open spec fn parse_i32_spec(s: Seq<char>) -> Option<i32> {
    let negative = s.len() > 0 && s[0] == '-';
    let digits = unsigned_part(s);
    if digits.len() == 0 || !all_digits(digits) {
        None
    } else {
        let v = if negative { -digits_value(digits) } else { digits_value(digits) };
        if i32::MIN <= v && v <= i32::MAX { Some(v as i32) } else { None }
    }
}

proof fn lemma_digits_value_grows(s: Seq<char>, k: int)
    requires
        0 <= k <= s.len(),
        forall|i: int| 0 <= i < s.len() ==> is_digit(#[trigger] s[i]),
    ensures
        digits_value(s.subrange(0, k)) <= digits_value(s),
        digits_value(s) >= 0,
    decreases s.len(),
{
    if s.len() > 0 {
        assert forall|i: int| 0 <= i < s.drop_last().len() implies is_digit(
            #[trigger] s.drop_last()[i],
        ) by {
            assert(s.drop_last()[i] == s[i]);
        }
        if k == s.len() {
            assert(s.subrange(0, k) =~= s);
            lemma_digits_value_grows(s.drop_last(), 0);
        } else {
            assert(s.drop_last().subrange(0, k) =~= s.subrange(0, k));
            lemma_digits_value_grows(s.drop_last(), k);
        }
    } else {
        assert(s.subrange(0, k) =~= s);
    }
}

/// Parse `s` as an `i32` in Rust's integer syntax.
pub fn parse_i32(s: &str) -> (v: Option<i32>)
    ensures
        v == parse_i32_spec(s@),
{
    let n = s.unicode_len();
    let mut start: usize = 0;
    let mut negative = false;
    if n > 0 && (s.get_char(0) == '-' || s.get_char(0) == '+') {
        negative = s.get_char(0) == '-';
        start = 1;
    }
    let digits = s.substring_char(start, n);
    let ghost d = digits@;
    proof {
        if n > 0 && (s@[0] == '-' || s@[0] == '+') {
            assert(d =~= s@.drop_first());
        } else {
            assert(d =~= s@);
        }
    }
    assert(d == unsigned_part(s@));
    let m = digits.unicode_len();
    if m == 0 {
        return None;
    }
    let mut acc: u64 = 0;
    let mut i: usize = 0;
    while i < m
        invariant
            m == d.len(),
            d == digits@,
            d == unsigned_part(s@),
            0 <= i <= m,
            forall|j: int| 0 <= j < i ==> is_digit(#[trigger] d[j]),
            acc == digits_value(d.subrange(0, i as int)),
            acc <= 2147483648,
        decreases m - i,
    {
        let c = digits.get_char(i);
        if !('0' <= c && c <= '9') {
            proof {
                assert(!is_digit(d[i as int]));
                assert(!all_digits(d));
            }
            return None;
        }
        let digit = (c as u32 - '0' as u32) as u64;
        proof {
            assert(d.subrange(0, i + 1).drop_last() =~= d.subrange(0, i as int));
        }
        let next = acc * 10 + digit;
        if next > 2147483648 {
            proof {
                assert(next == digits_value(d.subrange(0, i + 1)));
                if all_digits(d) {
                    lemma_digits_value_grows(d, i + 1);
                    assert(digits_value(d) > 2147483648);
                }
            }
            return None;
        }
        acc = next;
        i = i + 1;
    }
    proof {
        assert(d.subrange(0, m as int) =~= d);
    }
    if negative {
        Some((0 - (acc as i64)) as i32)
    } else if acc > 2147483647 {
        None
    } else {
        Some(acc as i32)
    }
}

/// Parse a boolean setting: `true`/`1` or `false`/`0` after trimming.
pub fn parse_bool(raw: &str) -> (b: Option<bool>)
    ensures
        ({
            let t = trim_spec(raw@);
            &&& (t == "true"@ || t == "1"@) ==> b == Some(true)
            &&& (t == "false"@ || t == "0"@) ==> b == Some(false)
            &&& !(t == "true"@ || t == "1"@ || t == "false"@ || t == "0"@) ==> b is None
        }),
{
    let t = trim(raw);
    proof {
        reveal_strlit("true");
        reveal_strlit("1");
        reveal_strlit("false");
        reveal_strlit("0");
        assert("true"@.len() != "false"@.len() && "true"@.len() != "0"@.len());
        assert("1"@.len() != "false"@.len() && "1"@[0] != "0"@[0]);
    }
    if str_eq(t, "true") || str_eq(t, "1") {
        Some(true)
    } else if str_eq(t, "false") || str_eq(t, "0") {
        Some(false)
    } else {
        None
    }
}


/// The declared type of a configuration field.
#[derive(Debug, Clone, Copy, PartialEq, Eq, Structural)]
pub enum FieldType {
    String,
    Int,
    Bool,
    Float,
    Array,
}

/// The type a `config.set` writes: a list-valued current value stays a list
/// (old schemas declared some lists as strings); otherwise the schema's type
/// wins, then the current value's; with neither the key is unknown.
pub fn resolve_field_type(schema: Option<FieldType>, current: Option<FieldType>) -> (t: Option<
    FieldType,
>)
    ensures
        current == Some(FieldType::Array) ==> t == Some(FieldType::Array),
        current != Some(FieldType::Array) && schema is Some ==> t == schema,
        current != Some(FieldType::Array) && schema is None ==> t == current,
{
    match (schema, current) {
        (_, Some(FieldType::Array)) => Some(FieldType::Array),
        (Some(field_type), _) => Some(field_type),
        (None, Some(field_type)) => Some(field_type),
        (None, None) => None,
    }
}

/// Schema constraints on a field's value.
#[derive(Debug, Clone)]
pub struct FieldConstraints {
    /// Allowed string values, when the field is an enumeration.
    pub choices: Option<Vec<String>>,
    /// Inclusive integer range; enforced only when `max > min`.
    pub min: i32,
    pub max: i32,
}

/// A raw setting parsed according to its field type.
#[derive(Debug, Clone, PartialEq, Eq)]
pub enum ParsedValue {
    /// A string value, exactly as given.
    Text(String),
    /// An integer value.
    Int(i32),
    /// A boolean value.
    Bool(bool),
    /// A floating-point value still in text form (trimmed); it is converted
    /// and checked for finiteness where floats are handled.
    Float(String),
    /// A list of strings.
    List(Vec<String>),
}

/// Whether `s` is one of `choices`.
pub fn contains_choice(choices: &Vec<String>, s: &str) -> (found: bool)
    ensures
        found == exists|i: int| 0 <= i < choices@.len() && #[trigger] choices@[i]@ == s@,
{
    let n = choices.len();
    for i in 0..n
        invariant
            n == choices@.len(),
            forall|j: int| 0 <= j < i ==> #[trigger] choices@[j]@ != s@,
    {
        if str_eq(choices[i].as_str(), s) {
            return true;
        }
    }
    false
}

/// Whether an integer satisfies a schema's range (only enforced when the
/// range is non-trivial, `max > min`).
pub open spec fn in_range(c: FieldConstraints, v: i32) -> bool {
    c.max > c.min ==> c.min <= v <= c.max
}

/// A schema range with `max > min` admits exactly the integers from `min` to
/// `max`, both ends included: `max + 1` and `min - 1` are refused. A range
/// with `max <= min` is no constraint.
pub proof fn lemma_schema_range_is_inclusive(c: FieldConstraints, v: i32)
    ensures
        c.max > c.min ==> (in_range(c, v) <==> c.min <= v && v <= c.max),
        c.max > c.min ==> in_range(c, c.min) && in_range(c, c.max),
        c.max > c.min && c.max < i32::MAX ==> !in_range(c, (c.max + 1) as i32),
        c.max > c.min && c.min > i32::MIN ==> !in_range(c, (c.min - 1) as i32),
        c.max <= c.min ==> in_range(c, v),
{
}

/// Parse the raw text of a `config.set` according to the field type:
/// a string must be one of the schema's choices when it has some; an integer
/// is parsed after trimming and must lie in the schema's range; a boolean is
/// `true`/`1`/`false`/`0`; a list is a JSON array of strings or
/// comma-separated items. A float is passed on trimmed for conversion where
/// floats are handled.
pub fn parse_config_value(raw: &str, field_type: FieldType, constraints: Option<&FieldConstraints>) -> (r:
    Result<ParsedValue, ()>)
    ensures
        field_type == FieldType::String ==> (match constraints {
            Some(c) if c.choices is Some && !(exists|i: int|
                0 <= i < c.choices->0@.len() && #[trigger] c.choices->0@[i]@ == raw@) => r is Err,
            _ => r matches Ok(ParsedValue::Text(t)) && t@ == raw@,
        }),
        field_type == FieldType::Int ==> (match parse_i32_spec(trim_spec(raw@)) {
            None => r is Err,
            Some(v) => match constraints {
                Some(c) if !in_range(*c, v) => r is Err,
                _ => r == Ok::<ParsedValue, ()>(ParsedValue::Int(v)),
            },
        }),
        field_type == FieldType::Bool ==> ({
            let t = trim_spec(raw@);
            &&& (t == "true"@ || t == "1"@) ==> r == Ok::<ParsedValue, ()>(ParsedValue::Bool(true))
            &&& (t == "false"@ || t == "0"@) ==> r == Ok::<ParsedValue, ()>(ParsedValue::Bool(false))
            &&& !(t == "true"@ || t == "1"@ || t == "false"@ || t == "0"@) ==> r is Err
        }),
        field_type == FieldType::Float ==> (r matches Ok(ParsedValue::Float(t)) && t@ == trim_spec(
            raw@,
        )),
        field_type == FieldType::Int && (constraints matches Some(c) && c.max > c.min) ==> (
        r matches Ok(ParsedValue::Int(v)) ==> constraints->0.min <= v <= constraints->0.max),
        field_type == FieldType::Array ==> (match string_list_spec(raw@) {
            None => r is Err,
            Some(items) => r matches Ok(ParsedValue::List(v)) && views(v@) == items,
        }),
{
    match field_type {
        FieldType::String => {
            if let Some(c) = constraints {
                if let Some(choices) = &c.choices {
                    if !contains_choice(choices, raw) {
                        return Err(());
                    }
                }
            }
            Ok(ParsedValue::Text(String::from_str(raw)))
        },
        FieldType::Int => {
            let value = match parse_i32(trim(raw)) {
                Some(v) => v,
                None => return Err(()),
            };
            if let Some(c) = constraints {
                if c.max > c.min && !(c.min <= value && value <= c.max) {
                    return Err(());
                }
            }
            Ok(ParsedValue::Int(value))
        },
        FieldType::Bool => match parse_bool(raw) {
            Some(b) => Ok(ParsedValue::Bool(b)),
            None => Err(()),
        },
        FieldType::Float => Ok(ParsedValue::Float(String::from_str(trim(raw)))),
        FieldType::Array => match parse_string_list(raw) {
            Ok(v) => Ok(ParsedValue::List(v)),
            Err(_) => Err(()),
        },
    }
}

/// Whether `key` is listed under `prefix`: an empty prefix lists every key.
pub open spec fn listed_under(prefix: Seq<char>, key: Seq<char>) -> bool {
    prefix.len() == 0 || (prefix.len() <= key.len() && key.subrange(0, prefix.len() as int)
        == prefix)
}

/// Whether `key` is listed under `prefix`.
pub fn key_listed(prefix: &str, key: &str) -> (b: bool)
    ensures
        b == listed_under(prefix@, key@),
{
    let n = prefix.unicode_len();
    if n == 0 {
        return true;
    }
    if n > key.unicode_len() {
        return false;
    }
    str_eq(key.substring_char(0, n), prefix)
}

/// The section of a key: the text before its last `.`, if it has one.
pub open spec fn key_section_spec(key: Seq<char>) -> Option<Seq<char>>
    decreases key.len(),
{
    if key.len() == 0 {
        None
    } else if key.last() == '.' {
        Some(key.drop_last())
    } else {
        key_section_spec(key.drop_last())
    }
}

/// The section of a key without a schema entry: the text before its last
/// `.`, if it has one.
pub fn key_section(key: &str) -> (section: Option<String>)
    ensures
        match section {
            Some(s) => key_section_spec(key@) == Some(s@),
            None => key_section_spec(key@) is None,
        },
{
    let mut end = key.unicode_len();
    proof {
        assert(key@.subrange(0, end as int) =~= key@);
    }
    while end > 0
        invariant
            0 <= end <= key@.len(),
            key_section_spec(key@) == key_section_spec(key@.subrange(0, end as int)),
        decreases end,
    {
        let ghost head = key@.subrange(0, end as int);
        proof {
            assert(head.drop_last() =~= key@.subrange(0, end - 1));
        }
        if key.get_char(end - 1) == '.' {
            return Some(String::from_str(key.substring_char(0, end - 1)));
        }
        end = end - 1;
    }
    None
}

/// A stored configuration value as the listing sees it: its key, and
/// whether its value has a field type (tables have none and are not listed).
#[derive(Debug, Clone, PartialEq, Eq)]
pub struct StoredKey {
    pub key: String,
    pub typed: bool,
}

/// One row of a configuration listing.
#[derive(Debug, Clone, Copy, PartialEq, Eq, Structural)]
pub enum ListedKey {
    /// The schema field at this index.
    Schema(usize),
    /// The stored value at this index, which no schema field describes.
    Stored(usize),
}

/// The schema rows among the first `n` schema keys listed under `prefix`.
pub open spec fn schema_rows(schema: Seq<Seq<char>>, prefix: Seq<char>, n: int) -> Seq<ListedKey>
    decreases n,
{
    if n <= 0 {
        Seq::empty()
    } else {
        schema_rows(schema, prefix, n - 1) + if listed_under(prefix, schema[n - 1]) {
            seq![ListedKey::Schema((n - 1) as usize)]
        } else {
            Seq::empty()
        }
    }
}

/// Whether the stored value `k` gets a row of its own.
pub open spec fn stored_listed(schema: Seq<Seq<char>>, prefix: Seq<char>, k: StoredKey) -> bool {
    &&& listed_under(prefix, k.key@)
    &&& k.typed
    &&& !schema.contains(k.key@)
}

/// The rows for the first `n` stored values.
pub open spec fn stored_rows(
    schema: Seq<Seq<char>>,
    stored: Seq<StoredKey>,
    prefix: Seq<char>,
    n: int,
) -> Seq<ListedKey>
    decreases n,
{
    if n <= 0 {
        Seq::empty()
    } else {
        stored_rows(schema, stored, prefix, n - 1) + if stored_listed(schema, prefix, stored[n - 1]) {
            seq![ListedKey::Stored((n - 1) as usize)]
        } else {
            Seq::empty()
        }
    }
}

/// The rows of a configuration listing under `prefix`: every schema field
/// listed under it, in schema order, then every typed stored value listed
/// under it that no schema field describes, in storage order.
pub fn plan_config_list(schema_keys: &Vec<String>, stored: &Vec<StoredKey>, prefix: &str) -> (rows:
    Vec<ListedKey>)
    ensures
        rows@ == schema_rows(views(schema_keys@), prefix@, schema_keys@.len() as int)
            + stored_rows(views(schema_keys@), stored@, prefix@, stored@.len() as int),
{
    let ghost sv = views(schema_keys@);
    let mut rows: Vec<ListedKey> = Vec::new();
    let n = schema_keys.len();
    let mut i: usize = 0;
    while i < n
        invariant
            n == schema_keys@.len(),
            sv == views(schema_keys@),
            0 <= i <= n,
            rows@ == schema_rows(sv, prefix@, i as int),
        decreases n - i,
    {
        proof {
            assert(sv[i as int] == schema_keys@[i as int]@);
        }
        let ghost before = rows@;
        if key_listed(prefix, schema_keys[i].as_str()) {
            rows.push(ListedKey::Schema(i));
            proof {
                assert(rows@ =~= before + seq![ListedKey::Schema(i)]);
            }
        } else {
            proof {
                assert(before + Seq::<ListedKey>::empty() =~= before);
            }
        }
        i = i + 1;
    }
    let ghost head = rows@;
    let m = stored.len();
    let mut j: usize = 0;
    proof {
        assert(head + stored_rows(sv, stored@, prefix@, 0) =~= head);
    }
    while j < m
        invariant
            m == stored@.len(),
            n == schema_keys@.len(),
            sv == views(schema_keys@),
            head == schema_rows(sv, prefix@, n as int),
            0 <= j <= m,
            rows@ == head + stored_rows(sv, stored@, prefix@, j as int),
        decreases m - j,
    {
        let k = &stored[j];
        let ghost before = rows@;
        let listed = key_listed(prefix, k.key.as_str()) && k.typed && !contains_choice(
            schema_keys,
            k.key.as_str(),
        );
        proof {
            if listed != stored_listed(sv, prefix@, stored@[j as int]) {
                if sv.contains(k.key@) {
                    let w = choose|w: int| 0 <= w < sv.len() && sv[w] == k.key@;
                    assert(schema_keys@[w]@ == k.key@);
                } else {
                    assert forall|w: int| 0 <= w < schema_keys@.len() implies #[trigger] schema_keys@[w]@ != k.key@ by {
                        assert(sv[w] == schema_keys@[w]@);
                    }
                }
            }
        }
        if listed {
            rows.push(ListedKey::Stored(j));
            proof {
                assert(rows@ =~= before + seq![ListedKey::Stored(j)]);
                assert(head + stored_rows(sv, stored@, prefix@, j + 1) =~= head + stored_rows(
                    sv,
                    stored@,
                    prefix@,
                    j as int,
                ) + seq![ListedKey::Stored(j)]);
            }
        } else {
            proof {
                assert(head + stored_rows(sv, stored@, prefix@, j + 1) =~= head + stored_rows(
                    sv,
                    stored@,
                    prefix@,
                    j as int,
                ));
            }
        }
        j = j + 1;
    }
    rows
}

} // verus!
