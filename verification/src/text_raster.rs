//! Font-face choice for candidate text: script classification and the
//! ranking that picks, per code point, the face that renders it best.
use vstd::prelude::*;

use crate::config_value::views;
use crate::settings::{ascii_lower_code, eq_ignore_ascii_case, eq_ignore_ascii_case_spec};

verus! {

/// Whether code point `c` lies in one of the CJK blocks for which CJK sans
/// fonts are preferred: radicals, CJK symbols and punctuation, kana, bopomofo,
/// Hangul compatibility jamo, kanbun, CJK strokes, enclosed and compatibility
/// CJK, unified ideographs (base, extension A and the supplementary-plane
/// extensions), Hangul jamo extended-A, Hangul syllables and compatibility
/// ideographs.
pub open spec fn is_cjk_code_point(c: u32) -> bool {
    ||| 0x2E80 <= c <= 0x2EFF
    ||| 0x2F00 <= c <= 0x2FDF
    ||| 0x3000 <= c <= 0x303F
    ||| 0x3040 <= c <= 0x309F
    ||| 0x30A0 <= c <= 0x30FF
    ||| 0x3100 <= c <= 0x312F
    ||| 0x3130 <= c <= 0x318F
    ||| 0x31A0 <= c <= 0x31BF
    ||| 0x31C0 <= c <= 0x31EF
    ||| 0x3200 <= c <= 0x32FF
    ||| 0x3300 <= c <= 0x33FF
    ||| 0x3400 <= c <= 0x4DBF
    ||| 0x4E00 <= c <= 0x9FFF
    ||| 0xA960 <= c <= 0xA97F
    ||| 0xAC00 <= c <= 0xD7AF
    ||| 0xF900 <= c <= 0xFAFF
    ||| 0x20000 <= c <= 0x2A6DF
    ||| 0x2A700 <= c <= 0x2B73F
    ||| 0x2B740 <= c <= 0x2B81F
    ||| 0x2B820 <= c <= 0x2CEAF
    ||| 0x2CEB0 <= c <= 0x2EBEF
    ||| 0x30000 <= c <= 0x3134F
}

/// Whether `c` is a CJK character for font-selection purposes.
pub fn is_cjk_candidate_char(c: char) -> (b: bool)
    ensures
        b == is_cjk_code_point(c as u32),
{
    let c = c as u32;
    (0x2E80 <= c && c <= 0x2EFF) || (0x2F00 <= c && c <= 0x2FDF) || (0x3000 <= c && c <= 0x303F)
        || (0x3040 <= c && c <= 0x309F) || (0x30A0 <= c && c <= 0x30FF) || (0x3100 <= c && c
        <= 0x312F) || (0x3130 <= c && c <= 0x318F) || (0x31A0 <= c && c <= 0x31BF) || (0x31C0
        <= c && c <= 0x31EF) || (0x3200 <= c && c <= 0x32FF) || (0x3300 <= c && c <= 0x33FF) || (
    0x3400 <= c && c <= 0x4DBF) || (0x4E00 <= c && c <= 0x9FFF) || (0xA960 <= c && c <= 0xA97F)
        || (0xAC00 <= c && c <= 0xD7AF) || (0xF900 <= c && c <= 0xFAFF) || (0x20000 <= c && c
        <= 0x2A6DF) || (0x2A700 <= c && c <= 0x2B73F) || (0x2B740 <= c && c <= 0x2B81F) || (
    0x2B820 <= c && c <= 0x2CEAF) || (0x2CEB0 <= c && c <= 0x2EBEF) || (0x30000 <= c && c
        <= 0x3134F)
}

/// CJK sans families, most preferred first.
pub open spec fn cjk_sans_families() -> Seq<Seq<char>> {
    seq![
        "Noto Sans SC"@, "Noto Sans CJK SC"@, "Source Han Sans SC"@, "WenQuanYi Micro Hei"@,
        "Microsoft YaHei"@, "PingFang SC"@, "Noto Sans TC"@, "Noto Sans CJK TC"@,
        "Noto Sans HK"@, "Noto Sans CJK HK"@, "Noto Sans JP"@, "Noto Sans CJK JP"@,
        "Noto Sans KR"@, "Noto Sans CJK KR"@, "Apple SD Gothic Neo"@, "Malgun Gothic"@,
    ]
}

/// UI sans families for non-CJK text, most preferred first.
pub open spec fn ui_sans_families() -> Seq<Seq<char>> {
    seq!["Noto Sans"@, "Inter"@, "Roboto"@, "DejaVu Sans"@, "Liberation Sans"@, "Arial"@]
}

/// The number of CJK sans families.
pub const CJK_SANS_COUNT: usize = 16;

/// The number of UI sans families.
pub const UI_SANS_COUNT: usize = 6;

/// The CJK sans family at preference position `i`.
pub fn cjk_sans_family(i: usize) -> (f: &'static str)
    requires
        i < CJK_SANS_COUNT,
    ensures
        f@ == cjk_sans_families()[i as int],
{
    match i {
        0 => "Noto Sans SC",
        1 => "Noto Sans CJK SC",
        2 => "Source Han Sans SC",
        3 => "WenQuanYi Micro Hei",
        4 => "Microsoft YaHei",
        5 => "PingFang SC",
        6 => "Noto Sans TC",
        7 => "Noto Sans CJK TC",
        8 => "Noto Sans HK",
        9 => "Noto Sans CJK HK",
        10 => "Noto Sans JP",
        11 => "Noto Sans CJK JP",
        12 => "Noto Sans KR",
        13 => "Noto Sans CJK KR",
        14 => "Apple SD Gothic Neo",
        _ => "Malgun Gothic",
    }
}

/// The UI sans family at preference position `i`.
pub fn ui_sans_family(i: usize) -> (f: &'static str)
    requires
        i < UI_SANS_COUNT,
    ensures
        f@ == ui_sans_families()[i as int],
{
    match i {
        0 => "Noto Sans",
        1 => "Inter",
        2 => "Roboto",
        3 => "DejaVu Sans",
        4 => "Liberation Sans",
        _ => "Arial",
    }
}

/// Which preference list a rank is taken in.
#[derive(Debug, Clone, Copy, PartialEq, Eq, Structural)]
pub enum FamilyList {
    CjkSans,
    UiSans,
}

/// The families of a preference list.
pub open spec fn family_list(l: FamilyList) -> Seq<Seq<char>> {
    match l {
        FamilyList::CjkSans => cjk_sans_families(),
        FamilyList::UiSans => ui_sans_families(),
    }
}

fn family_in_list(l: FamilyList, i: usize) -> (f: &'static str)
    requires
        i < family_list(l).len(),
    ensures
        f@ == family_list(l)[i as int],
{
    match l {
        FamilyList::CjkSans => cjk_sans_family(i),
        FamilyList::UiSans => ui_sans_family(i),
    }
}

fn family_list_len(l: FamilyList) -> (n: usize)
    ensures
        n == family_list(l).len(),
{
    match l {
        FamilyList::CjkSans => CJK_SANS_COUNT,
        FamilyList::UiSans => UI_SANS_COUNT,
    }
}

/// The first position at or after `k` in `prefs` of a family equal to `f`
/// up to ASCII case.
pub open spec fn position_from(f: Seq<char>, prefs: Seq<Seq<char>>, k: int) -> Option<int>
    decreases prefs.len() - k,
{
    if k < 0 || k >= prefs.len() {
        None
    } else if eq_ignore_ascii_case_spec(f, prefs[k]) {
        Some(k)
    } else {
        position_from(f, prefs, k + 1)
    }
}

/// The preference rank of a face: the position in `prefs` of the first of
/// its `families` (in the face's order) that appears there.
pub open spec fn rank_from(families: Seq<Seq<char>>, prefs: Seq<Seq<char>>, i: int) -> Option<int>
    decreases families.len() - i,
{
    if i < 0 || i >= families.len() {
        None
    } else {
        match position_from(families[i], prefs, 0) {
            Some(j) => Some(j),
            None => rank_from(families, prefs, i + 1),
        }
    }
}

/// Whether `n` occurs in `h` at `i` once `h` is ASCII-lowercased (`n` being
/// lowercase already).
pub open spec fn lower_matches_at(h: Seq<char>, n: Seq<char>, i: int) -> bool {
    &&& 0 <= i
    &&& i + n.len() <= h.len()
    &&& forall|k: int| 0 <= k < n.len() ==> ascii_lower_code(#[trigger] h[i + k]) == n[k] as u32
}

/// Whether ASCII-lowercased `h` contains `n`.
pub open spec fn lower_contains(h: Seq<char>, n: Seq<char>) -> bool {
    exists|i: int| #[trigger] lower_matches_at(h, n, i)
}

/// What face selection reads of a system font face.
#[derive(Debug, Clone, PartialEq, Eq)]
pub struct FaceTraits {
    /// Family names, in the face's own order.
    pub families: Vec<String>,
    pub monospaced: bool,
    /// The face is upright (neither italic nor oblique).
    pub upright: bool,
    /// CSS weight (400 regular, 700 bold).
    pub weight: u16,
}

/// The position of `f` in the preference list `l`.
fn position_in(f: &str, l: FamilyList) -> (p: Option<usize>)
    ensures
        match p {
            Some(j) => position_from(f@, family_list(l), 0) == Some(j as int),
            None => position_from(f@, family_list(l), 0) is None,
        },
        p matches Some(j) ==> j < family_list(l).len(),
{
    let n = family_list_len(l);
    let mut k: usize = 0;
    while k < n
        invariant
            n == family_list(l).len(),
            0 <= k <= n,
            position_from(f@, family_list(l), 0) == position_from(f@, family_list(l), k as int),
        decreases n - k,
    {
        if eq_ignore_ascii_case(f, family_in_list(l, k)) {
            return Some(k);
        }
        k = k + 1;
    }
    None
}

/// The preference rank of a face with `families` in list `l`.
pub fn family_rank(families: &Vec<String>, l: FamilyList) -> (r: Option<usize>)
    ensures
        match r {
            Some(j) => rank_from(views(families@), family_list(l), 0) == Some(j as int),
            None => rank_from(views(families@), family_list(l), 0) is None,
        },
        r matches Some(j) ==> j < family_list(l).len(),
{
    let ghost fs = views(families@);
    let n = families.len();
    let mut i: usize = 0;
    while i < n
        invariant
            n == families@.len(),
            fs == views(families@),
            0 <= i <= n,
            rank_from(fs, family_list(l), 0) == rank_from(fs, family_list(l), i as int),
        decreases n - i,
    {
        proof {
            assert(fs[i as int] == families@[i as int]@);
        }
        match position_in(families[i].as_str(), l) {
            Some(j) => {
                return Some(j);
            },
            None => {},
        }
        i = i + 1;
    }
    None
}

/// Whether one of `families` equals `primary` up to ASCII case.
pub open spec fn is_primary_spec(families: Seq<Seq<char>>, primary: Option<Seq<char>>) -> bool {
    match primary {
        Some(p) => p.len() > 0 && exists|i: int|
            0 <= i < families.len() && eq_ignore_ascii_case_spec(#[trigger] families[i], p),
        None => false,
    }
}

/// Whether a face belongs to the configured primary family (an empty one
/// counts as none).
pub fn family_is_primary(families: &Vec<String>, primary: Option<&str>) -> (b: bool)
    ensures
        b == is_primary_spec(views(families@), match primary {
            Some(p) => Some(p@),
            None => None,
        }),
{
    let p = match primary {
        None => return false,
        Some(p) => p,
    };
    if p.unicode_len() == 0 {
        return false;
    }
    let ghost fs = views(families@);
    let n = families.len();
    let mut i: usize = 0;
    while i < n
        invariant
            n == families@.len(),
            fs == views(families@),
            p@.len() > 0,
            primary == Some(p),
            0 <= i <= n,
            forall|j: int| 0 <= j < i ==> !eq_ignore_ascii_case_spec(#[trigger] fs[j], p@),
        decreases n - i,
    {
        proof {
            assert(fs[i as int] == families@[i as int]@);
        }
        if eq_ignore_ascii_case(families[i].as_str(), p) {
            proof {
                assert(eq_ignore_ascii_case_spec(fs[i as int], p@));
            }
            return true;
        }
        i = i + 1;
    }
    false
}

/// Whether ASCII-lowercased `h` contains the lowercase `n`.
fn contains_lowered(h: &str, n: &str) -> (b: bool)
    ensures
        b == lower_contains(h@, n@),
{
    let hl = h.unicode_len();
    let nl = n.unicode_len();
    if nl > hl {
        proof {
            assert forall|i: int| !lower_matches_at(h@, n@, i) by {}
        }
        return false;
    }
    let last = hl - nl;
    let mut i: usize = 0;
    loop
        invariant
            hl == h@.len(),
            nl == n@.len(),
            nl <= hl,
            last == hl - nl,
            0 <= i <= last,
            forall|j: int| 0 <= j < i ==> !lower_matches_at(h@, n@, j),
        decreases last - i,
    {
        let mut k: usize = 0;
        let mut ok = true;
        while k < nl
            invariant
                hl == h@.len(),
                nl == n@.len(),
                i + nl <= hl,
                0 <= k <= nl,
                ok == forall|m: int| 0 <= m < k ==> ascii_lower_code(#[trigger] h@[i + m]) == n@[m] as u32,
            decreases nl - k,
        {
            let hc = h.get_char(i + k);
            let lowered: u32 = if 'A' <= hc && hc <= 'Z' { hc as u32 + 32 } else { hc as u32 };
            if lowered != n.get_char(k) as u32 {
                ok = false;
            }
            k = k + 1;
        }
        if ok {
            proof {
                assert(lower_matches_at(h@, n@, i as int));
            }
            return true;
        }
        if i == last {
            proof {
                assert forall|j: int| !lower_matches_at(h@, n@, j) by {
                    if 0 <= j <= last {
                        if j == i {
                        }
                    }
                }
            }
            return false;
        }
        i = i + 1;
    }
}

/// Whether some family name of a face contains `needle` (lowercase) once
/// lowercased.
pub fn family_contains(families: &Vec<String>, needle: &str) -> (b: bool)
    ensures
        b == exists|i: int|
            0 <= i < families@.len() && lower_contains(#[trigger] families@[i]@, needle@),
{
    let n = families.len();
    let mut i: usize = 0;
    while i < n
        invariant
            n == families@.len(),
            0 <= i <= n,
            forall|j: int| 0 <= j < i ==> !lower_contains(#[trigger] families@[j]@, needle@),
        decreases n - i,
    {
        if contains_lowered(families[i].as_str(), needle) {
            return true;
        }
        i = i + 1;
    }
    false
}

/// Whether a face has a family whose lowercased name contains `needle`.
pub open spec fn has_family_part(f: FaceTraits, needle: Seq<char>) -> bool {
    exists|i: int| 0 <= i < f.families@.len() && lower_contains(#[trigger] f.families@[i]@, needle)
}

/// The script tier of a face for code point `c`; lower is better. Tier 0
/// belongs to the configured primary family alone: it always wins when it
/// covers the code point. A face in a preferred list ranks one past its
/// position there.
pub open spec fn script_score_spec(f: FaceTraits, c: char, primary: Option<Seq<char>>) -> int {
    if is_primary_spec(views(f.families@), primary) {
        0
    } else if is_cjk_code_point(c as u32) {
        match rank_from(views(f.families@), cjk_sans_families(), 0) {
            Some(r) => r + 1,
            None => if has_family_part(f, "sans cjk"@) || has_family_part(f, "sans sc"@) {
                100
            } else if has_family_part(f, "serif"@) {
                900
            } else if has_family_part(f, "emoji"@) || has_family_part(f, "jigmo"@) {
                1000
            } else if f.monospaced {
                700
            } else {
                500
            },
        }
    } else {
        match rank_from(views(f.families@), ui_sans_families(), 0) {
            Some(r) => r + 1,
            None => if rank_from(views(f.families@), cjk_sans_families(), 0) is Some {
                250
            } else if has_family_part(f, "serif"@) {
                900
            } else if has_family_part(f, "emoji"@) {
                1000
            } else if f.monospaced {
                700
            } else {
                500
            },
        }
    }
}

/// The weight a face should have for `c`: Medium for CJK (Regular strokes
/// look thin next to Latin at small sizes), Regular otherwise.
pub open spec fn target_weight(c: char) -> u16 {
    if is_cjk_code_point(c as u32) {
        500
    } else {
        400
    }
}

/// The distance between two weights.
pub open spec fn weight_delta(a: u16, b: u16) -> u16 {
    (if a >= b {
        a - b
    } else {
        b - a
    }) as u16
}

/// How well a face renders `c`, compared lexicographically, lower being
/// better: the script tier (the configured primary family first, then the
/// preferred CJK or UI sans families, then generic classes), then an upright
/// style, then the weight closest to the target.
pub open spec fn face_score_spec(f: FaceTraits, c: char, primary: Option<Seq<char>>) -> (
    int,
    int,
    int,
) {
    (
        script_score_spec(f, c, primary),
        if f.upright {
            0int
        } else {
            1int
        },
        weight_delta(f.weight, target_weight(c)) as int,
    )
}

/// A face of the configured primary family scores strictly below every face
/// outside it, whatever the code point, style or weight.
pub proof fn lemma_primary_face_wins(
    primary_face: FaceTraits,
    other: FaceTraits,
    c: char,
    primary: Option<Seq<char>>,
)
    requires
        is_primary_spec(views(primary_face.families@), primary),
        !is_primary_spec(views(other.families@), primary),
    ensures
        score_lt(face_score_spec(primary_face, c, primary), face_score_spec(other, c, primary)),
{
    lemma_rank_nonnegative(views(other.families@), cjk_sans_families(), 0);
    lemma_rank_nonnegative(views(other.families@), ui_sans_families(), 0);
}

proof fn lemma_position_nonnegative(f: Seq<char>, prefs: Seq<Seq<char>>, k: int)
    ensures
        position_from(f, prefs, k) matches Some(j) ==> j >= 0,
    decreases prefs.len() - k,
{
    if k >= 0 && k < prefs.len() && !eq_ignore_ascii_case_spec(f, prefs[k]) {
        lemma_position_nonnegative(f, prefs, k + 1);
    }
}

proof fn lemma_rank_nonnegative(families: Seq<Seq<char>>, prefs: Seq<Seq<char>>, i: int)
    ensures
        rank_from(families, prefs, i) matches Some(r) ==> r >= 0,
    decreases families.len() - i,
{
    if i >= 0 && i < families.len() {
        lemma_position_nonnegative(families[i], prefs, 0);
        lemma_rank_nonnegative(families, prefs, i + 1);
    }
}

/// The score of a face for `c`: tier 0 exactly for a face of the configured
/// primary family, a positive tier for every other face.
pub fn face_score(face: &FaceTraits, c: char, primary: Option<&str>) -> (score: (usize, u8, u16))
    ensures
        (score.0 as int, score.1 as int, score.2 as int) == face_score_spec(*face, c, match primary {
            Some(p) => Some(p@),
            None => None,
        }),
        score.0 == 0 <==> is_primary_spec(views(face.families@), match primary {
            Some(p) => Some(p@),
            None => None,
        }),
{
    proof {
        lemma_rank_nonnegative(views(face.families@), cjk_sans_families(), 0);
        lemma_rank_nonnegative(views(face.families@), ui_sans_families(), 0);
    }
    let ghost pv = match primary {
        Some(p) => Some(p@),
        None => None::<Seq<char>>,
    };
    let cjk = is_cjk_candidate_char(c);
    let script: usize = if family_is_primary(&face.families, primary) {
        0
    } else if cjk {
        match family_rank(&face.families, FamilyList::CjkSans) {
            Some(r) => r + 1,
            None => if family_contains(&face.families, "sans cjk") || family_contains(
                &face.families,
                "sans sc",
            ) {
                100
            } else if family_contains(&face.families, "serif") {
                900
            } else if family_contains(&face.families, "emoji") || family_contains(
                &face.families,
                "jigmo",
            ) {
                1000
            } else if face.monospaced {
                700
            } else {
                500
            },
        }
    } else {
        match family_rank(&face.families, FamilyList::UiSans) {
            Some(r) => r + 1,
            None => if family_rank(&face.families, FamilyList::CjkSans).is_some() {
                250
            } else if family_contains(&face.families, "serif") {
                900
            } else if family_contains(&face.families, "emoji") {
                1000
            } else if face.monospaced {
                700
            } else {
                500
            },
        }
    };
    let style: u8 = if face.upright { 0 } else { 1 };
    let target: u16 = if cjk { 500 } else { 400 };
    let delta: u16 = if face.weight >= target { face.weight - target } else { target - face.weight };
    (script, style, delta)
}

/// Whether score `a` ranks strictly before score `b`.
pub open spec fn score_lt(a: (int, int, int), b: (int, int, int)) -> bool {
    a.0 < b.0 || (a.0 == b.0 && (a.1 < b.1 || (a.1 == b.1 && a.2 < b.2)))
}

/// The face that renders `c`, among faces that all cover it: the first of
/// those with the best score.
pub fn pick_face(faces: &[FaceTraits], c: char, primary: Option<&str>) -> (best: Option<usize>)
    ensures
        faces@.len() == 0 <==> best is None,
        best matches Some(i) ==> {
            let pv = match primary {
                Some(p) => Some(p@),
                None => None,
            };
            &&& i < faces@.len()
            &&& forall|j: int|
                0 <= j < faces@.len() ==> !score_lt(
                    face_score_spec(#[trigger] faces@[j], c, pv),
                    face_score_spec(faces@[i as int], c, pv),
                )
            &&& forall|j: int|
                0 <= j < i ==> score_lt(
                    face_score_spec(faces@[i as int], c, pv),
                    face_score_spec(#[trigger] faces@[j], c, pv),
                )
        },
{
    let ghost pv = match primary {
        Some(p) => Some(p@),
        None => None::<Seq<char>>,
    };
    let n = faces.len();
    if n == 0 {
        return None;
    }
    let mut best: usize = 0;
    let mut best_score = face_score(&faces[0], c, primary);
    let mut i: usize = 1;
    while i < n
        invariant
            n == faces@.len(),
            pv == match primary {
                Some(p) => Some(p@),
                None => None::<Seq<char>>,
            },
            1 <= i <= n,
            best < i,
            (best_score.0 as int, best_score.1 as int, best_score.2 as int) == face_score_spec(
                faces@[best as int],
                c,
                pv,
            ),
            forall|j: int|
                0 <= j < i ==> !score_lt(
                    face_score_spec(#[trigger] faces@[j], c, pv),
                    face_score_spec(faces@[best as int], c, pv),
                ),
            forall|j: int|
                0 <= j < best ==> score_lt(
                    face_score_spec(faces@[best as int], c, pv),
                    face_score_spec(#[trigger] faces@[j], c, pv),
                ),
        decreases n - i,
    {
        let s = face_score(&faces[i], c, primary);
        let better = s.0 < best_score.0 || (s.0 == best_score.0 && (s.1 < best_score.1 || (s.1
            == best_score.1 && s.2 < best_score.2)));
        if better {
            best = i;
            best_score = s;
        }
        i = i + 1;
    }
    Some(best)
}


/// The characters of `s` that some face covers, in order.
pub open spec fn covered_chars(s: Seq<(char, Option<usize>)>) -> Seq<char>
    decreases s.len(),
{
    if s.len() == 0 {
        Seq::empty()
    } else {
        let rest = covered_chars(s.drop_last());
        match s.last().1 {
            Some(_) => rest.push(s.last().0),
            None => rest,
        }
    }
}

/// The faces of the covered characters of `s`, in order.
pub open spec fn covered_faces(s: Seq<(char, Option<usize>)>) -> Seq<usize>
    decreases s.len(),
{
    if s.len() == 0 {
        Seq::empty()
    } else {
        let rest = covered_faces(s.drop_last());
        match s.last().1 {
            Some(f) => rest.push(f),
            None => rest,
        }
    }
}

/// A run's face and characters as values.
pub open spec fn run_view(r: (usize, Vec<char>)) -> (usize, Seq<char>) {
    (r.0, r.1@)
}

/// The characters of all runs, run after run.
pub open spec fn run_chars(runs: Seq<(usize, Seq<char>)>) -> Seq<char>
    decreases runs.len(),
{
    if runs.len() == 0 {
        Seq::empty()
    } else {
        run_chars(runs.drop_last()) + runs.last().1
    }
}

/// For each character of all runs, the face of its run.
pub open spec fn run_faces(runs: Seq<(usize, Seq<char>)>) -> Seq<usize>
    decreases runs.len(),
{
    if runs.len() == 0 {
        Seq::empty()
    } else {
        run_faces(runs.drop_last()) + Seq::new(runs.last().1.len(), |j: int| runs.last().0)
    }
}

/// Runs that are maximal: none is empty and no two neighbours share a face.
pub open spec fn runs_are_maximal(runs: Seq<(usize, Seq<char>)>) -> bool {
    &&& forall|k: int| 0 <= k < runs.len() ==> #[trigger] runs[k].1.len() > 0
    &&& forall|k: int| 0 <= k < runs.len() - 1 ==> #[trigger] runs[k].0 != runs[k + 1].0
}

/// Splits text, given per character with the face that covers it (`None`
/// where no face does), into maximal runs sharing one face. Uncovered
/// characters are left out; the runs hold the covered characters in order,
/// each with the face that covers it.
pub fn face_runs(chars: &[(char, Option<usize>)]) -> (runs: Vec<(usize, Vec<char>)>)
    ensures
        run_chars(runs@.map_values(|r: (usize, Vec<char>)| run_view(r))) == covered_chars(chars@),
        run_faces(runs@.map_values(|r: (usize, Vec<char>)| run_view(r))) == covered_faces(chars@),
        runs_are_maximal(runs@.map_values(|r: (usize, Vec<char>)| run_view(r))),
{
    let mut runs: Vec<(usize, Vec<char>)> = Vec::new();
    let mut i: usize = 0;
    while i < chars.len()
        invariant
            i <= chars.len(),
            run_chars(runs@.map_values(|r: (usize, Vec<char>)| run_view(r))) == covered_chars(
                chars@.take(i as int),
            ),
            run_faces(runs@.map_values(|r: (usize, Vec<char>)| run_view(r))) == covered_faces(
                chars@.take(i as int),
            ),
            runs_are_maximal(runs@.map_values(|r: (usize, Vec<char>)| run_view(r))),
        decreases chars.len() - i,
    {
        let ghost before = runs@.map_values(|r: (usize, Vec<char>)| run_view(r));
        let (c, face) = chars[i];
        assert(chars@.take(i + 1).drop_last() == chars@.take(i as int));
        match face {
            None => {},
            Some(f) => {
                let n = runs.len();
                if n > 0 && runs[n - 1].0 == f {
                    let (g, mut run) = runs.pop().unwrap();
                    run.push(c);
                    runs.push((g, run));
                    proof {
                        let after = runs@.map_values(|r: (usize, Vec<char>)| run_view(r));
                        assert(after.drop_last() == before.drop_last());
                        assert(before.last().1.push(c) == after.last().1);
                        assert(run_chars(before) == run_chars(before.drop_last()) + before.last().1);
                        assert(run_chars(after) == run_chars(after.drop_last()) + after.last().1);
                        assert(run_chars(after) == run_chars(before).push(c));
                        assert(Seq::new(after.last().1.len(), |j: int| after.last().0) == Seq::new(
                            before.last().1.len(),
                            |j: int| before.last().0,
                        ).push(f));
                        assert(run_faces(after) == run_faces(before).push(f));
                        assert forall|k: int| 0 <= k < after.len() implies #[trigger] after[k].0
                            == before[k].0 by {
                            if k < after.len() - 1 {
                                assert(after[k] == before[k]);
                            }
                        }
                        assert forall|k: int| 0 <= k < after.len() implies #[trigger] after[k].1.len()
                            > 0 by {
                            if k < after.len() - 1 {
                                assert(after[k] == before[k]);
                                assert(before[k].1.len() > 0);
                            }
                        }
                        assert forall|k: int| 0 <= k < after.len() - 1 implies #[trigger] after[k].0
                            != after[k + 1].0 by {
                            assert(after[k].0 == before[k].0);
                            assert(after[k + 1].0 == before[k + 1].0);
                            assert(before[k].0 != before[k + 1].0);
                        }
                        assert(runs_are_maximal(after));
                    }
                } else {
                    let mut run: Vec<char> = Vec::new();
                    run.push(c);
                    runs.push((f, run));
                    proof {
                        let after = runs@.map_values(|r: (usize, Vec<char>)| run_view(r));
                        assert(after.drop_last() == before);
                        assert(after.last().1 == seq![c]);
                        assert(run_chars(after) == run_chars(before).push(c));
                        assert(Seq::new(after.last().1.len(), |j: int| after.last().0) == seq![f]);
                        assert(run_faces(after) == run_faces(before).push(f));
                        assert forall|k: int| 0 <= k < after.len() - 1 implies #[trigger] after[k]
                            == before[k] by {}
                        assert(n > 0 ==> before[n - 1].0 != f);
                        assert(after[after.len() - 1] == (f, seq![c]));
                        assert forall|k: int| 0 <= k < after.len() implies #[trigger] after[k].1.len()
                            > 0 by {
                            if k < after.len() - 1 {
                                assert(before[k].1.len() > 0);
                            }
                        }
                        assert forall|k: int| 0 <= k < after.len() - 1 implies #[trigger] after[k].0
                            != after[k + 1].0 by {
                            if k < after.len() - 2 {
                                assert(before[k].0 != before[k + 1].0);
                            }
                        }
                        assert(runs_are_maximal(after));
                    }
                }
            },
        }
        i = i + 1;
    }
    assert(chars@.take(chars.len() as int) == chars@);
    runs
}

/// The third part of a face's score is its distance from the target
/// weight, above or below: Medium (500) for CJK, Regular (400) otherwise.
/// So among faces equal in tier and style, the one whose weight lies closest
/// to the target wins, a heavier face losing to an exact match.
pub proof fn lemma_weight_score_is_distance(f: FaceTraits, g: FaceTraits, c: char, primary: Option<
    Seq<char>,
>)
    ensures
        is_cjk_code_point(c as u32) ==> face_score_spec(f, c, primary).2 == (if f.weight >= 500 {
            f.weight - 500
        } else {
            500 - f.weight
        }),
        !is_cjk_code_point(c as u32) ==> face_score_spec(f, c, primary).2 == (if f.weight >= 400 {
            f.weight - 400
        } else {
            400 - f.weight
        }),
        face_score_spec(f, c, primary).0 == face_score_spec(g, c, primary).0 && f.upright
            == g.upright && face_score_spec(f, c, primary).2 < face_score_spec(g, c, primary).2
            ==> score_lt(face_score_spec(f, c, primary), face_score_spec(g, c, primary)),
{
}

} // verus!
