//! Packaged-resource checks: the freedesktop icon an engine ships.
//!
//! An engine reports an icon *name* (not a path); its package must provide a
//! matching SVG under `data/icons/hicolor/` (source layout) or
//! `icons/hicolor/` (bundled next to the artifact). The file system is read
//! by the caller; this module decides where to look and what the findings
//! mean.
use vstd::prelude::*;

use crate::paths::{extension_of, parent_of, path_extension, path_parent};
use crate::text::str_eq;
use crate::vet::check::{CheckCategory, CheckResult, CheckStatus};

verus! {

/// The most directories searched for a package root above an artifact.
pub const PACKAGE_SEARCH_DEPTH: usize = 8;

/// The directories from `start` upwards, at most `n` of them.
pub open spec fn ancestors(start: Option<Seq<char>>, n: nat) -> Seq<Seq<char>>
    decreases n,
{
    match start {
        None => Seq::empty(),
        Some(d) => if n == 0 {
            Seq::empty()
        } else {
            seq![d] + ancestors(path_parent(d), (n - 1) as nat)
        },
    }
}

/// The views of a sequence of strings.
pub open spec fn string_views(v: Seq<String>) -> Seq<Seq<char>> {
    v.map_values(|x: String| x@)
}

/// The directories searched, in order, for the package root of the artifact
/// at `artifact_path`: its directory and up to seven ancestors.
pub fn package_search_dirs(artifact_path: &str) -> (dirs: Vec<String>)
    ensures
        string_views(dirs@) == ancestors(path_parent(artifact_path@), PACKAGE_SEARCH_DEPTH as nat),
{
    let mut dirs: Vec<String> = Vec::new();
    let mut current = parent_of(artifact_path);
    let mut k: usize = 0;
    proof {
        assert(string_views(dirs@) =~= Seq::<Seq<char>>::empty());
    }
    while k < PACKAGE_SEARCH_DEPTH
        invariant
            0 <= k <= PACKAGE_SEARCH_DEPTH,
            ancestors(path_parent(artifact_path@), PACKAGE_SEARCH_DEPTH as nat) == string_views(
                dirs@,
            ) + ancestors(
                match current {
                    Some(c) => Some(c@),
                    None => None,
                },
                (PACKAGE_SEARCH_DEPTH - k) as nat,
            ),
        decreases PACKAGE_SEARCH_DEPTH - k,
    {
        match current {
            None => {
                proof {
                    assert(string_views(dirs@) + Seq::<Seq<char>>::empty() =~= string_views(dirs@));
                }
                return dirs;
            },
            Some(d) => {
                let next = parent_of(d.as_str());
                let ghost before = dirs@;
                let ghost dv = d@;
                dirs.push(d);
                proof {
                    assert(string_views(dirs@) =~= string_views(before) + seq![dv]);
                    assert(ancestors(Some(dv), (PACKAGE_SEARCH_DEPTH - k) as nat) == seq![dv]
                        + ancestors(path_parent(dv), (PACKAGE_SEARCH_DEPTH - k - 1) as nat));
                    assert(string_views(before) + (seq![dv] + ancestors(
                        path_parent(dv),
                        (PACKAGE_SEARCH_DEPTH - k - 1) as nat,
                    )) =~= string_views(dirs@) + ancestors(
                        path_parent(dv),
                        (PACKAGE_SEARCH_DEPTH - k - 1) as nat,
                    ));
                }
                current = next;
            },
        }
        k = k + 1;
    }
    proof {
        assert(string_views(dirs@) + Seq::<Seq<char>>::empty() =~= string_views(dirs@));
    }
    dirs
}

/// A searched directory and whether it holds an icon theme tree
/// (`data/icons/hicolor` or `icons/hicolor`).
#[derive(Debug, Clone, PartialEq, Eq)]
pub struct PackageCandidate {
    pub dir: String,
    pub has_icon_tree: bool,
}

/// The package root: the first searched directory that holds an icon theme
/// tree, if any.
pub fn discover_package(candidates: &[PackageCandidate]) -> (root: Option<String>)
    ensures
        match root {
            Some(r) => exists|i: int|
                0 <= i < candidates@.len() && (#[trigger] candidates@[i]).has_icon_tree
                    && candidates@[i].dir@ == r@ && forall|j: int|
                    0 <= j < i ==> !(#[trigger] candidates@[j]).has_icon_tree,
            None => forall|i: int|
                0 <= i < candidates@.len() ==> !(#[trigger] candidates@[i]).has_icon_tree,
        },
{
    let n = candidates.len();
    let mut i: usize = 0;
    while i < n
        invariant
            n == candidates@.len(),
            0 <= i <= n,
            forall|j: int| 0 <= j < i ==> !(#[trigger] candidates@[j]).has_icon_tree,
        decreases n - i,
    {
        if candidates[i].has_icon_tree {
            let r = candidates[i].dir.clone();
            proof {
                assert(candidates@[i as int].has_icon_tree && candidates@[i as int].dir@ == r@);
            }
            return Some(r);
        }
        i = i + 1;
    }
    None
}

/// Whether `t` occurs in `s`.
pub open spec fn has_infix(s: Seq<char>, t: Seq<char>) -> bool {
    exists|i: int| 0 <= i && i + t.len() <= s.len() && #[trigger] s.subrange(i, i + t.len()) == t
}

/// Whether `s` ends with `t`.
pub open spec fn has_suffix(s: Seq<char>, t: Seq<char>) -> bool {
    t.len() <= s.len() && s.subrange(s.len() - t.len(), s.len() as int) == t
}

/// Whether `t` occurs in `s`.
pub fn contains_str(s: &str, t: &str) -> (b: bool)
    ensures
        b == has_infix(s@, t@),
{
    let n = s.unicode_len();
    let m = t.unicode_len();
    if m > n {
        proof {
            assert forall|i: int| 0 <= i && i + t@.len() <= s@.len() implies #[trigger] s@.subrange(
                i,
                i + t@.len(),
            ) != t@ by {}
        }
        return false;
    }
    let last = n - m;
    let mut i: usize = 0;
    loop
        invariant
            n == s@.len(),
            m == t@.len(),
            m <= n,
            last == n - m,
            0 <= i <= last,
            forall|j: int| 0 <= j < i ==> #[trigger] s@.subrange(j, j + m) != t@,
        decreases last - i,
    {
        if str_eq(s.substring_char(i, i + m), t) {
            return true;
        }
        if i == last {
            return false;
        }
        i = i + 1;
    }
}

/// Whether `s` ends with `t`.
pub fn ends_with_str(s: &str, t: &str) -> (b: bool)
    ensures
        b == has_suffix(s@, t@),
{
    let n = s.unicode_len();
    let m = t.unicode_len();
    if m > n {
        return false;
    }
    str_eq(s.substring_char(n - m, n), t)
}

/// How a reported icon name fares.
#[derive(Debug, Clone, Copy, PartialEq, Eq, Structural)]
pub enum IconNameVerdict {
    /// No icon, or an empty name.
    Missing,
    /// It contains a path separator.
    LooksLikePath,
    /// It carries a file extension.
    HasExtension,
    /// A bare freedesktop icon name.
    Valid,
}

/// The verdict on a reported icon name.
pub open spec fn icon_name_verdict_spec(name: Option<Seq<char>>) -> IconNameVerdict {
    match name {
        None => IconNameVerdict::Missing,
        Some(n) => if n.len() == 0 {
            IconNameVerdict::Missing
        } else if n.contains('/') || n.contains('\\') {
            IconNameVerdict::LooksLikePath
        } else if path_extension(n) is Some {
            IconNameVerdict::HasExtension
        } else {
            IconNameVerdict::Valid
        },
    }
}

/// Whether `s` contains the character `c`.
fn contains_char(s: &str, c: char) -> (b: bool)
    ensures
        b == s@.contains(c),
{
    let n = s.unicode_len();
    let mut i: usize = 0;
    while i < n
        invariant
            n == s@.len(),
            0 <= i <= n,
            forall|j: int| 0 <= j < i ==> s@[j] != c,
        decreases n - i,
    {
        if s.get_char(i) == c {
            proof {
                assert(s@[i as int] == c);
            }
            return true;
        }
        i = i + 1;
    }
    false
}

/// Judge a reported icon name: it must be a non-empty bare name, with no
/// path separator and no file extension.
pub fn icon_name_verdict(name: Option<&str>) -> (v: IconNameVerdict)
    ensures
        v == icon_name_verdict_spec(match name {
            Some(n) => Some(n@),
            None => None,
        }),
{
    match name {
        None => IconNameVerdict::Missing,
        Some(n) => {
            if n.unicode_len() == 0 {
                IconNameVerdict::Missing
            } else if contains_char(n, '/') || contains_char(n, '\\') {
                IconNameVerdict::LooksLikePath
            } else if extension_of(n).is_some() {
                IconNameVerdict::HasExtension
            } else {
                IconNameVerdict::Valid
            }
        },
    }
}

/// Whether an SVG with file stem `stem` provides icon `name`: the stem is
/// the name or the name with `-symbolic` appended.
pub open spec fn stem_matches_spec(name: Seq<char>, stem: Option<Seq<char>>) -> bool {
    match stem {
        Some(s) => s == name || s == name + "-symbolic"@,
        None => false,
    }
}

/// Whether an SVG with file stem `stem` provides icon `name`.
pub fn asset_matches(name: &str, stem: Option<&str>) -> (b: bool)
    ensures
        b == stem_matches_spec(name@, match stem {
            Some(s) => Some(s@),
            None => None,
        }),
{
    match stem {
        None => false,
        Some(s) => {
            if str_eq(s, name) {
                return true;
            }
            let symbolic = String::from_str(name).concat("-symbolic");
            str_eq(s, symbolic.as_str())
        },
    }
}

/// An SVG of the package that provides the icon.
#[derive(Debug, Clone, PartialEq, Eq)]
pub struct MatchedAsset {
    /// The full path, as text.
    pub path: String,
    /// The path relative to the package root, as shown in reports.
    pub rel: String,
    /// The file stem, when it is valid text.
    pub stem: Option<String>,
    /// Why the file could not be read, if it could not.
    pub read_error: Option<String>,
}

/// What the package provides for the icon.
#[derive(Debug, Clone, PartialEq, Eq)]
pub struct PackageIcons {
    /// The source-layout theme directory, as shown in reports.
    pub hicolor_dir: String,
    /// The SVGs whose stem matches the icon name, in discovery order.
    pub matched: Vec<MatchedAsset>,
}

/// Whether a symbolic icon sits outside a `symbolic/` or `scalable/` theme
/// directory.
pub open spec fn misplaced_symbolic(a: MatchedAsset) -> bool {
    &&& match a.stem {
        Some(s) => has_suffix(s@, "-symbolic"@),
        None => false,
    }
    &&& !(has_infix(a.path@, "/symbolic/"@) || has_infix(a.path@, "/scalable/"@))
}

/// A check outcome as status, name and detail.
pub struct ResultModel {
    pub status: CheckStatus,
    pub name: Seq<char>,
    pub detail: Seq<char>,
}

/// The status, name and detail of a resource check result.
pub open spec fn result_model(r: CheckResult) -> ResultModel {
    ResultModel { status: r.status, name: r.name@, detail: r.detail@ }
}

/// A result of the resource dimension.
pub open spec fn res(status: CheckStatus, name: Seq<char>, detail: Seq<char>) -> ResultModel {
    ResultModel { status, name, detail }
}

/// The read failures among `assets`, in order.
pub open spec fn read_failures(assets: Seq<MatchedAsset>) -> Seq<ResultModel>
    decreases assets.len(),
{
    if assets.len() == 0 {
        Seq::empty()
    } else {
        read_failures(assets.drop_last()) + match assets.last().read_error {
            Some(e) => seq![res(CheckStatus::Fail, "icon_asset"@, assets.last().rel@ + ": "@ + e@)],
            None => Seq::<ResultModel>::empty(),
        }
    }
}

/// The last misplaced symbolic icon among `assets`, if any.
pub open spec fn last_misplaced(assets: Seq<MatchedAsset>) -> Option<MatchedAsset>
    decreases assets.len(),
{
    if assets.len() == 0 {
        None
    } else if misplaced_symbolic(assets.last()) {
        Some(assets.last())
    } else {
        last_misplaced(assets.drop_last())
    }
}

/// The icon-name result for a name that is present.
pub open spec fn name_result(name: Seq<char>) -> ResultModel {
    match icon_name_verdict_spec(Some(name)) {
        IconNameVerdict::LooksLikePath => res(
            CheckStatus::Fail,
            "icon_name"@,
            "icon '"@ + name + "' looks like a path; it must be an icon name"@,
        ),
        IconNameVerdict::HasExtension => res(
            CheckStatus::Fail,
            "icon_name"@,
            "icon '"@ + name + "' carries a file extension; report a bare name"@,
        ),
        _ => res(CheckStatus::Pass, "icon_name"@, Seq::empty()),
    }
}

/// The resource checks for icon `name` given what the package provides
/// (`None` when no package root was found).
pub open spec fn icon_checks_spec(name: Option<Seq<char>>, package: Option<PackageIcons>) -> Seq<
    ResultModel,
> {
    match name {
        Some(n) if n.len() > 0 => {
            let head = seq![name_result(n)];
            match package {
                None => head + seq![
                    res(
                        CheckStatus::Warn,
                        "icon_asset"@,
                        "package root not found; skipped SVG asset checks"@,
                    ),
                ],
                Some(p) => if p.matched@.len() == 0 {
                    head + seq![
                        res(
                            CheckStatus::Fail,
                            "icon_asset"@,
                            "no SVG named '"@ + n + "' or '"@ + n + "-symbolic"@ + "' under "@
                                + p.hicolor_dir@,
                        ),
                    ]
                } else {
                    head + seq![res(CheckStatus::Pass, "icon_asset"@, Seq::empty())]
                        + read_failures(p.matched@) + seq![
                        res(CheckStatus::Pass, "icon_asset"@, Seq::empty()),
                    ] + match last_misplaced(p.matched@) {
                        Some(a) => seq![
                            res(
                                CheckStatus::Warn,
                                "icon_placement"@,
                                a.rel@ + " is a symbolic icon outside symbolic/ or scalable/"@,
                            ),
                        ],
                        None => Seq::<ResultModel>::empty(),
                    }
                },
            }
        },
        _ => seq![res(CheckStatus::Warn, "icon_name"@, "no icon declared in TypioEngineInfo"@)],
    }
}

/// Whether a matched asset is a misplaced symbolic icon.
fn is_misplaced_symbolic(a: &MatchedAsset) -> (b: bool)
    ensures
        b == misplaced_symbolic(*a),
{
    let symbolic = match &a.stem {
        Some(s) => ends_with_str(s.as_str(), "-symbolic"),
        None => false,
    };
    symbolic && !(contains_str(a.path.as_str(), "/symbolic/") || contains_str(
        a.path.as_str(),
        "/scalable/",
    ))
}

/// The resource checks for the icon an engine reports: the name must be a
/// bare freedesktop name; with a package root, at least one SVG must provide
/// it, every providing SVG must be readable, and a symbolic one should sit
/// under `symbolic/` or `scalable/`. All results are of the resource
/// dimension.
pub fn check_icon(icon_name: Option<&str>, package: Option<&PackageIcons>) -> (results: Vec<
    CheckResult,
>)
    ensures
        results@.map_values(|r: CheckResult| result_model(r)) == icon_checks_spec(
            match icon_name {
                Some(n) => Some(n@),
                None => None,
            },
            match package {
                Some(p) => Some(*p),
                None => None,
            },
        ),
        forall|i: int| 0 <= i < results@.len() ==> (#[trigger] results@[i]).category
            == CheckCategory::Resource,
{
    let mut out: Vec<CheckResult> = Vec::new();
    let name = match icon_name {
        Some(n) if n.unicode_len() > 0 => n,
        _ => {
            out.push(
                CheckResult::warn(
                    CheckCategory::Resource,
                    "icon_name",
                    String::from_str("no icon declared in TypioEngineInfo"),
                ),
            );
            proof {
                assert(out@.map_values(|r: CheckResult| result_model(r)) =~= seq![
                    res(CheckStatus::Warn, "icon_name"@, "no icon declared in TypioEngineInfo"@),
                ]);
            }
            return out;
        },
    };
    let verdict = icon_name_verdict(Some(name));
    let first = match verdict {
        IconNameVerdict::LooksLikePath => CheckResult::fail(
            CheckCategory::Resource,
            "icon_name",
            String::from_str("icon '").concat(name).concat(
                "' looks like a path; it must be an icon name",
            ),
        ),
        IconNameVerdict::HasExtension => CheckResult::fail(
            CheckCategory::Resource,
            "icon_name",
            String::from_str("icon '").concat(name).concat(
                "' carries a file extension; report a bare name",
            ),
        ),
        _ => CheckResult::pass(CheckCategory::Resource, "icon_name"),
    };
    out.push(first);
    let ghost head = seq![name_result(name@)];
    proof {
        assert(out@.map_values(|r: CheckResult| result_model(r)) =~= head);
    }
    let pkg = match package {
        None => {
            out.push(
                CheckResult::warn(
                    CheckCategory::Resource,
                    "icon_asset",
                    String::from_str("package root not found; skipped SVG asset checks"),
                ),
            );
            proof {
                assert(out@.map_values(|r: CheckResult| result_model(r)) =~= head + seq![
                    res(
                        CheckStatus::Warn,
                        "icon_asset"@,
                        "package root not found; skipped SVG asset checks"@,
                    ),
                ]);
            }
            return out;
        },
        Some(p) => p,
    };
    if pkg.matched.len() == 0 {
        let detail = String::from_str("no SVG named '").concat(name).concat("' or '").concat(
            name,
        ).concat("-symbolic").concat("' under ").concat(pkg.hicolor_dir.as_str());
        out.push(CheckResult::fail(CheckCategory::Resource, "icon_asset", detail));
        proof {
            assert(out@.map_values(|r: CheckResult| result_model(r)) =~= head + seq![
                res(
                    CheckStatus::Fail,
                    "icon_asset"@,
                    "no SVG named '"@ + name@ + "' or '"@ + name@ + "-symbolic"@ + "' under "@
                        + pkg.hicolor_dir@,
                ),
            ]);
        }
        return out;
    }
    out.push(CheckResult::pass(CheckCategory::Resource, "icon_asset"));
    let ghost prefix = head + seq![res(CheckStatus::Pass, "icon_asset"@, Seq::empty())];
    proof {
        assert(out@.map_values(|r: CheckResult| result_model(r)) =~= prefix);
    }
    let matched = &pkg.matched;
    let n = matched.len();
    let mut placement: Option<usize> = None;
    let mut i: usize = 0;
    proof {
        assert(matched@.subrange(0, 0) =~= Seq::<MatchedAsset>::empty());
        assert(prefix + read_failures(Seq::<MatchedAsset>::empty()) =~= prefix);
    }
    while i < n
        invariant
            n == matched@.len(),
            0 <= i <= n,
            out@.map_values(|r: CheckResult| result_model(r)) == prefix + read_failures(
                matched@.subrange(0, i as int),
            ),
            forall|k: int| 0 <= k < out@.len() ==> (#[trigger] out@[k]).category
                == CheckCategory::Resource,
            match placement {
                Some(k) => k < i && last_misplaced(matched@.subrange(0, i as int)) == Some(
                    matched@[k as int],
                ),
                None => last_misplaced(matched@.subrange(0, i as int)) is None,
            },
        decreases n - i,
    {
        let a = &matched[i];
        let ghost next = matched@.subrange(0, i + 1);
        let ghost before = out@;
        proof {
            assert(next.drop_last() =~= matched@.subrange(0, i as int));
            assert(next.last() == matched@[i as int]);
        }
        match &a.read_error {
            Some(e) => {
                let detail = a.rel.clone().concat(": ").concat(e.as_str());
                out.push(CheckResult::fail(CheckCategory::Resource, "icon_asset", detail));
                proof {
                    assert(out@.map_values(|r: CheckResult| result_model(r)) =~= before.map_values(
                        |r: CheckResult| result_model(r),
                    ) + seq![res(CheckStatus::Fail, "icon_asset"@, a.rel@ + ": "@ + e@)]);
                }
            },
            None => {
                proof {
                    assert(before.map_values(|r: CheckResult| result_model(r))
                        + Seq::<ResultModel>::empty() =~= before.map_values(
                        |r: CheckResult| result_model(r),
                    ));
                }
            },
        }
        proof {
            assert(prefix + read_failures(next) =~= prefix + read_failures(
                matched@.subrange(0, i as int),
            ) + match next.last().read_error {
                Some(e) => seq![res(CheckStatus::Fail, "icon_asset"@, next.last().rel@ + ": "@ + e@)],
                None => Seq::<ResultModel>::empty(),
            });
        }
        if is_misplaced_symbolic(a) {
            placement = Some(i);
        }
        i = i + 1;
    }
    proof {
        assert(matched@.subrange(0, n as int) =~= matched@);
    }
    let ghost mid = out@;
    out.push(CheckResult::pass(CheckCategory::Resource, "icon_asset"));
    proof {
        assert(out@.map_values(|r: CheckResult| result_model(r)) =~= mid.map_values(
            |r: CheckResult| result_model(r),
        ) + seq![res(CheckStatus::Pass, "icon_asset"@, Seq::empty())]);
    }
    let ghost mid2 = out@;
    match placement {
        Some(k) => {
            let msg = matched[k].rel.clone().concat(
                " is a symbolic icon outside symbolic/ or scalable/",
            );
            out.push(CheckResult::warn(CheckCategory::Resource, "icon_placement", msg));
            proof {
                assert(out@.map_values(|r: CheckResult| result_model(r)) =~= mid2.map_values(
                    |r: CheckResult| result_model(r),
                ) + seq![
                    res(
                        CheckStatus::Warn,
                        "icon_placement"@,
                        matched@[k as int].rel@
                            + " is a symbolic icon outside symbolic/ or scalable/"@,
                    ),
                ]);
            }
        },
        None => {
            proof {
                assert(mid2.map_values(|r: CheckResult| result_model(r))
                    + Seq::<ResultModel>::empty() =~= mid2.map_values(
                    |r: CheckResult| result_model(r),
                ));
            }
        },
    }
    out
}

} // verus!
