use typio_host::vet::check::{CheckCategory, CheckResult, CheckStatus, Summary};
use typio_host::vet::cli::{marker, parse_args, parse_dimensions, split_fields, Args, ArgsError};
use typio_host::vet::resource::{
    asset_matches, check_icon, contains_str, discover_package, ends_with_str, icon_name_verdict,
    package_search_dirs, IconNameVerdict, MatchedAsset, PackageCandidate, PackageIcons,
};

fn argv(items: &[&str]) -> Vec<String> {
    items.iter().map(|s| s.to_string()).collect()
}

#[test]
fn summary_counts_each_verdict_and_fails_only_on_failures() {
    let results = vec![
        CheckResult::pass(CheckCategory::Abi, "info"),
        CheckResult::warn(CheckCategory::Behavior, "noop", "did nothing".to_string()),
        CheckResult::fail(CheckCategory::Resource, "icon_name", "bad".to_string()),
        CheckResult::pass(CheckCategory::Abi, "sizes"),
    ];
    let s = Summary::of(&results);
    assert_eq!((s.passed, s.warned, s.failed), (2, 1, 1));
    assert!(s.is_failure());
    let only_warn = Summary::of(&results[..2]);
    assert!(!only_warn.is_failure());
    assert!(results[0].passed() && !results[1].failed() && results[2].failed());
}

#[test]
fn labels_and_markers() {
    assert_eq!(CheckCategory::Abi.label(), "ABI");
    assert_eq!(CheckCategory::Resource.label(), "Resource");
    assert_eq!(marker(CheckStatus::Pass), "PASS");
    assert_eq!(marker(CheckStatus::Warn), "WARN");
    assert_eq!(marker(CheckStatus::Fail), "FAIL");
}

#[test]
fn command_line_with_all_options() {
    let args = parse_args(&argv(&[
        "typio-vet", "./libx.so", "--only", "abi, resource", "--package", "/pkg", "--check", "icon_name",
    ]))
    .unwrap();
    assert_eq!(
        args,
        Args {
            artifact_path: "./libx.so".into(),
            package: Some("/pkg".into()),
            only: Some(vec![CheckCategory::Abi, CheckCategory::Resource]),
            check: Some("icon_name".into()),
        }
    );
}

#[test]
fn command_line_errors() {
    assert_eq!(parse_args(&argv(&["typio-vet"])), Err(ArgsError::MissingArtifact));
    assert_eq!(parse_args(&argv(&["typio-vet", "a.so", "--package"])), Err(ArgsError::PackageNeedsDirectory));
    assert_eq!(parse_args(&argv(&["typio-vet", "a.so", "--only"])), Err(ArgsError::OnlyNeedsValue));
    assert_eq!(parse_args(&argv(&["typio-vet", "a.so", "--check"])), Err(ArgsError::CheckNeedsName));
    assert_eq!(
        parse_args(&argv(&["typio-vet", "a.so", "--only", "abi,gpu"])),
        Err(ArgsError::UnknownDimension("gpu".into()))
    );
    assert_eq!(
        parse_args(&argv(&["typio-vet", "a.so", "--verbose"])),
        Err(ArgsError::UnknownOption("--verbose".into()))
    );
    assert_eq!(
        parse_args(&argv(&["typio-vet", "a.so", "b.so"])),
        Err(ArgsError::UnexpectedArgument("b.so".into()))
    );
    assert_eq!(
        ArgsError::UnknownDimension("gpu".into()).message(),
        "unknown dimension 'gpu'"
    );
    assert_eq!(ArgsError::MissingArtifact.message(), "missing <engine-abi.so>");
}

#[test]
fn dimension_lists_keep_empty_items_as_errors() {
    assert_eq!(split_fields("a,,b"), ["a", "", "b"]);
    assert_eq!(split_fields(""), [""]);
    assert_eq!(parse_dimensions("behavior"), Ok(vec![CheckCategory::Behavior]));
    assert_eq!(parse_dimensions("abi,"), Err(String::new()));
}

#[test]
fn later_options_override_earlier_ones() {
    let args = parse_args(&argv(&["typio-vet", "--check", "a", "x.so", "--check", "b"])).unwrap();
    assert_eq!(args.check.as_deref(), Some("b"));
    assert_eq!(args.artifact_path, "x.so");
}

#[test]
fn icon_names_must_be_bare() {
    assert_eq!(icon_name_verdict(None), IconNameVerdict::Missing);
    assert_eq!(icon_name_verdict(Some("")), IconNameVerdict::Missing);
    assert_eq!(icon_name_verdict(Some("a/b")), IconNameVerdict::LooksLikePath);
    assert_eq!(icon_name_verdict(Some("a\\b")), IconNameVerdict::LooksLikePath);
    assert_eq!(icon_name_verdict(Some("typio.svg")), IconNameVerdict::HasExtension);
    assert_eq!(icon_name_verdict(Some(".hidden")), IconNameVerdict::Valid);
    assert_eq!(icon_name_verdict(Some("typio-rime")), IconNameVerdict::Valid);
}

#[test]
fn assets_match_by_stem_or_symbolic_stem() {
    assert!(asset_matches("rime", Some("rime")));
    assert!(asset_matches("rime", Some("rime-symbolic")));
    assert!(!asset_matches("rime", Some("rime-dark")));
    assert!(!asset_matches("rime", None));
    assert!(contains_str("a/scalable/b", "/scalable/"));
    assert!(!contains_str("ab", "abc"));
    assert!(ends_with_str("x-symbolic", "-symbolic"));
}

#[test]
fn package_search_walks_up_from_the_artifact_directory() {
    assert_eq!(
        package_search_dirs("/a/b/c/lib.so"),
        ["/a/b/c", "/a/b", "/a", "/"]
    );
    assert_eq!(package_search_dirs("lib.so"), [""]);
    let deep = "/1/2/3/4/5/6/7/8/9/10/lib.so";
    assert_eq!(package_search_dirs(deep).len(), 8);
    let candidates = vec![
        PackageCandidate { dir: "/a/b".into(), has_icon_tree: false },
        PackageCandidate { dir: "/a".into(), has_icon_tree: true },
        PackageCandidate { dir: "/".into(), has_icon_tree: true },
    ];
    assert_eq!(discover_package(&candidates).as_deref(), Some("/a"));
    assert_eq!(discover_package(&candidates[..1]), None);
}

fn statuses(results: &[CheckResult]) -> Vec<(CheckStatus, &'static str, String)> {
    results.iter().map(|r| (r.status, r.name, r.detail.clone())).collect()
}

#[test]
fn icon_checks_report_missing_bad_and_packaged_icons() {
    let r = check_icon(None, None);
    assert_eq!(
        statuses(&r),
        [(CheckStatus::Warn, "icon_name", "no icon declared in TypioEngineInfo".to_string())]
    );

    let r = check_icon(Some("a.png"), None);
    assert_eq!(
        statuses(&r),
        [
            (CheckStatus::Fail, "icon_name", "icon 'a.png' carries a file extension; report a bare name".to_string()),
            (CheckStatus::Warn, "icon_asset", "package root not found; skipped SVG asset checks".to_string()),
        ]
    );

    let empty = PackageIcons { hicolor_dir: "/p/data/icons/hicolor".into(), matched: vec![] };
    let r = check_icon(Some("rime"), Some(&empty));
    assert_eq!(r[1].status, CheckStatus::Fail);
    assert_eq!(r[1].detail, "no SVG named 'rime' or 'rime-symbolic' under /p/data/icons/hicolor");

    let pkg = PackageIcons {
        hicolor_dir: "/p/data/icons/hicolor".into(),
        matched: vec![
            MatchedAsset {
                path: "/p/data/icons/hicolor/48x48/apps/rime-symbolic.svg".into(),
                rel: "data/icons/hicolor/48x48/apps/rime-symbolic.svg".into(),
                stem: Some("rime-symbolic".into()),
                read_error: None,
            },
            MatchedAsset {
                path: "/p/data/icons/hicolor/scalable/apps/rime.svg".into(),
                rel: "data/icons/hicolor/scalable/apps/rime.svg".into(),
                stem: Some("rime".into()),
                read_error: Some("permission denied".into()),
            },
        ],
    };
    let r = check_icon(Some("rime"), Some(&pkg));
    assert_eq!(
        statuses(&r),
        [
            (CheckStatus::Pass, "icon_name", String::new()),
            (CheckStatus::Pass, "icon_asset", String::new()),
            (CheckStatus::Fail, "icon_asset", "data/icons/hicolor/scalable/apps/rime.svg: permission denied".to_string()),
            (CheckStatus::Pass, "icon_asset", String::new()),
            (
                CheckStatus::Warn,
                "icon_placement",
                "data/icons/hicolor/48x48/apps/rime-symbolic.svg is a symbolic icon outside symbolic/ or scalable/".to_string()
            ),
        ]
    );
    assert!(r.iter().all(|x| x.category == CheckCategory::Resource));
}

#[test]
fn default_summary_is_empty() {
    assert_eq!(Summary::default(), Summary { passed: 0, warned: 0, failed: 0 });
}
