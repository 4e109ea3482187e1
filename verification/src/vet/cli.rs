//! The `typio-vet` command line: option parsing and report markers.
use vstd::prelude::*;

use crate::config_value::{trim, trim_spec, views};
use crate::text::str_eq;
use crate::vet::check::{CheckCategory, CheckStatus};

verus! {

/// The parsed command line of `typio-vet`.
#[derive(Debug, Clone, PartialEq, Eq)]
pub struct Args {
    /// The engine artifact to vet.
    pub artifact_path: String,
    /// Package root for resource checks, when given.
    pub package: Option<String>,
    /// Dimensions to run, when restricted with `--only`.
    pub only: Option<Vec<CheckCategory>>,
    /// Name of the single check to run and report, when given.
    pub check: Option<String>,
}

/// Why a command line was rejected.
#[derive(Debug, Clone, PartialEq, Eq)]
pub enum ArgsError {
    /// `--package` came last, without its directory.
    PackageNeedsDirectory,
    /// `--only` came last, without its list.
    OnlyNeedsValue,
    /// An `--only` item that names no dimension (trimmed).
    UnknownDimension(String),
    /// `--check` came last, without its name.
    CheckNeedsName,
    /// An argument starting with `-` that is no known option.
    UnknownOption(String),
    /// A second positional argument.
    UnexpectedArgument(String),
    /// No engine artifact was given.
    MissingArtifact,
}

/// The meaning of a parsed command line, over character sequences.
pub struct ArgsModel {
    pub artifact_path: Option<Seq<char>>,
    pub package: Option<Seq<char>>,
    pub only: Option<Seq<CheckCategory>>,
    pub check: Option<Seq<char>>,
}

/// The meaning of a rejection, over character sequences.
pub enum ArgsErrorModel {
    PackageNeedsDirectory,
    OnlyNeedsValue,
    UnknownDimension(Seq<char>),
    CheckNeedsName,
    UnknownOption(Seq<char>),
    UnexpectedArgument(Seq<char>),
    MissingArtifact,
}

/// The options seen before any argument was read.
pub open spec fn no_options() -> ArgsModel {
    ArgsModel { artifact_path: None, package: None, only: None, check: None }
}

/// The dimension a trimmed `--only` item names.
pub open spec fn category_named(t: Seq<char>) -> Option<CheckCategory> {
    if t == "abi"@ {
        Some(CheckCategory::Abi)
    } else if t == "behavior"@ {
        Some(CheckCategory::Behavior)
    } else if t == "resource"@ {
        Some(CheckCategory::Resource)
    } else {
        None
    }
}

/// The fields of `s` split on `,`, where `current` holds the characters of
/// the field in progress. Empty fields are kept, as `str::split` keeps them.
pub open spec fn fields_from(s: Seq<char>, current: Seq<char>) -> Seq<Seq<char>>
    decreases s.len(),
{
    if s.len() == 0 {
        seq![current]
    } else if s[0] == ',' {
        seq![current] + fields_from(s.drop_first(), Seq::empty())
    } else {
        fields_from(s.drop_first(), current.push(s[0]))
    }
}

/// The fields of `s` split on `,`.
pub open spec fn comma_fields(s: Seq<char>) -> Seq<Seq<char>> {
    fields_from(s, Seq::empty())
}

/// The dimensions named by `fields` in order, or the first trimmed field that
/// names none.
pub open spec fn dimensions_of(fields: Seq<Seq<char>>) -> Result<Seq<CheckCategory>, Seq<char>>
    decreases fields.len(),
{
    if fields.len() == 0 {
        Ok(Seq::empty())
    } else {
        match dimensions_of(fields.drop_last()) {
            Err(e) => Err(e),
            Ok(cats) => match category_named(trim_spec(fields.last())) {
                Some(c) => Ok(cats.push(c)),
                None => Err(trim_spec(fields.last())),
            },
        }
    }
}

/// Reading `argv` from index `i` on, with the options `acc` seen so far.
pub open spec fn parse_from(argv: Seq<Seq<char>>, i: int, acc: ArgsModel) -> Result<
    ArgsModel,
    ArgsErrorModel,
>
    decreases argv.len() - i,
{
    if i < 0 || i >= argv.len() {
        Ok(acc)
    } else {
        let a = argv[i];
        if a == "--package"@ {
            if i + 1 < argv.len() {
                parse_from(
                    argv,
                    i + 2,
                    ArgsModel {
                        artifact_path: acc.artifact_path,
                        package: Some(argv[i + 1]),
                        only: acc.only,
                        check: acc.check,
                    },
                )
            } else {
                Err(ArgsErrorModel::PackageNeedsDirectory)
            }
        } else if a == "--only"@ {
            if i + 1 < argv.len() {
                match dimensions_of(comma_fields(argv[i + 1])) {
                    Ok(cats) => parse_from(
                        argv,
                        i + 2,
                        ArgsModel {
                            artifact_path: acc.artifact_path,
                            package: acc.package,
                            only: Some(cats),
                            check: acc.check,
                        },
                    ),
                    Err(item) => Err(ArgsErrorModel::UnknownDimension(item)),
                }
            } else {
                Err(ArgsErrorModel::OnlyNeedsValue)
            }
        } else if a == "--check"@ {
            if i + 1 < argv.len() {
                parse_from(
                    argv,
                    i + 2,
                    ArgsModel {
                        artifact_path: acc.artifact_path,
                        package: acc.package,
                        only: acc.only,
                        check: Some(argv[i + 1]),
                    },
                )
            } else {
                Err(ArgsErrorModel::CheckNeedsName)
            }
        } else if a.len() > 0 && a[0] == '-' {
            Err(ArgsErrorModel::UnknownOption(a))
        } else if acc.artifact_path is Some {
            Err(ArgsErrorModel::UnexpectedArgument(a))
        } else {
            parse_from(
                argv,
                i + 1,
                ArgsModel {
                    artifact_path: Some(a),
                    package: acc.package,
                    only: acc.only,
                    check: acc.check,
                },
            )
        }
    }
}

/// The meaning of a whole command line (`argv[0]` is the program name): the
/// options after it, provided an artifact was named.
pub open spec fn parse_args_spec(argv: Seq<Seq<char>>) -> Result<ArgsModel, ArgsErrorModel> {
    match parse_from(argv, 1, no_options()) {
        Err(e) => Err(e),
        Ok(m) => if m.artifact_path is None {
            Err(ArgsErrorModel::MissingArtifact)
        } else {
            Ok(m)
        },
    }
}

impl Args {
    /// The meaning of these arguments.
    pub open spec fn model(&self) -> ArgsModel {
        ArgsModel {
            artifact_path: Some(self.artifact_path@),
            package: match self.package {
                Some(p) => Some(p@),
                None => None,
            },
            only: match self.only {
                Some(v) => Some(v@),
                None => None,
            },
            check: match self.check {
                Some(c) => Some(c@),
                None => None,
            },
        }
    }
}

impl ArgsError {
    /// The meaning of this rejection.
    pub open spec fn model(&self) -> ArgsErrorModel {
        match self {
            ArgsError::PackageNeedsDirectory => ArgsErrorModel::PackageNeedsDirectory,
            ArgsError::OnlyNeedsValue => ArgsErrorModel::OnlyNeedsValue,
            ArgsError::UnknownDimension(s) => ArgsErrorModel::UnknownDimension(s@),
            ArgsError::CheckNeedsName => ArgsErrorModel::CheckNeedsName,
            ArgsError::UnknownOption(s) => ArgsErrorModel::UnknownOption(s@),
            ArgsError::UnexpectedArgument(s) => ArgsErrorModel::UnexpectedArgument(s@),
            ArgsError::MissingArtifact => ArgsErrorModel::MissingArtifact,
        }
    }

    /// The message printed for this rejection.
    pub fn message(&self) -> (m: String)
        ensures
            self.model() == ArgsErrorModel::PackageNeedsDirectory ==> m@
                == "--package needs a directory"@,
            self.model() == ArgsErrorModel::OnlyNeedsValue ==> m@ == "--only needs a value"@,
            self.model() == ArgsErrorModel::CheckNeedsName ==> m@ == "--check needs a name"@,
            self.model() == ArgsErrorModel::MissingArtifact ==> m@ == "missing <engine-abi.so>"@,
            self matches ArgsError::UnknownDimension(s) ==> m@ == "unknown dimension '"@ + s@
                + "'"@,
            self matches ArgsError::UnknownOption(s) ==> m@ == "unknown option '"@ + s@ + "'"@,
            self matches ArgsError::UnexpectedArgument(s) ==> m@ == "unexpected argument '"@ + s@
                + "'"@,
    {
        match self {
            ArgsError::PackageNeedsDirectory => String::from_str("--package needs a directory"),
            ArgsError::OnlyNeedsValue => String::from_str("--only needs a value"),
            ArgsError::UnknownDimension(s) => String::from_str("unknown dimension '").concat(
                s.as_str(),
            ).concat("'"),
            ArgsError::CheckNeedsName => String::from_str("--check needs a name"),
            ArgsError::UnknownOption(s) => String::from_str("unknown option '").concat(
                s.as_str(),
            ).concat("'"),
            ArgsError::UnexpectedArgument(s) => String::from_str("unexpected argument '").concat(
                s.as_str(),
            ).concat("'"),
            ArgsError::MissingArtifact => String::from_str("missing <engine-abi.so>"),
        }
    }
}

/// Split `s` on commas, keeping empty fields.
pub fn split_fields(s: &str) -> (fields: Vec<String>)
    ensures
        views(fields@) == comma_fields(s@),
{
    let n = s.unicode_len();
    let mut fields: Vec<String> = Vec::new();
    let mut field_start: usize = 0;
    let mut i: usize = 0;
    proof {
        assert(s@.subrange(0, n as int) =~= s@);
        assert(s@.subrange(0, 0) =~= Seq::<char>::empty());
        assert(views(fields@) =~= Seq::<Seq<char>>::empty());
    }
    while i < n
        invariant
            n == s@.len(),
            0 <= field_start <= i <= n,
            comma_fields(s@) == views(fields@) + fields_from(
                s@.subrange(i as int, n as int),
                s@.subrange(field_start as int, i as int),
            ),
        decreases n - i,
    {
        let c = s.get_char(i);
        let ghost rest = s@.subrange(i as int, n as int);
        let ghost current = s@.subrange(field_start as int, i as int);
        proof {
            assert(rest.drop_first() =~= s@.subrange(i + 1, n as int));
            assert(rest[0] == c);
        }
        if c == ',' {
            let field = s.substring_char(field_start, i);
            let ghost before = fields@;
            fields.push(String::from_str(field));
            proof {
                assert(views(fields@) =~= views(before) + seq![current]);
                assert(s@.subrange(i + 1, i + 1) =~= Seq::<char>::empty());
            }
            field_start = i + 1;
        } else {
            proof {
                assert(current.push(c) =~= s@.subrange(field_start as int, i + 1));
            }
        }
        i = i + 1;
    }
    let field = s.substring_char(field_start, n);
    let ghost before = fields@;
    fields.push(String::from_str(field));
    proof {
        assert(views(fields@) =~= views(before) + seq![s@.subrange(field_start as int, n as int)]);
        assert(s@.subrange(n as int, n as int).len() == 0);
    }
    fields
}

/// The dimension a trimmed item names.
fn category_from_name(t: &str) -> (c: Option<CheckCategory>)
    ensures
        c == category_named(t@),
{
    if str_eq(t, "abi") {
        Some(CheckCategory::Abi)
    } else if str_eq(t, "behavior") {
        Some(CheckCategory::Behavior)
    } else if str_eq(t, "resource") {
        Some(CheckCategory::Resource)
    } else {
        None
    }
}

proof fn lemma_dimensions_error_persists(fields: Seq<Seq<char>>, k: int, e: Seq<char>)
    requires
        0 <= k <= fields.len(),
        dimensions_of(fields.subrange(0, k)) == Err::<Seq<CheckCategory>, Seq<char>>(e),
    ensures
        dimensions_of(fields) == Err::<Seq<CheckCategory>, Seq<char>>(e),
    decreases fields.len() - k,
{
    if k == fields.len() {
        assert(fields.subrange(0, k) =~= fields);
    } else {
        let next = fields.subrange(0, k + 1);
        assert(next.drop_last() =~= fields.subrange(0, k));
        lemma_dimensions_error_persists(fields, k + 1, e);
    }
}

/// Parse the comma-separated dimension list of `--only`.
pub fn parse_dimensions(spec: &str) -> (r: Result<Vec<CheckCategory>, String>)
    ensures
        match r {
            Ok(v) => dimensions_of(comma_fields(spec@)) == Ok::<Seq<CheckCategory>, Seq<char>>(v@),
            Err(item) => dimensions_of(comma_fields(spec@)) == Err::<Seq<CheckCategory>, Seq<char>>(
                item@,
            ),
        },
{
    let fields = split_fields(spec);
    let ghost fs = views(fields@);
    let mut cats: Vec<CheckCategory> = Vec::new();
    let n = fields.len();
    let mut j: usize = 0;
    proof {
        assert(fs.subrange(0, 0) =~= Seq::<Seq<char>>::empty());
    }
    while j < n
        invariant
            n == fields@.len(),
            fs == views(fields@),
            fs == comma_fields(spec@),
            0 <= j <= n,
            dimensions_of(fs.subrange(0, j as int)) == Ok::<Seq<CheckCategory>, Seq<char>>(cats@),
        decreases n - j,
    {
        let t = trim(fields[j].as_str());
        let ghost next = fs.subrange(0, j + 1);
        proof {
            assert(next.drop_last() =~= fs.subrange(0, j as int));
            assert(next.last() == fields@[j as int]@);
        }
        match category_from_name(t) {
            Some(c) => {
                cats.push(c);
            },
            None => {
                let item = String::from_str(t);
                proof {
                    lemma_dimensions_error_persists(fs, j + 1, item@);
                }
                return Err(item);
            },
        }
        j = j + 1;
    }
    proof {
        assert(fs.subrange(0, n as int) =~= fs);
    }
    Ok(cats)
}

/// The options read so far, as a model.
pub open spec fn progress_model(
    artifact_path: Option<String>,
    package: Option<String>,
    only: Option<Vec<CheckCategory>>,
    check: Option<String>,
) -> ArgsModel {
    ArgsModel {
        artifact_path: match artifact_path {
            Some(p) => Some(p@),
            None => None,
        },
        package: match package {
            Some(p) => Some(p@),
            None => None,
        },
        only: match only {
            Some(v) => Some(v@),
            None => None,
        },
        check: match check {
            Some(c) => Some(c@),
            None => None,
        },
    }
}

/// Parse the command line of `typio-vet` (`argv[0]` is the program name).
///
/// `--package <dir>`, `--only <dims>` and `--check <name>` take a value;
/// a later occurrence overrides an earlier one. Any other argument starting
/// with `-` is rejected, as is a second positional argument; an artifact is
/// required.
pub fn parse_args(argv: &[String]) -> (r: Result<Args, ArgsError>)
    ensures
        match r {
            Ok(a) => parse_args_spec(views(argv@)) == Ok::<ArgsModel, ArgsErrorModel>(a.model()),
            Err(e) => parse_args_spec(views(argv@)) == Err::<ArgsModel, ArgsErrorModel>(e.model()),
        },
{
    let ghost v = views(argv@);
    let n = argv.len();
    let mut artifact_path: Option<String> = None;
    let mut package: Option<String> = None;
    let mut only: Option<Vec<CheckCategory>> = None;
    let mut check: Option<String> = None;
    let mut i: usize = 1;
    while i < n
        invariant
            n == argv@.len(),
            v == views(argv@),
            1 <= i,
            parse_from(v, 1, no_options()) == parse_from(
                v,
                i as int,
                progress_model(artifact_path, package, only, check),
            ),
        decreases n - i,
    {
        let a = argv[i].as_str();
        proof {
            assert(v[i as int] == a@);
        }
        if str_eq(a, "--package") {
            if i + 1 >= n {
                return Err(ArgsError::PackageNeedsDirectory);
            }
            proof {
                assert(v[i + 1] == argv@[i + 1]@);
            }
            package = Some(argv[i + 1].clone());
            i = i + 2;
        } else if str_eq(a, "--only") {
            if i + 1 >= n {
                return Err(ArgsError::OnlyNeedsValue);
            }
            proof {
                assert(v[i + 1] == argv@[i + 1]@);
            }
            match parse_dimensions(argv[i + 1].as_str()) {
                Ok(cats) => {
                    only = Some(cats);
                },
                Err(item) => {
                    return Err(ArgsError::UnknownDimension(item));
                },
            }
            i = i + 2;
        } else if str_eq(a, "--check") {
            if i + 1 >= n {
                return Err(ArgsError::CheckNeedsName);
            }
            proof {
                assert(v[i + 1] == argv@[i + 1]@);
            }
            check = Some(argv[i + 1].clone());
            i = i + 2;
        } else if a.unicode_len() > 0 && a.get_char(0) == '-' {
            return Err(ArgsError::UnknownOption(String::from_str(a)));
        } else if artifact_path.is_some() {
            return Err(ArgsError::UnexpectedArgument(String::from_str(a)));
        } else {
            artifact_path = Some(String::from_str(a));
            i = i + 1;
        }
    }
    match artifact_path {
        Some(p) => Ok(Args { artifact_path: p, package, only, check }),
        None => Err(ArgsError::MissingArtifact),
    }
}

/// The marker printed after a check's name in the report.
pub fn marker(status: CheckStatus) -> (m: &'static str)
    ensures
        status == CheckStatus::Pass ==> m@ == "PASS"@,
        status == CheckStatus::Warn ==> m@ == "WARN"@,
        status == CheckStatus::Fail ==> m@ == "FAIL"@,
{
    status.label()
}

} // verus!
