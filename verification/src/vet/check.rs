//! The unit of vetting output: a categorized check with a pass/warn/fail verdict.
use vstd::prelude::*;

verus! {

/// Which dimension of the engine contract a check belongs to.
#[derive(Debug, Clone, Copy, PartialEq, Eq, Structural)]
pub enum CheckCategory {
    /// Structural / ABI surface: engine info, struct sizes, vtables.
    Abi,
    /// Runtime behavior observed by driving the engine through the mock host.
    Behavior,
    /// Packaged assets that ship alongside the native engine artifact.
    Resource,
}

impl CheckCategory {
    /// Human-readable dimension name used in reports.
    pub fn label(self) -> (l: &'static str)
        ensures
            self == CheckCategory::Abi ==> l@ == "ABI"@,
            self == CheckCategory::Behavior ==> l@ == "Behavior"@,
            self == CheckCategory::Resource ==> l@ == "Resource"@,
    {
        match self {
            CheckCategory::Abi => "ABI",
            CheckCategory::Behavior => "Behavior",
            CheckCategory::Resource => "Resource",
        }
    }
}

/// The verdict of a single check.
///
/// `Warn` surfaces behavior that is suspicious but legal without failing the
/// run and without silently rubber-stamping a do-nothing engine.
#[derive(Debug, Clone, Copy, PartialEq, Eq, Structural)]
pub enum CheckStatus {
    Pass,
    Warn,
    Fail,
}

impl CheckStatus {
    /// The verdict as printed in reports.
    pub fn label(self) -> (l: &'static str)
        ensures
            self == CheckStatus::Pass ==> l@ == "PASS"@,
            self == CheckStatus::Warn ==> l@ == "WARN"@,
            self == CheckStatus::Fail ==> l@ == "FAIL"@,
    {
        match self {
            CheckStatus::Pass => "PASS",
            CheckStatus::Warn => "WARN",
            CheckStatus::Fail => "FAIL",
        }
    }
}

/// One check outcome: its dimension, name, verdict and optional detail.
#[derive(Debug, Clone)]
pub struct CheckResult {
    pub category: CheckCategory,
    pub name: &'static str,
    pub status: CheckStatus,
    pub detail: String,
}

impl CheckResult {
    /// A passing check with no detail.
    pub fn pass(category: CheckCategory, name: &'static str) -> (r: CheckResult)
        ensures
            r.category == category,
            r.name == name,
            r.status == CheckStatus::Pass,
            r.detail@ == Seq::<char>::empty(),
    {
        CheckResult { category, name, status: CheckStatus::Pass, detail: String::new() }
    }

    /// A warning: suspicious but legal behavior, explained by `detail`.
    pub fn warn(category: CheckCategory, name: &'static str, detail: String) -> (r: CheckResult)
        ensures
            r.category == category,
            r.name == name,
            r.status == CheckStatus::Warn,
            r.detail == detail,
    {
        CheckResult { category, name, status: CheckStatus::Warn, detail }
    }

    /// A failure, explained by `detail`.
    pub fn fail(category: CheckCategory, name: &'static str, detail: String) -> (r: CheckResult)
        ensures
            r.category == category,
            r.name == name,
            r.status == CheckStatus::Fail,
            r.detail == detail,
    {
        CheckResult { category, name, status: CheckStatus::Fail, detail }
    }

    /// Whether the check passed.
    pub fn passed(&self) -> (p: bool)
        ensures
            p == (self.status == CheckStatus::Pass),
    {
        self.status == CheckStatus::Pass
    }

    /// Whether the check failed (warnings are not failures).
    pub fn failed(&self) -> (f: bool)
        ensures
            f == (self.status == CheckStatus::Fail),
    {
        self.status == CheckStatus::Fail
    }
}

/// Number of results in `results` with verdict `status`.
pub open spec fn count_status(results: Seq<CheckResult>, status: CheckStatus) -> nat
    decreases results.len(),
{
    if results.len() == 0 {
        0
    } else {
        count_status(results.drop_last(), status) + (if results.last().status == status {
            1nat
        } else {
            0nat
        })
    }
}

/// Tally of a check run.
#[derive(Debug, Clone, Copy, PartialEq, Eq, Structural)]
pub struct Summary {
    pub passed: usize,
    pub warned: usize,
    pub failed: usize,
}

impl Default for Summary {
    /// An empty tally.
    fn default() -> (s: Summary)
        ensures
            s.passed == 0 && s.warned == 0 && s.failed == 0,
    {
        Summary { passed: 0, warned: 0, failed: 0 }
    }
}

impl Summary {
    /// An empty tally.
    pub fn new() -> (s: Summary)
        ensures
            s.passed == 0 && s.warned == 0 && s.failed == 0,
    {
        Summary { passed: 0, warned: 0, failed: 0 }
    }

    /// Count the verdicts of `results`.
    pub fn of(results: &[CheckResult]) -> (s: Summary)
        ensures
            s.passed == count_status(results@, CheckStatus::Pass),
            s.warned == count_status(results@, CheckStatus::Warn),
            s.failed == count_status(results@, CheckStatus::Fail),
    {
        let mut s = Summary::new();
        let n = results.len();
        for i in 0..n
            invariant
                n == results@.len(),
                s.passed == count_status(results@.take(i as int), CheckStatus::Pass),
                s.warned == count_status(results@.take(i as int), CheckStatus::Warn),
                s.failed == count_status(results@.take(i as int), CheckStatus::Fail),
                s.passed + s.warned + s.failed == i,
        {
            proof {
                assert(results@.take(i + 1).drop_last() =~= results@.take(i as int));
            }
            match results[i].status {
                CheckStatus::Pass => s.passed = s.passed + 1,
                CheckStatus::Warn => s.warned = s.warned + 1,
                CheckStatus::Fail => s.failed = s.failed + 1,
            }
        }
        proof {
            assert(results@.take(n as int) =~= results@);
        }
        s
    }

    /// A run fails only on hard failures; warnings do not block.
    pub fn is_failure(&self) -> (f: bool)
        ensures
            f == (self.failed > 0),
    {
        self.failed > 0
    }
}

/// Every result is counted exactly once: the three tallies add up to the
/// number of results.
pub proof fn lemma_summary_counts_every_result(results: Seq<CheckResult>)
    ensures
        count_status(results, CheckStatus::Pass) + count_status(results, CheckStatus::Warn)
            + count_status(results, CheckStatus::Fail) == results.len(),
    decreases results.len(),
{
    if results.len() > 0 {
        lemma_summary_counts_every_result(results.drop_last());
    }
}

/// A run fails exactly when some result failed.
pub proof fn lemma_run_fails_iff_some_failure(results: Seq<CheckResult>)
    ensures
        count_status(results, CheckStatus::Fail) > 0 <==> exists|i: int|
            0 <= i < results.len() && #[trigger] results[i].status == CheckStatus::Fail,
    decreases results.len(),
{
    if results.len() > 0 {
        lemma_run_fails_iff_some_failure(results.drop_last());
        let init = results.drop_last();
        if count_status(init, CheckStatus::Fail) > 0 {
            let j = choose|j: int| 0 <= j < init.len() && #[trigger] init[j].status
                == CheckStatus::Fail;
            assert(results[j] == init[j]);
        }
        if exists|i: int| 0 <= i < results.len() && #[trigger] results[i].status
            == CheckStatus::Fail {
            let i = choose|i: int| 0 <= i < results.len() && #[trigger] results[i].status
                == CheckStatus::Fail;
            if i < results.len() - 1 {
                assert(init[i] == results[i]);
            }
        }
    }
}

} // verus!
