//! The orchestrator: runs every catalog entry through its evaluator, groups
//! the results by category in the catalog's category order, and computes the
//! per-category and global tallies under the ratio counting rule.

use vstd::prelude::*;

use crate::catalog::all_checks;
use crate::catalog::catalog_spec;
use crate::client::GithubClient;
use crate::evaluators::CheckRunner;
use crate::evaluators::eval_spec;
use crate::gateway::RepoIdentifier;
use crate::gateway::RepoSnapshot;
use crate::gateway::SnapshotView;
use crate::gateway::api_error_text;
use crate::gateway::full_name_spec;
use crate::models::Check;
use crate::models::CheckCategory;
use crate::models::CheckResult;
use crate::models::CheckStatus;
use crate::models::CheckView;
use crate::models::ResultView;
use crate::score::CategoryScore;
use crate::score::CategoryScoreView;
use crate::score::ScoreReport;
use crate::score::ScoreReportView;

verus! {

/// The verdict of every catalog entry against one snapshot, in catalog
/// order.
pub open spec fn results_spec(catalog: Seq<CheckView>, s: SnapshotView) -> Seq<ResultView> {
    catalog.map_values(|c: CheckView| eval_spec(c, s))
}

/// The results belonging to one category, keeping their order.
pub open spec fn cat_results(rs: Seq<ResultView>, cat: CheckCategory) -> Seq<ResultView>
    decreases rs.len(),
{
    if rs.len() == 0 {
        Seq::empty()
    } else {
        cat_results(rs.drop_last(), cat) + if rs.last().check.category == cat {
            seq![rs.last()]
        } else {
            Seq::<ResultView>::empty()
        }
    }
}

/// A status that counts as a pass: `Passed`, or `Warning` (partially
/// satisfied).
pub open spec fn is_pass(st: CheckStatus) -> bool {
    st == CheckStatus::Passed || st == CheckStatus::Warning
}

/// How many results count as passes.
pub open spec fn count_passed(rs: Seq<ResultView>) -> int
    decreases rs.len(),
{
    if rs.len() == 0 {
        0
    } else {
        count_passed(rs.drop_last()) + if is_pass(rs.last().status) {
            1int
        } else {
            0int
        }
    }
}

/// How many results were evaluated at all: everything but `Skipped`.
pub open spec fn count_scored(rs: Seq<ResultView>) -> int
    decreases rs.len(),
{
    if rs.len() == 0 {
        0
    } else {
        count_scored(rs.drop_last()) + if rs.last().status == CheckStatus::Skipped {
            0int
        } else {
            1int
        }
    }
}

/// The tallies never exceed the number of results, and passes never exceed
/// the evaluated count.
pub proof fn lemma_count_bounds(rs: Seq<ResultView>)
    ensures
        0 <= count_passed(rs) <= count_scored(rs) <= rs.len(),
    decreases rs.len(),
{
    if rs.len() > 0 {
        lemma_count_bounds(rs.drop_last());
    }
}

/// A category keeps at most as many results as the whole run produced.
pub proof fn lemma_cat_results_len(rs: Seq<ResultView>, cat: CheckCategory)
    ensures
        cat_results(rs, cat).len() <= rs.len(),
    decreases rs.len(),
{
    if rs.len() > 0 {
        lemma_cat_results_len(rs.drop_last(), cat);
    }
}

/// One category's score: its results with their pass and evaluated tallies.
pub open spec fn category_score_spec(rs: Seq<ResultView>, cat: CheckCategory) -> CategoryScoreView {
    let crs = cat_results(rs, cat);
    CategoryScoreView {
        category: cat,
        passed: count_passed(crs) as u32,
        total: count_scored(crs) as u32,
        results: crs,
    }
}

/// What `CheckEngine::analyze` produces on success: every catalog entry
/// evaluated, grouped into the four categories in their fixed order, with
/// the global tallies and the caller's timestamp.
pub open spec fn report_spec(
    catalog: Seq<CheckView>,
    s: SnapshotView,
    repo_name: Seq<char>,
    analyzed_at: Seq<char>,
) -> ScoreReportView {
    let rs = results_spec(catalog, s);
    let f = category_score_spec(rs, CheckCategory::Fundamentals);
    let i = category_score_spec(rs, CheckCategory::Intermediate);
    let a = category_score_spec(rs, CheckCategory::Advanced);
    let b = category_score_spec(rs, CheckCategory::Bonus);
    ScoreReportView {
        repository: repo_name,
        passed: (f.passed + i.passed + a.passed + b.passed) as u32,
        total: (f.total + i.total + a.total + b.total) as u32,
        categories: seq![f, i, a, b],
        analyzed_at: analyzed_at,
    }
}

/// Sum of the categories' pass tallies.
pub open spec fn sum_cat_passed(cats: Seq<CategoryScoreView>) -> int
    decreases cats.len(),
{
    if cats.len() == 0 {
        0
    } else {
        sum_cat_passed(cats.drop_last()) + cats.last().passed
    }
}

/// Sum of the categories' evaluated tallies.
pub open spec fn sum_cat_total(cats: Seq<CategoryScoreView>) -> int
    decreases cats.len(),
{
    if cats.len() == 0 {
        0
    } else {
        sum_cat_total(cats.drop_last()) + cats.last().total
    }
}

/// Law: in every report of the real catalog, the categories' tallies sum
/// exactly to the report's global tallies.
pub proof fn lemma_aggregation_invariant(s: SnapshotView, name: Seq<char>, at: Seq<char>)
    ensures
        sum_cat_passed(report_spec(catalog_spec(), s, name, at).categories) == report_spec(
            catalog_spec(),
            s,
            name,
            at,
        ).passed as int,
        sum_cat_total(report_spec(catalog_spec(), s, name, at).categories) == report_spec(
            catalog_spec(),
            s,
            name,
            at,
        ).total as int,
{
    let rs = results_spec(catalog_spec(), s);
    assert(rs.len() == 29);
    lemma_cat_results_len(rs, CheckCategory::Fundamentals);
    lemma_cat_results_len(rs, CheckCategory::Intermediate);
    lemma_cat_results_len(rs, CheckCategory::Advanced);
    lemma_cat_results_len(rs, CheckCategory::Bonus);
    lemma_count_bounds(cat_results(rs, CheckCategory::Fundamentals));
    lemma_count_bounds(cat_results(rs, CheckCategory::Intermediate));
    lemma_count_bounds(cat_results(rs, CheckCategory::Advanced));
    lemma_count_bounds(cat_results(rs, CheckCategory::Bonus));
    let f = category_score_spec(rs, CheckCategory::Fundamentals);
    let i = category_score_spec(rs, CheckCategory::Intermediate);
    let a = category_score_spec(rs, CheckCategory::Advanced);
    let b = category_score_spec(rs, CheckCategory::Bonus);
    let cats = seq![f, i, a, b];
    reveal_with_fuel(sum_cat_passed, 6);
    reveal_with_fuel(sum_cat_total, 6);
    assert(cats.drop_last() =~= seq![f, i, a]);
    assert(seq![f, i, a].drop_last() =~= seq![f, i]);
    assert(seq![f, i].drop_last() =~= seq![f]);
    assert(seq![f].drop_last() =~= Seq::<CategoryScoreView>::empty());
    assert(sum_cat_passed(cats) == f.passed + i.passed + a.passed + b.passed);
    assert(sum_cat_total(cats) == f.total + i.total + a.total + b.total);
}

/// In every report of the real catalog the passes never exceed the
/// evaluated count, so the grading functions apply to it.
pub proof fn lemma_report_tallies_consistent(s: SnapshotView, name: Seq<char>, at: Seq<char>)
    ensures
        report_spec(catalog_spec(), s, name, at).passed <= report_spec(
            catalog_spec(),
            s,
            name,
            at,
        ).total,
{
    let rs = results_spec(catalog_spec(), s);
    assert(rs.len() == 29);
    lemma_cat_results_len(rs, CheckCategory::Fundamentals);
    lemma_cat_results_len(rs, CheckCategory::Intermediate);
    lemma_cat_results_len(rs, CheckCategory::Advanced);
    lemma_cat_results_len(rs, CheckCategory::Bonus);
    lemma_count_bounds(cat_results(rs, CheckCategory::Fundamentals));
    lemma_count_bounds(cat_results(rs, CheckCategory::Intermediate));
    lemma_count_bounds(cat_results(rs, CheckCategory::Advanced));
    lemma_count_bounds(cat_results(rs, CheckCategory::Bonus));
}

/// Law: a `Skipped` result contributes to no tally of its category — not to
/// the passes and not to the denominator — at any aggregation level.
pub proof fn lemma_skipped_excluded(rs: Seq<ResultView>, r: ResultView, cat: CheckCategory)
    requires
        r.status == CheckStatus::Skipped,
    ensures
        count_passed(cat_results(rs.push(r), cat)) == count_passed(cat_results(rs, cat)),
        count_scored(cat_results(rs.push(r), cat)) == count_scored(cat_results(rs, cat)),
{
    let pushed = rs.push(r);
    assert(pushed.drop_last() =~= rs);
    assert(pushed.last() == r);
    if r.check.category == cat {
        let crs = cat_results(rs, cat);
        let ext = crs + seq![r];
        assert(cat_results(pushed, cat) == ext);
        assert(ext.drop_last() =~= crs);
        assert(ext.last() == r);
    } else {
        assert(cat_results(pushed, cat) =~= cat_results(rs, cat));
    }
}

/// Law: against an unchanged snapshot, two runs produce identical reports
/// except for their timestamps — the analysis is deterministic in its
/// inputs.
pub proof fn lemma_analyze_deterministic(
    catalog: Seq<CheckView>,
    s: SnapshotView,
    name: Seq<char>,
    at1: Seq<char>,
    at2: Seq<char>,
)
    ensures
        report_spec(catalog, s, name, at1).repository == report_spec(
            catalog,
            s,
            name,
            at2,
        ).repository,
        report_spec(catalog, s, name, at1).passed == report_spec(catalog, s, name, at2).passed,
        report_spec(catalog, s, name, at1).total == report_spec(catalog, s, name, at2).total,
        report_spec(catalog, s, name, at1).categories == report_spec(
            catalog,
            s,
            name,
            at2,
        ).categories,
        report_spec(catalog, s, name, at1).analyzed_at == at1,
        report_spec(catalog, s, name, at2).analyzed_at == at2,
{
}

/// Orchestrates all checks and produces a score report.
#[derive(Debug)]
pub struct CheckEngine {
    pub client: GithubClient,
}

/// Groups the results of one category and tallies them.
fn build_category(results: &Vec<CheckResult>, cat: CheckCategory) -> (cs: CategoryScore)
    requires
        results@.len() <= u32::MAX,
    ensures
        cs@ == category_score_spec(results@.map_values(|r: CheckResult| r@), cat),
{
    let ghost rviews = results@.map_values(|r: CheckResult| r@);
    let mut list: Vec<CheckResult> = Vec::new();
    let mut i: usize = 0;
    proof {
        assert(list@.map_values(|r: CheckResult| r@) =~= cat_results(rviews.take(0), cat));
    }
    while i < results.len()
        invariant
            i <= results@.len(),
            rviews == results@.map_values(|r: CheckResult| r@),
            list@.map_values(|r: CheckResult| r@) == cat_results(rviews.take(i as int), cat),
        decreases results@.len() - i,
    {
        if results[i].check.category == cat {
            list.push(results[i].clone());
        }
        proof {
            assert(rviews.take(i + 1).drop_last() =~= rviews.take(i as int));
            assert(rviews.take(i + 1).last() == rviews[i as int]);
            assert(list@.map_values(|r: CheckResult| r@) =~= cat_results(
                rviews.take(i + 1),
                cat,
            ));
        }
        i = i + 1;
    }
    proof {
        assert(rviews.take(results@.len() as int) =~= rviews);
        lemma_cat_results_len(rviews, cat);
    }
    let ghost crs = cat_results(rviews, cat);
    let mut passed: u32 = 0;
    let mut total: u32 = 0;
    let mut j: usize = 0;
    proof {
        assert(crs.take(0) =~= Seq::<ResultView>::empty());
    }
    while j < list.len()
        invariant
            j <= list@.len(),
            list@.map_values(|r: CheckResult| r@) == crs,
            crs.len() <= u32::MAX,
            passed == count_passed(crs.take(j as int)),
            total == count_scored(crs.take(j as int)),
            passed <= total <= j,
        decreases list@.len() - j,
    {
        match list[j].status {
            CheckStatus::Passed => {
                passed = passed + 1;
                total = total + 1;
            },
            CheckStatus::Warning => {
                passed = passed + 1;
                total = total + 1;
            },
            CheckStatus::Failed => {
                total = total + 1;
            },
            CheckStatus::Skipped => {},
        }
        proof {
            assert(crs.take(j + 1).drop_last() =~= crs.take(j as int));
            assert(crs.take(j + 1).last() == crs[j as int]);
        }
        j = j + 1;
    }
    proof {
        assert(crs.take(list@.len() as int) =~= crs);
    }
    CategoryScore { category: cat, passed, total, results: list }
}

impl CheckEngine {
    /// An engine over the given API handle.
    pub fn new(client: GithubClient) -> (e: Self)
        ensures
            e.client == client,
    {
        CheckEngine { client }
    }

    /// Runs every catalog check against the snapshot and aggregates the
    /// verdicts into a report; fails only when the repository itself was
    /// unreachable, in which case no partial report is produced.
    #[verifier::rlimit(80)]
    pub fn analyze(
        &self,
        repo: &RepoIdentifier,
        snapshot: &RepoSnapshot,
        analyzed_at: String,
    ) -> (r: Result<ScoreReport, String>)
        ensures
            match snapshot@.metadata {
                Err(e) => (r matches Err(m) && m@ == "Could not reach repository: "@
                    + api_error_text(e)),
                Ok(_) => (r matches Ok(rep) && rep@ == report_spec(
                    catalog_spec(),
                    snapshot@,
                    full_name_spec(repo@),
                    analyzed_at@,
                )),
            },
    {
        match &snapshot.metadata {
            Err(e) => {
                let mut m = String::from_str("Could not reach repository: ");
                let described = e.describe();
                m.append(described.as_str());
                return Err(m);
            },
            Ok(_) => {},
        }
        let checks = all_checks();
        let runner = CheckRunner::new(snapshot);
        let ghost cviews = checks@.map_values(|c: Check| c@);
        let ghost rs = results_spec(catalog_spec(), snapshot@);
        let mut results: Vec<CheckResult> = Vec::new();
        let mut i: usize = 0;
        proof {
            assert(results@.map_values(|r: CheckResult| r@) =~= rs.take(0));
        }
        while i < checks.len()
            invariant
                i <= checks@.len(),
                cviews == checks@.map_values(|c: Check| c@),
                cviews == catalog_spec(),
                rs == results_spec(catalog_spec(), snapshot@),
                runner.snapshot == snapshot,
                results@.map_values(|r: CheckResult| r@) == rs.take(i as int),
            decreases checks@.len() - i,
        {
            let result = runner.run_check(&checks[i]);
            let ghost rv = result@;
            let ghost prev = results@;
            results.push(result);
            proof {
                assert(cviews[i as int] == checks@[i as int]@);
                assert(rs[i as int] == eval_spec(cviews[i as int], snapshot@));
                assert(prev.map_values(|r: CheckResult| r@).len() == prev.len());
                assert(prev.len() == i);
                assert(results@[i as int]@ == rv);
                assert forall|j: int| 0 <= j < i + 1 implies #[trigger] rs.take(i + 1)[j]
                    == results@.map_values(|r: CheckResult| r@)[j] by {
                    if j < i {
                        assert(prev.map_values(|r: CheckResult| r@)[j] == rs.take(i as int)[j]);
                        assert(results@[j] == prev[j]);
                    } else {
                        assert(results@[j]@ == rv);
                    }
                }
                assert(results@.map_values(|r: CheckResult| r@) =~= rs.take(i + 1));
            }
            i = i + 1;
        }
        proof {
            assert(rs.take(checks@.len() as int) =~= rs);
            assert(rs.len() == 29);
        }
        let f = build_category(&results, CheckCategory::Fundamentals);
        let inter = build_category(&results, CheckCategory::Intermediate);
        let a = build_category(&results, CheckCategory::Advanced);
        let b = build_category(&results, CheckCategory::Bonus);
        proof {
            lemma_cat_results_len(rs, CheckCategory::Fundamentals);
            lemma_cat_results_len(rs, CheckCategory::Intermediate);
            lemma_cat_results_len(rs, CheckCategory::Advanced);
            lemma_cat_results_len(rs, CheckCategory::Bonus);
            lemma_count_bounds(cat_results(rs, CheckCategory::Fundamentals));
            lemma_count_bounds(cat_results(rs, CheckCategory::Intermediate));
            lemma_count_bounds(cat_results(rs, CheckCategory::Advanced));
            lemma_count_bounds(cat_results(rs, CheckCategory::Bonus));
        }
        let passed = f.passed + inter.passed + a.passed + b.passed;
        let total = f.total + inter.total + a.total + b.total;
        let mut categories: Vec<CategoryScore> = Vec::new();
        categories.push(f);
        categories.push(inter);
        categories.push(a);
        categories.push(b);
        let report = ScoreReport {
            repository: repo.full_name(),
            passed,
            total,
            categories,
            analyzed_at,
        };
        proof {
            assert(report@.categories =~= report_spec(
                catalog_spec(),
                snapshot@,
                full_name_spec(repo@),
                report.analyzed_at@,
            ).categories);
        }
        Ok(report)
    }
}

} // verus!
