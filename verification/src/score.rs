//! Aggregated scores: per-category tallies and the full report, under the
//! ratio counting rule (passed = `Passed` + `Warning`, total = everything but
//! `Skipped`).

use vstd::prelude::*;

use crate::models::CheckCategory;
use crate::models::CheckResult;
use crate::models::ResultView;

verus! {

/// Score for one category of checks.
#[derive(Debug)]
pub struct CategoryScore {
    pub category: CheckCategory,
    /// Number of checks that passed or warned (a warning counts as a pass).
    pub passed: u32,
    /// Number of evaluated checks (`Skipped` excluded).
    pub total: u32,
    pub results: Vec<CheckResult>,
}

/// Mathematical model of a `CategoryScore`.
pub struct CategoryScoreView {
    pub category: CheckCategory,
    pub passed: u32,
    pub total: u32,
    pub results: Seq<ResultView>,
}

impl View for CategoryScore {
    type V = CategoryScoreView;

    open spec fn view(&self) -> CategoryScoreView {
        CategoryScoreView {
            category: self.category,
            passed: self.passed,
            total: self.total,
            results: self.results@.map_values(|r: CheckResult| r@),
        }
    }
}

/// Complete score report for a repository: one per analysis run, immutable,
/// a transient view of a point-in-time snapshot.
#[derive(Debug)]
pub struct ScoreReport {
    pub repository: String,
    /// Checks that passed or warned, across all categories.
    pub passed: u32,
    /// Evaluated checks (`Skipped` excluded), across all categories.
    pub total: u32,
    pub categories: Vec<CategoryScore>,
    pub analyzed_at: String,
}

/// Mathematical model of a `ScoreReport`.
pub struct ScoreReportView {
    pub repository: Seq<char>,
    pub passed: u32,
    pub total: u32,
    pub categories: Seq<CategoryScoreView>,
    pub analyzed_at: Seq<char>,
}

impl View for ScoreReport {
    type V = ScoreReportView;

    open spec fn view(&self) -> ScoreReportView {
        ScoreReportView {
            repository: self.repository@,
            passed: self.passed,
            total: self.total,
            categories: self.categories@.map_values(|c: CategoryScore| c@),
            analyzed_at: self.analyzed_at@,
        }
    }
}

/// The percentage of passes among evaluated checks, rounded down; zero when
/// nothing was evaluated.
pub open spec fn ratio_percent(passed: u32, total: u32) -> int {
    if total == 0 {
        0
    } else {
        passed * 100 / total as int
    }
}

/// What `ScoreReport::grade_color` returns, by percentage band.
pub open spec fn grade_color_spec(passed: u32, total: u32) -> Seq<char> {
    let p = ratio_percent(passed, total);
    if p >= 90 {
        "#0cce6b"@
    } else if p >= 50 {
        "#ffa400"@
    } else {
        "#ff4e42"@
    }
}

/// What `ScoreReport::grade_label` returns, by percentage band.
pub open spec fn grade_label_spec(passed: u32, total: u32) -> Seq<char> {
    let p = ratio_percent(passed, total);
    if p >= 90 {
        "Excellent"@
    } else if p >= 70 {
        "Good"@
    } else if p >= 50 {
        "Needs improvement"@
    } else {
        "Insufficient"@
    }
}

/// Percentage of passes among evaluated entries, rounded down.
fn percent_of(passed: u32, total: u32) -> (p: u32)
    requires
        passed <= total,
    ensures
        p == ratio_percent(passed, total),
{
    if total == 0 {
        0
    } else {
        let wide = (passed as u64) * 100 / (total as u64);
        proof {
            assert(passed * 100 / total as int <= 100) by (nonlinear_arith)
                requires
                    0 < total,
                    passed <= total,
            ;
        }
        wide as u32
    }
}

impl CategoryScore {
    /// Percentage of passes among this category's evaluated checks.
    pub fn percent(&self) -> (p: u32)
        requires
            self.passed <= self.total,
        ensures
            p == ratio_percent(self.passed, self.total),
    {
        percent_of(self.passed, self.total)
    }
}

impl ScoreReport {
    /// Percentage of passes among all evaluated checks.
    pub fn percent(&self) -> (p: u32)
        requires
            self.passed <= self.total,
        ensures
            p == ratio_percent(self.passed, self.total),
    {
        percent_of(self.passed, self.total)
    }

    /// Traffic-light color for the overall grade.
    pub fn grade_color(&self) -> (r: &'static str)
        requires
            self.passed <= self.total,
        ensures
            r@ == grade_color_spec(self.passed, self.total),
    {
        let pct = self.percent();
        if pct >= 90 {
            "#0cce6b"
        } else if pct >= 50 {
            "#ffa400"
        } else {
            "#ff4e42"
        }
    }

    /// Short verbal grade for the overall score.
    pub fn grade_label(&self) -> (r: &'static str)
        requires
            self.passed <= self.total,
        ensures
            r@ == grade_label_spec(self.passed, self.total),
    {
        let pct = self.percent();
        if pct >= 90 {
            "Excellent"
        } else if pct >= 70 {
            "Good"
        } else if pct >= 50 {
            "Needs improvement"
        } else {
            "Insufficient"
        }
    }
}

} // verus!
