//! Core data model: check definitions, verdict statuses, per-check results,
//! and the views that contracts are stated over.

use vstd::prelude::*;

verus! {

/// Status of a single check after evaluation.
///
/// `Skipped` means the check could not be evaluated (missing permission,
/// gateway error, insufficient data) and is excluded from every denominator;
/// `Warning` means partially satisfied and counts as a pass for ratio
/// purposes.
#[derive(Debug, Clone, Copy, PartialEq, Eq, Structural)]
pub enum CheckStatus {
    Passed,
    Failed,
    Warning,
    Skipped,
}

/// Category grouping checks by difficulty level.
#[derive(Debug, Clone, Copy, PartialEq, Eq, Hash, Structural)]
pub enum CheckCategory {
    Fundamentals,
    Intermediate,
    Advanced,
    Bonus,
}

/// What `CheckCategory::label` returns.
pub open spec fn category_label(c: CheckCategory) -> Seq<char> {
    match c {
        CheckCategory::Fundamentals => "Fundamentals"@,
        CheckCategory::Intermediate => "Intermediate"@,
        CheckCategory::Advanced => "Advanced"@,
        CheckCategory::Bonus => "Bonus"@,
    }
}

/// What `CheckCategory::icon` returns.
pub open spec fn category_icon(c: CheckCategory) -> Seq<char> {
    match c {
        CheckCategory::Fundamentals => "🟢"@,
        CheckCategory::Intermediate => "🔵"@,
        CheckCategory::Advanced => "🟡"@,
        CheckCategory::Bonus => "⭐"@,
    }
}

/// The point budget of each category; catalog weights sum to it per category.
pub open spec fn category_max_points(c: CheckCategory) -> u32 {
    match c {
        CheckCategory::Fundamentals => 50,
        CheckCategory::Intermediate => 30,
        CheckCategory::Advanced => 35,
        CheckCategory::Bonus => 10,
    }
}

impl CheckCategory {
    /// Human-readable name of the category.
    pub fn label(&self) -> (r: &'static str)
        ensures
            r@ == category_label(*self),
    {
        match self {
            CheckCategory::Fundamentals => "Fundamentals",
            CheckCategory::Intermediate => "Intermediate",
            CheckCategory::Advanced => "Advanced",
            CheckCategory::Bonus => "Bonus",
        }
    }

    /// Decorative marker shown next to the category.
    pub fn icon(&self) -> (r: &'static str)
        ensures
            r@ == category_icon(*self),
    {
        match self {
            CheckCategory::Fundamentals => "🟢",
            CheckCategory::Intermediate => "🔵",
            CheckCategory::Advanced => "🟡",
            CheckCategory::Bonus => "⭐",
        }
    }

    /// The point budget of the category.
    pub fn max_points(&self) -> (r: u32)
        ensures
            r == category_max_points(*self),
    {
        match self {
            CheckCategory::Fundamentals => 50,
            CheckCategory::Intermediate => 30,
            CheckCategory::Advanced => 35,
            CheckCategory::Bonus => 10,
        }
    }
}

/// Definition of one check of the catalog; pure data, created once and never
/// mutated.
#[derive(Debug)]
pub struct Check {
    pub id: String,
    pub name: String,
    pub description: String,
    pub category: CheckCategory,
    pub max_points: u32,
}

/// Mathematical model of a `Check`.
pub struct CheckView {
    pub id: Seq<char>,
    pub name: Seq<char>,
    pub description: Seq<char>,
    pub category: CheckCategory,
    pub max_points: u32,
}

impl View for Check {
    type V = CheckView;

    open spec fn view(&self) -> CheckView {
        CheckView {
            id: self.id@,
            name: self.name@,
            description: self.description@,
            category: self.category,
            max_points: self.max_points,
        }
    }
}

impl Clone for Check {
    fn clone(&self) -> (r: Self)
        ensures
            r == *self,
    {
        Check {
            id: self.id.clone(),
            name: self.name.clone(),
            description: self.description.clone(),
            category: self.category,
            max_points: self.max_points,
        }
    }
}

/// Result of running one check.
#[derive(Debug)]
pub struct CheckResult {
    pub check: Check,
    pub status: CheckStatus,
    pub points_earned: u32,
    pub detail: String,
    pub suggestion: Option<String>,
}

/// Mathematical model of a `CheckResult`.
pub struct ResultView {
    pub check: CheckView,
    pub status: CheckStatus,
    pub points_earned: u32,
    pub detail: Seq<char>,
    pub suggestion: Option<Seq<char>>,
}

impl View for CheckResult {
    type V = ResultView;

    open spec fn view(&self) -> ResultView {
        ResultView {
            check: self.check@,
            status: self.status,
            points_earned: self.points_earned,
            detail: self.detail@,
            suggestion: match self.suggestion {
                Some(s) => Some(s@),
                None => None,
            },
        }
    }
}

impl Clone for CheckResult {
    fn clone(&self) -> (r: Self)
        ensures
            r@ == self@,
    {
        CheckResult {
            check: self.check.clone(),
            status: self.status,
            points_earned: self.points_earned,
            detail: self.detail.clone(),
            suggestion: match &self.suggestion {
                Some(s) => Some(s.clone()),
                None => None,
            },
        }
    }
}

/// The model of a passing result: full weight, no suggestion.
pub open spec fn passed_view(c: CheckView, detail: Seq<char>) -> ResultView {
    ResultView {
        check: c,
        status: CheckStatus::Passed,
        points_earned: c.max_points,
        detail: detail,
        suggestion: None,
    }
}

/// The model of a failing result: zero points, with a remediation suggestion.
pub open spec fn failed_view(c: CheckView, detail: Seq<char>, suggestion: Seq<char>) -> ResultView {
    ResultView {
        check: c,
        status: CheckStatus::Failed,
        points_earned: 0,
        detail: detail,
        suggestion: Some(suggestion),
    }
}

/// The model of a partial result: chosen points below the weight, with a
/// suggestion.
pub open spec fn warning_view(
    c: CheckView,
    points: u32,
    detail: Seq<char>,
    suggestion: Seq<char>,
) -> ResultView {
    ResultView {
        check: c,
        status: CheckStatus::Warning,
        points_earned: points,
        detail: detail,
        suggestion: Some(suggestion),
    }
}

/// The model of a skipped result: the check could not be evaluated.
pub open spec fn skipped_view(c: CheckView, reason: Seq<char>) -> ResultView {
    ResultView {
        check: c,
        status: CheckStatus::Skipped,
        points_earned: 0,
        detail: reason,
        suggestion: None,
    }
}

impl CheckResult {
    /// A passing result earns the check's full weight.
    pub fn passed(check: Check, detail: &str) -> (r: Self)
        ensures
            r@ == passed_view(check@, detail@),
    {
        let points = check.max_points;
        CheckResult {
            check,
            status: CheckStatus::Passed,
            points_earned: points,
            detail: detail.to_owned(),
            suggestion: None,
        }
    }

    /// A failing result earns nothing and carries a remediation suggestion.
    pub fn failed(check: Check, detail: &str, suggestion: &str) -> (r: Self)
        ensures
            r@ == failed_view(check@, detail@, suggestion@),
    {
        CheckResult {
            check,
            status: CheckStatus::Failed,
            points_earned: 0,
            detail: detail.to_owned(),
            suggestion: Some(suggestion.to_owned()),
        }
    }

    /// A partial result earns fewer than the check's full weight.
    pub fn warning(check: Check, points: u32, detail: &str, suggestion: &str) -> (r: Self)
        requires
            check.max_points == 0 ==> points == 0,
            check.max_points > 0 ==> points < check.max_points,
        ensures
            r@ == warning_view(check@, points, detail@, suggestion@),
    {
        CheckResult {
            check,
            status: CheckStatus::Warning,
            points_earned: points,
            detail: detail.to_owned(),
            suggestion: Some(suggestion.to_owned()),
        }
    }

    /// A skipped result: the check could not be evaluated.
    pub fn skipped(check: Check, reason: &str) -> (r: Self)
        ensures
            r@ == skipped_view(check@, reason@),
    {
        CheckResult {
            check,
            status: CheckStatus::Skipped,
            points_earned: 0,
            detail: reason.to_owned(),
            suggestion: None,
        }
    }
}

} // verus!
