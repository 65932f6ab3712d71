use cicd_audit::catalog::all_checks;
use cicd_audit::gateway::ApiError;
use cicd_audit::models::{Check, CheckCategory, CheckResult, CheckStatus};
use cicd_audit::review::AiPriority;
use cicd_audit::score::{CategoryScore, ScoreReport};

fn sample_check() -> Check {
    Check {
        id: "sample".to_string(),
        name: "Sample".to_string(),
        description: "A sample check".to_string(),
        category: CheckCategory::Fundamentals,
        max_points: 6,
    }
}

#[test]
fn catalog_is_deterministic_and_ordered() {
    let a = all_checks();
    let b = all_checks();
    assert_eq!(a.len(), 29);
    assert_eq!(a.len(), b.len());
    for (x, y) in a.iter().zip(b.iter()) {
        assert_eq!(x.id, y.id);
        assert_eq!(x.category, y.category);
        assert_eq!(x.max_points, y.max_points);
    }
    assert_eq!(a[0].id, "pipeline_exists");
    assert_eq!(a[28].id, "rollback_strategy");
    // Ids are unique.
    for i in 0..a.len() {
        for j in (i + 1)..a.len() {
            assert_ne!(a[i].id, a[j].id);
        }
    }
}

#[test]
fn catalog_weights_sum_to_the_category_budgets() {
    let mut sums = [0u32; 4];
    for c in all_checks() {
        let idx = match c.category {
            CheckCategory::Fundamentals => 0,
            CheckCategory::Intermediate => 1,
            CheckCategory::Advanced => 2,
            CheckCategory::Bonus => 3,
        };
        sums[idx] += c.max_points;
    }
    assert_eq!(sums[0], CheckCategory::Fundamentals.max_points());
    assert_eq!(sums[1], CheckCategory::Intermediate.max_points());
    assert_eq!(sums[2], CheckCategory::Advanced.max_points());
    assert_eq!(sums[3], CheckCategory::Bonus.max_points());
}

#[test]
fn category_labels_and_budgets() {
    assert_eq!(CheckCategory::Fundamentals.label(), "Fundamentals");
    assert_eq!(CheckCategory::Bonus.label(), "Bonus");
    assert_eq!(CheckCategory::Fundamentals.max_points(), 50);
    assert_eq!(CheckCategory::Intermediate.max_points(), 30);
    assert_eq!(CheckCategory::Advanced.max_points(), 35);
    assert_eq!(CheckCategory::Bonus.max_points(), 10);
    assert!(!CheckCategory::Advanced.icon().is_empty());
}

#[test]
fn result_constructors_set_points_and_suggestions() {
    let passed = CheckResult::passed(sample_check(), "all good");
    assert_eq!(passed.status, CheckStatus::Passed);
    assert_eq!(passed.points_earned, 6);
    assert!(passed.suggestion.is_none());

    let failed = CheckResult::failed(sample_check(), "missing", "add it");
    assert_eq!(failed.status, CheckStatus::Failed);
    assert_eq!(failed.points_earned, 0);
    assert_eq!(failed.suggestion.as_deref(), Some("add it"));

    let warn = CheckResult::warning(sample_check(), 3, "partial", "finish it");
    assert_eq!(warn.status, CheckStatus::Warning);
    assert_eq!(warn.points_earned, 3);
    assert_eq!(warn.suggestion.as_deref(), Some("finish it"));

    let skipped = CheckResult::skipped(sample_check(), "no data");
    assert_eq!(skipped.status, CheckStatus::Skipped);
    assert_eq!(skipped.points_earned, 0);
    assert!(skipped.suggestion.is_none());
    assert_eq!(skipped.detail, "no data");
}

fn report(passed: u32, total: u32) -> ScoreReport {
    ScoreReport {
        repository: "o/r".to_string(),
        passed,
        total,
        categories: Vec::new(),
        analyzed_at: "now".to_string(),
    }
}

#[test]
fn grade_bands_follow_the_percentage() {
    assert_eq!(report(9, 10).grade_label(), "Excellent");
    assert_eq!(report(9, 10).grade_color(), "#0cce6b");
    assert_eq!(report(7, 10).grade_label(), "Good");
    assert_eq!(report(7, 10).grade_color(), "#ffa400");
    assert_eq!(report(5, 10).grade_label(), "Needs improvement");
    assert_eq!(report(4, 10).grade_label(), "Insufficient");
    assert_eq!(report(4, 10).grade_color(), "#ff4e42");
}

#[test]
fn percent_is_zero_when_nothing_was_evaluated() {
    assert_eq!(report(0, 0).percent(), 0);
    assert_eq!(report(0, 0).grade_label(), "Insufficient");
    let cat = CategoryScore {
        category: CheckCategory::Bonus,
        passed: 2,
        total: 3,
        results: Vec::new(),
    };
    assert_eq!(cat.percent(), 66);
}

#[test]
fn api_error_describes_itself() {
    let e = ApiError {
        status: 404,
        message: "Not Found".to_string(),
    };
    assert_eq!(e.describe(), "API error 404: Not Found");
    let net = ApiError {
        status: 0,
        message: "timeout".to_string(),
    };
    assert_eq!(net.describe(), "API error 0: timeout");
}

#[test]
fn priority_labels_and_colors() {
    assert_eq!(AiPriority::High.label(), "High priority");
    assert_eq!(AiPriority::Medium.label(), "Medium priority");
    assert_eq!(AiPriority::Low.label(), "Low priority");
    assert_eq!(AiPriority::High.color(), "#ff4e42");
    assert_eq!(AiPriority::Low.color(), "#0cce6b");
}
