use cicd_audit::catalog::all_checks;
use cicd_audit::client::GithubClient;
use cicd_audit::engine::CheckEngine;
use cicd_audit::gateway::{
    ApiError, CommitDetail, CommitItem, FileProbes, GithubContent, RepoIdentifier, RepoSnapshot,
    RepoMetadata, WorkflowRun, WorkflowRunsResponse,
};
use cicd_audit::models::{CheckCategory, CheckStatus};
use cicd_audit::score::ScoreReport;

fn no_probes() -> FileProbes {
    FileProbes {
        dockerfile: false,
        readme: false,
        gitignore: false,
        dependabot_yml: false,
        dependabot_yaml: false,
        renovate_json: false,
        github_renovate_json: false,
        codeowners_root: false,
        codeowners_github: false,
        codeowners_docs: false,
        rollback_yml: false,
        rollback_yaml: false,
        revert_yml: false,
    }
}

fn not_found() -> ApiError {
    ApiError {
        status: 404,
        message: "Not Found".to_string(),
    }
}

fn sample_snapshot() -> RepoSnapshot {
    RepoSnapshot {
        metadata: Ok(RepoMetadata {
            name: "repo".to_string(),
            full_name: "owner/repo".to_string(),
            default_branch: "main".to_string(),
            private: false,
            description: Some("demo".to_string()),
        }),
        workflow_files: Ok(vec![GithubContent {
            name: "ci.yml".to_string(),
            path: ".github/workflows/ci.yml".to_string(),
            content: Some(
                "on:\n  push:\njobs:\n  test:\n    steps:\n      - run: cargo test\n      - run: cargo clippy\n      - run: trivy fs .\n"
                    .to_string(),
            ),
            encoding: None,
            content_type: None,
        }]),
        workflow_runs: Ok(WorkflowRunsResponse {
            total_count: 1,
            workflow_runs: vec![WorkflowRun {
                id: 1,
                name: Some("CI".to_string()),
                status: Some("completed".to_string()),
                conclusion: Some("success".to_string()),
                head_branch: Some("main".to_string()),
                created_at: Some("t".to_string()),
                updated_at: Some("t".to_string()),
                run_started_at: Some("t".to_string()),
            }],
        }),
        branch_protection: Err(ApiError {
            status: 403,
            message: "Forbidden".to_string(),
        }),
        releases: Ok(Vec::new()),
        commits: Ok(vec![CommitItem {
            sha: "a".to_string(),
            commit: CommitDetail {
                message: "feat: start".to_string(),
            },
        }]),
        changelog: Err(not_found()),
        probes: no_probes(),
    }
}

fn analyze_sample(at: &str) -> ScoreReport {
    let engine = CheckEngine::new(GithubClient::new(None));
    let repo = RepoIdentifier {
        owner: "owner".to_string(),
        repo: "repo".to_string(),
    };
    engine
        .analyze(&repo, &sample_snapshot(), at.to_string())
        .unwrap()
}

#[test]
fn report_covers_every_catalog_entry() {
    let report = analyze_sample("2024-01-01T00:00:00Z");
    assert_eq!(report.repository, "owner/repo");
    assert_eq!(report.analyzed_at, "2024-01-01T00:00:00Z");
    assert_eq!(report.categories.len(), 4);
    let n: usize = report.categories.iter().map(|c| c.results.len()).sum();
    assert_eq!(n, all_checks().len());
    assert_eq!(
        report.categories[0].category,
        CheckCategory::Fundamentals
    );
    assert_eq!(
        report.categories[1].category,
        CheckCategory::Intermediate
    );
    assert_eq!(report.categories[2].category, CheckCategory::Advanced);
    assert_eq!(report.categories[3].category, CheckCategory::Bonus);
}

#[test]
fn report_totals_are_the_sum_of_the_categories() {
    let report = analyze_sample("now");
    let passed: u32 = report.categories.iter().map(|c| c.passed).sum();
    let total: u32 = report.categories.iter().map(|c| c.total).sum();
    assert_eq!(passed, report.passed);
    assert_eq!(total, report.total);
}

#[test]
fn skipped_results_never_enter_a_denominator() {
    let report = analyze_sample("now");
    let mut skipped = 0;
    for cat in &report.categories {
        let mut non_skipped = 0;
        let mut passes = 0;
        for r in &cat.results {
            match r.status {
                CheckStatus::Skipped => skipped += 1,
                CheckStatus::Passed | CheckStatus::Warning => {
                    non_skipped += 1;
                    passes += 1;
                }
                CheckStatus::Failed => non_skipped += 1,
            }
        }
        assert_eq!(cat.total, non_skipped);
        assert_eq!(cat.passed, passes);
    }
    // The sample snapshot has at least one skipped check (branch protection).
    assert!(skipped >= 1);
    let total: u32 = report.categories.iter().map(|c| c.total).sum();
    assert_eq!(total as usize + skipped, all_checks().len());
}

#[test]
fn demoting_a_failure_to_skipped_shrinks_only_the_denominator() {
    let engine = CheckEngine::new(GithubClient::new(None));
    let repo = RepoIdentifier {
        owner: "owner".to_string(),
        repo: "repo".to_string(),
    };
    // A missing rule set (404) is a counted failure; a permission error
    // (403) makes the same check skipped and uncounted.
    let mut with_failure = sample_snapshot();
    with_failure.branch_protection = Err(ApiError {
        status: 404,
        message: "Not Found".to_string(),
    });
    let failed_report = engine
        .analyze(&repo, &with_failure, "now".to_string())
        .unwrap();
    let skipped_report = engine
        .analyze(&repo, &sample_snapshot(), "now".to_string())
        .unwrap();
    assert_eq!(failed_report.passed, skipped_report.passed);
    assert_eq!(failed_report.total, skipped_report.total + 1);
}

#[test]
fn analyze_is_deterministic_except_for_the_timestamp() {
    let r1 = analyze_sample("first");
    let r2 = analyze_sample("second");
    assert_eq!(r1.repository, r2.repository);
    assert_eq!(r1.passed, r2.passed);
    assert_eq!(r1.total, r2.total);
    assert_eq!(r1.categories.len(), r2.categories.len());
    for (c1, c2) in r1.categories.iter().zip(r2.categories.iter()) {
        assert_eq!(c1.category, c2.category);
        assert_eq!(c1.passed, c2.passed);
        assert_eq!(c1.total, c2.total);
        assert_eq!(c1.results.len(), c2.results.len());
        for (a, b) in c1.results.iter().zip(c2.results.iter()) {
            assert_eq!(a.check.id, b.check.id);
            assert_eq!(a.status, b.status);
            assert_eq!(a.points_earned, b.points_earned);
            assert_eq!(a.detail, b.detail);
            assert_eq!(a.suggestion, b.suggestion);
        }
    }
    assert_eq!(r1.analyzed_at, "first");
    assert_eq!(r2.analyzed_at, "second");
}

#[test]
fn unreachable_repository_aborts_with_one_message() {
    let engine = CheckEngine::new(GithubClient::new(None));
    let repo = RepoIdentifier {
        owner: "owner".to_string(),
        repo: "gone".to_string(),
    };
    let mut snap = sample_snapshot();
    snap.metadata = Err(ApiError {
        status: 404,
        message: "Not Found".to_string(),
    });
    let err = engine.analyze(&repo, &snap, "now".to_string()).unwrap_err();
    assert_eq!(err, "Could not reach repository: API error 404: Not Found");
}

#[test]
fn suggestions_accompany_failures_and_warnings_only() {
    let report = analyze_sample("now");
    for cat in &report.categories {
        for r in &cat.results {
            match r.status {
                CheckStatus::Failed | CheckStatus::Warning => assert!(r.suggestion.is_some()),
                CheckStatus::Passed | CheckStatus::Skipped => assert!(r.suggestion.is_none()),
            }
        }
    }
}

#[test]
fn points_follow_the_status() {
    let report = analyze_sample("now");
    for cat in &report.categories {
        for r in &cat.results {
            match r.status {
                CheckStatus::Passed => assert_eq!(r.points_earned, r.check.max_points),
                CheckStatus::Warning => assert!(r.points_earned < r.check.max_points),
                CheckStatus::Failed | CheckStatus::Skipped => assert_eq!(r.points_earned, 0),
            }
        }
    }
}
