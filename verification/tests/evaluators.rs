use cicd_audit::catalog::all_checks;
use cicd_audit::evaluators::{is_conventional_commit, CheckRunner};
use cicd_audit::gateway::{
    ApiError, BranchProtection, CommitDetail, CommitItem, FileProbes, GithubContent, Release,
    RepoMetadata, RepoSnapshot, WorkflowRun, WorkflowRunsResponse,
};
use cicd_audit::models::{Check, CheckStatus};

fn no_probes() -> FileProbes {
    FileProbes {
        dockerfile: false,
        readme: false,
        gitignore: false,
        dependabot_yml: false,
        dependabot_yaml: false,
        renovate_json: false,
        github_renovate_json: false,
        codeowners_root: false,
        codeowners_github: false,
        codeowners_docs: false,
        rollback_yml: false,
        rollback_yaml: false,
        revert_yml: false,
    }
}

fn not_found() -> ApiError {
    ApiError {
        status: 404,
        message: "Not Found".to_string(),
    }
}

fn base_snapshot() -> RepoSnapshot {
    RepoSnapshot {
        metadata: Ok(RepoMetadata {
            name: "repo".to_string(),
            full_name: "owner/repo".to_string(),
            default_branch: "main".to_string(),
            private: false,
            description: None,
        }),
        workflow_files: Ok(Vec::new()),
        workflow_runs: Ok(WorkflowRunsResponse {
            total_count: 0,
            workflow_runs: Vec::new(),
        }),
        branch_protection: Err(not_found()),
        releases: Ok(Vec::new()),
        commits: Ok(Vec::new()),
        changelog: Err(not_found()),
        probes: no_probes(),
    }
}

fn with_workflow_text(text: &str) -> RepoSnapshot {
    let mut snap = base_snapshot();
    snap.workflow_files = Ok(vec![GithubContent {
        name: "ci.yml".to_string(),
        path: ".github/workflows/ci.yml".to_string(),
        content: Some(text.to_string()),
        encoding: None,
        content_type: None,
    }]);
    snap
}

fn check_by_id(id: &str) -> Check {
    for c in all_checks() {
        if c.id == id {
            return c;
        }
    }
    panic!("unknown check id");
}

fn commit(msg: &str) -> CommitItem {
    CommitItem {
        sha: "abc".to_string(),
        commit: CommitDetail {
            message: msg.to_string(),
        },
    }
}

#[test]
fn conventional_commit_grammar() {
    assert!(is_conventional_commit("feat: add things"));
    assert!(is_conventional_commit("fix(core)!: urgent"));
    assert!(is_conventional_commit("chore(deps): bump"));
    assert!(is_conventional_commit("revert!: undo"));
    assert!(!is_conventional_commit("update stuff"));
    assert!(!is_conventional_commit("feat:no space"));
    assert!(!is_conventional_commit("feat(scope: missing close"));
    assert!(!is_conventional_commit("Feature: wrong word"));
    // Only the subject line counts.
    assert!(is_conventional_commit("docs: explain\n\nlong body here"));
    assert!(!is_conventional_commit("explain\n\nfeat: in the body"));
}

#[test]
fn conventional_commit_ratio_below_threshold() {
    let mut snap = base_snapshot();
    snap.commits = Ok(vec![
        commit("feat: a"),
        commit("Merge branch 'x'"),
        commit("fix(core)!: b"),
        commit("update stuff"),
    ]);
    let runner = CheckRunner::new(&snap);
    let r = runner.run_check(&check_by_id("conventional_commits"));
    assert_eq!(r.status, CheckStatus::Failed);
    assert_eq!(r.detail, "2/3 conventional commits (66% < 80%)");
    assert_eq!(r.points_earned, 0);
}

#[test]
fn conventional_commit_ratio_at_threshold() {
    let mut snap = base_snapshot();
    snap.commits = Ok(vec![
        commit("feat: a"),
        commit("fix: b"),
        commit("docs: c"),
        commit("perf: d"),
        commit("update stuff"),
    ]);
    let runner = CheckRunner::new(&snap);
    let r = runner.run_check(&check_by_id("conventional_commits"));
    assert_eq!(r.status, CheckStatus::Passed);
    assert_eq!(r.detail, "4/5 conventional commits (80%)");
}

#[test]
fn conventional_commit_only_merges_is_skipped() {
    let mut snap = base_snapshot();
    snap.commits = Ok(vec![commit("Merge pull request #1"), commit("Merge remote x")]);
    let runner = CheckRunner::new(&snap);
    let r = runner.run_check(&check_by_id("conventional_commits"));
    assert_eq!(r.status, CheckStatus::Skipped);
    assert_eq!(r.detail, "Only merge commits found");
}

#[test]
fn conventional_commit_fetch_error_is_skipped() {
    let mut snap = base_snapshot();
    snap.commits = Err(not_found());
    let runner = CheckRunner::new(&snap);
    let r = runner.run_check(&check_by_id("conventional_commits"));
    assert_eq!(r.status, CheckStatus::Skipped);
}

#[test]
fn branch_protection_missing_rules_fail() {
    let snap = base_snapshot();
    let runner = CheckRunner::new(&snap);
    let r = runner.run_check(&check_by_id("branch_protection"));
    assert_eq!(r.status, CheckStatus::Failed);
    assert!(r.suggestion.is_some());
}

#[test]
fn branch_protection_other_error_is_skipped() {
    let mut snap = base_snapshot();
    snap.branch_protection = Err(ApiError {
        status: 403,
        message: "Forbidden".to_string(),
    });
    let runner = CheckRunner::new(&snap);
    let r = runner.run_check(&check_by_id("branch_protection"));
    assert_eq!(r.status, CheckStatus::Skipped);
}

#[test]
fn branch_protection_with_reviews_passes() {
    let mut snap = base_snapshot();
    snap.branch_protection = Ok(BranchProtection {
        requires_pull_request_reviews: true,
        enforce_admins: None,
        has_required_status_checks: false,
    });
    let runner = CheckRunner::new(&snap);
    let r = runner.run_check(&check_by_id("branch_protection"));
    assert_eq!(r.status, CheckStatus::Passed);
}

#[test]
fn branch_protection_without_reviews_warns() {
    let mut snap = base_snapshot();
    snap.branch_protection = Ok(BranchProtection {
        requires_pull_request_reviews: false,
        enforce_admins: None,
        has_required_status_checks: true,
    });
    let runner = CheckRunner::new(&snap);
    let check = check_by_id("branch_protection");
    let weight = check.max_points;
    let r = runner.run_check(&check);
    assert_eq!(r.status, CheckStatus::Warning);
    assert_eq!(r.points_earned, weight / 2);
    assert!(r.points_earned < weight);
}

#[test]
fn multi_environment_single_indicator_fails() {
    let snap = with_workflow_text("deploy to staging now");
    let runner = CheckRunner::new(&snap);
    let r = runner.run_check(&check_by_id("multi_environment"));
    assert_eq!(r.status, CheckStatus::Failed);
}

#[test]
fn multi_environment_two_indicators_pass() {
    let snap = with_workflow_text("jobs run on staging and then production");
    let runner = CheckRunner::new(&snap);
    let r = runner.run_check(&check_by_id("multi_environment"));
    assert_eq!(r.status, CheckStatus::Passed);
    assert_eq!(
        r.detail,
        "Environment indicators detected: staging, production, prod"
    );
}

#[test]
fn pipeline_exists_lists_yaml_files() {
    let mut snap = base_snapshot();
    snap.workflow_files = Ok(vec![
        GithubContent {
            name: "ci.yml".to_string(),
            path: "p1".to_string(),
            content: None,
            encoding: None,
            content_type: None,
        },
        GithubContent {
            name: "README.md".to_string(),
            path: "p2".to_string(),
            content: None,
            encoding: None,
            content_type: None,
        },
        GithubContent {
            name: "deploy.yaml".to_string(),
            path: "p3".to_string(),
            content: None,
            encoding: None,
            content_type: None,
        },
    ]);
    let runner = CheckRunner::new(&snap);
    let r = runner.run_check(&check_by_id("pipeline_exists"));
    assert_eq!(r.status, CheckStatus::Passed);
    assert_eq!(r.detail, "2 workflow file(s) found: ci.yml, deploy.yaml");
}

#[test]
fn pipeline_exists_missing_directory_fails() {
    let mut snap = base_snapshot();
    snap.workflow_files = Err(not_found());
    let runner = CheckRunner::new(&snap);
    let r = runner.run_check(&check_by_id("pipeline_exists"));
    assert_eq!(r.status, CheckStatus::Failed);
    assert_eq!(r.detail, "Workflow directory not found");
}

fn run(conclusion: Option<&str>, name: Option<&str>) -> WorkflowRun {
    WorkflowRun {
        id: 1,
        name: name.map(|s| s.to_string()),
        status: Some("completed".to_string()),
        conclusion: conclusion.map(|s| s.to_string()),
        head_branch: Some("main".to_string()),
        created_at: Some("t".to_string()),
        updated_at: Some("t".to_string()),
        run_started_at: Some("t".to_string()),
    }
}

#[test]
fn pipeline_green_success_passes() {
    let mut snap = base_snapshot();
    snap.workflow_runs = Ok(WorkflowRunsResponse {
        total_count: 1,
        workflow_runs: vec![run(Some("success"), Some("CI"))],
    });
    let runner = CheckRunner::new(&snap);
    let r = runner.run_check(&check_by_id("pipeline_green"));
    assert_eq!(r.status, CheckStatus::Passed);
    assert_eq!(r.detail, "Latest run 'CI' succeeded");
}

#[test]
fn pipeline_green_failure_fails() {
    let mut snap = base_snapshot();
    snap.workflow_runs = Ok(WorkflowRunsResponse {
        total_count: 1,
        workflow_runs: vec![run(Some("failure"), Some("CI"))],
    });
    let runner = CheckRunner::new(&snap);
    let r = runner.run_check(&check_by_id("pipeline_green"));
    assert_eq!(r.status, CheckStatus::Failed);
    assert_eq!(r.detail, "Latest run finished with conclusion: failure");
}

#[test]
fn pipeline_green_running_warns() {
    let mut snap = base_snapshot();
    snap.workflow_runs = Ok(WorkflowRunsResponse {
        total_count: 1,
        workflow_runs: vec![run(None, Some("CI"))],
    });
    let runner = CheckRunner::new(&snap);
    let r = runner.run_check(&check_by_id("pipeline_green"));
    assert_eq!(r.status, CheckStatus::Warning);
}

#[test]
fn pipeline_green_no_runs_fails() {
    let snap = base_snapshot();
    let runner = CheckRunner::new(&snap);
    let r = runner.run_check(&check_by_id("pipeline_green"));
    assert_eq!(r.status, CheckStatus::Failed);
}

#[test]
fn pipeline_green_fetch_error_is_skipped() {
    let mut snap = base_snapshot();
    snap.workflow_runs = Err(not_found());
    let runner = CheckRunner::new(&snap);
    let r = runner.run_check(&check_by_id("pipeline_green"));
    assert_eq!(r.status, CheckStatus::Skipped);
}

#[test]
fn keyword_checks_list_their_matches() {
    let snap = with_workflow_text("steps:\n  - run: trivy scan\n  - uses: snyk/actions@v1\n");
    let runner = CheckRunner::new(&snap);
    let r = runner.run_check(&check_by_id("security_scan"));
    assert_eq!(r.status, CheckStatus::Passed);
    assert_eq!(r.detail, "Security tooling detected: trivy, snyk");
}

#[test]
fn keyword_check_fails_on_empty_workflow_text() {
    let snap = base_snapshot();
    let runner = CheckRunner::new(&snap);
    let r = runner.run_check(&check_by_id("security_scan"));
    assert_eq!(r.status, CheckStatus::Failed);
    assert_eq!(r.detail, "No security scanning tool detected");
}

#[test]
fn keyword_scan_is_case_insensitive() {
    let snap = with_workflow_text("run: CARGO TEST --all");
    let runner = CheckRunner::new(&snap);
    let r = runner.run_check(&check_by_id("tests_exist"));
    assert_eq!(r.status, CheckStatus::Passed);
    assert_eq!(r.detail, "Test steps detected in CI: test, cargo test, go test");
}

#[test]
fn no_secrets_is_case_sensitive_and_inverted() {
    let clean = with_workflow_text("env:\n  KEY: ${{ secrets.MY_KEY }}\n");
    let runner = CheckRunner::new(&clean);
    let r = runner.run_check(&check_by_id("no_secrets_in_code"));
    assert_eq!(r.status, CheckStatus::Passed);

    let leaky = with_workflow_text("env:\n  AWS_KEY: AKIA1234\n  password: hunter2\n");
    let runner2 = CheckRunner::new(&leaky);
    let r2 = runner2.run_check(&check_by_id("no_secrets_in_code"));
    assert_eq!(r2.status, CheckStatus::Failed);
    assert_eq!(r2.detail, "Suspicious patterns detected: AKIA, password: ");
}

#[test]
fn auto_deploy_needs_push_trigger_for_full_credit() {
    let full = with_workflow_text("on:\n  push:\n    branches: [main]\njobs:\n  deploy:\n");
    let runner = CheckRunner::new(&full);
    let r = runner.run_check(&check_by_id("auto_deploy"));
    assert_eq!(r.status, CheckStatus::Passed);

    let partial = with_workflow_text("on:\n  workflow_dispatch:\njobs:\n  deploy:\n");
    let runner2 = CheckRunner::new(&partial);
    let r2 = runner2.run_check(&check_by_id("auto_deploy"));
    assert_eq!(r2.status, CheckStatus::Warning);
    assert!(r2.points_earned < check_by_id("auto_deploy").max_points);

    let none = with_workflow_text("on:\n  pull_request:\njobs:\n  build:\n");
    let runner3 = CheckRunner::new(&none);
    let r3 = runner3.run_check(&check_by_id("auto_deploy"));
    assert_eq!(r3.status, CheckStatus::Failed);
}

#[test]
fn file_probes_drive_existence_checks() {
    let mut snap = base_snapshot();
    snap.probes.dockerfile = true;
    let runner = CheckRunner::new(&snap);
    let r = runner.run_check(&check_by_id("dockerfile_exists"));
    assert_eq!(r.status, CheckStatus::Passed);
    assert_eq!(r.detail, "File Dockerfile found");

    let r2 = runner.run_check(&check_by_id("readme_exists"));
    assert_eq!(r2.status, CheckStatus::Failed);
    assert_eq!(r2.detail, "File README.md not found");
    assert_eq!(
        r2.suggestion.as_deref(),
        Some("Add a README.md file at the project root")
    );
}

#[test]
fn dependabot_prefers_dependabot_over_renovate() {
    let mut snap = base_snapshot();
    snap.probes.renovate_json = true;
    let runner = CheckRunner::new(&snap);
    let r = runner.run_check(&check_by_id("dependabot_configured"));
    assert_eq!(r.status, CheckStatus::Passed);
    assert_eq!(r.detail, "Renovate is configured");

    snap.probes.dependabot_yaml = true;
    let runner2 = CheckRunner::new(&snap);
    let r2 = runner2.run_check(&check_by_id("dependabot_configured"));
    assert_eq!(r2.detail, "Dependabot is configured");
}

#[test]
fn release_tagging_variants() {
    let mut snap = base_snapshot();
    snap.releases = Ok(vec![Release {
        id: 9,
        tag_name: "v1.2.0".to_string(),
        name: None,
        published_at: None,
    }]);
    let runner = CheckRunner::new(&snap);
    let r = runner.run_check(&check_by_id("release_tagging"));
    assert_eq!(r.status, CheckStatus::Passed);
    assert_eq!(r.detail, "1 release(s) found; latest: v1.2.0");

    let tooling = with_workflow_text("uses: googleapis/release-please-action@v4");
    let runner2 = CheckRunner::new(&tooling);
    let r2 = runner2.run_check(&check_by_id("release_tagging"));
    assert_eq!(r2.status, CheckStatus::Warning);

    let nothing = base_snapshot();
    let runner3 = CheckRunner::new(&nothing);
    let r3 = runner3.run_check(&check_by_id("release_tagging"));
    assert_eq!(r3.status, CheckStatus::Failed);

    let mut broken = base_snapshot();
    broken.releases = Err(not_found());
    let runner4 = CheckRunner::new(&broken);
    let r4 = runner4.run_check(&check_by_id("release_tagging"));
    assert_eq!(r4.status, CheckStatus::Skipped);
}

#[test]
fn pipeline_speed_counts_completed_runs() {
    let mut snap = base_snapshot();
    snap.workflow_runs = Ok(WorkflowRunsResponse {
        total_count: 2,
        workflow_runs: vec![run(Some("success"), None), run(None, None)],
    });
    let runner = CheckRunner::new(&snap);
    let r = runner.run_check(&check_by_id("pipeline_fast"));
    assert_eq!(r.status, CheckStatus::Passed);
    assert_eq!(
        r.detail,
        "1 recent completed runs analyzed; check their durations in the actions console"
    );

    let empty = base_snapshot();
    let runner2 = CheckRunner::new(&empty);
    let r2 = runner2.run_check(&check_by_id("pipeline_fast"));
    assert_eq!(r2.status, CheckStatus::Skipped);
}

#[test]
fn ci_cache_prefers_the_cache_action() {
    let both = with_workflow_text("uses: actions/cache@v4\ncache-from: type=gha");
    let runner = CheckRunner::new(&both);
    let r = runner.run_check(&check_by_id("ci_cache"));
    assert_eq!(r.detail, "CI cache detected: actions/cache");

    let docker = with_workflow_text("cache-to: type=gha,mode=max");
    let runner2 = CheckRunner::new(&docker);
    let r2 = runner2.run_check(&check_by_id("ci_cache"));
    assert_eq!(r2.detail, "CI cache detected: Docker layer cache");
}

#[test]
fn matrix_testing_names_the_axis() {
    let node = with_workflow_text("strategy:\n  matrix:\n    node-version: [18, 20]\n");
    let runner = CheckRunner::new(&node);
    let r = runner.run_check(&check_by_id("matrix_testing"));
    assert_eq!(r.status, CheckStatus::Passed);
    assert_eq!(r.detail, "Matrix detected across Node.js versions");

    let missing = with_workflow_text("jobs:\n  build:\n");
    let runner2 = CheckRunner::new(&missing);
    let r2 = runner2.run_check(&check_by_id("matrix_testing"));
    assert_eq!(r2.status, CheckStatus::Failed);
}

#[test]
fn reusable_workflow_defined_or_called() {
    let defined = with_workflow_text("on:\n  workflow_call:\n");
    let runner = CheckRunner::new(&defined);
    let r = runner.run_check(&check_by_id("reusable_workflows"));
    assert_eq!(r.status, CheckStatus::Passed);

    let called = with_workflow_text("uses: ./.github/workflows/shared.yml\n");
    let runner2 = CheckRunner::new(&called);
    let r2 = runner2.run_check(&check_by_id("reusable_workflows"));
    assert_eq!(r2.status, CheckStatus::Passed);
}

#[test]
fn rollback_strategy_ladder() {
    let mut snap = base_snapshot();
    snap.probes.rollback_yml = true;
    let runner = CheckRunner::new(&snap);
    let r = runner.run_check(&check_by_id("rollback_strategy"));
    assert_eq!(r.detail, "Dedicated rollback workflow detected");

    let keyword = with_workflow_text("jobs:\n  rollback:\n    runs-on: ubuntu\n");
    let runner2 = CheckRunner::new(&keyword);
    let r2 = runner2.run_check(&check_by_id("rollback_strategy"));
    assert_eq!(r2.status, CheckStatus::Passed);

    let dispatch_revert = with_workflow_text("on:\n  workflow_dispatch:\n# revert the release\n");
    let runner3 = CheckRunner::new(&dispatch_revert);
    let r3 = runner3.run_check(&check_by_id("rollback_strategy"));
    assert_eq!(r3.detail, "Manual dispatch with a revert option detected");

    let dispatch_only = with_workflow_text("on:\n  workflow_dispatch:\n");
    let runner4 = CheckRunner::new(&dispatch_only);
    let r4 = runner4.run_check(&check_by_id("rollback_strategy"));
    assert_eq!(r4.status, CheckStatus::Warning);

    let nothing = base_snapshot();
    let runner5 = CheckRunner::new(&nothing);
    let r5 = runner5.run_check(&check_by_id("rollback_strategy"));
    assert_eq!(r5.status, CheckStatus::Failed);
}

#[test]
fn auto_changelog_counts_version_headers() {
    let mut snap = base_snapshot();
    snap.changelog = Ok("# Changelog\n\n## [1.1.0] - 2024\n- a\n\n## v1.0.0\n- b\n".to_string());
    let runner = CheckRunner::new(&snap);
    let r = runner.run_check(&check_by_id("auto_changelog"));
    assert_eq!(r.status, CheckStatus::Passed);
    assert_eq!(r.detail, "Changelog file found with 2 version entries");

    let mut one = base_snapshot();
    one.changelog = Ok("# Changelog\n\n## [1.0.0]\n".to_string());
    let runner2 = CheckRunner::new(&one);
    let r2 = runner2.run_check(&check_by_id("auto_changelog"));
    assert_eq!(r2.status, CheckStatus::Failed);

    let tooling = with_workflow_text("uses: google-github-actions/release-please-action@v3");
    let runner3 = CheckRunner::new(&tooling);
    let r3 = runner3.run_check(&check_by_id("auto_changelog"));
    assert_eq!(r3.status, CheckStatus::Passed);
    assert_eq!(r3.detail, "Automated changelog tooling detected: release-please");
}

#[test]
fn ghcr_publication_ladder() {
    let full = with_workflow_text("uses: docker/build-push-action@v5\nwith:\n  push: true\n  registry: ghcr.io\n");
    let runner = CheckRunner::new(&full);
    let r = runner.run_check(&check_by_id("ghcr_published"));
    assert_eq!(r.status, CheckStatus::Passed);

    let mention = with_workflow_text("image: ghcr.io/owner/app:latest\n");
    let runner2 = CheckRunner::new(&mention);
    let r2 = runner2.run_check(&check_by_id("ghcr_published"));
    assert_eq!(r2.status, CheckStatus::Warning);

    let nothing = with_workflow_text("jobs:\n  build:\n");
    let runner3 = CheckRunner::new(&nothing);
    let r3 = runner3.run_check(&check_by_id("ghcr_published"));
    assert_eq!(r3.status, CheckStatus::Failed);
}

#[test]
fn tests_pass_needs_both_steps_and_green_run() {
    let mut snap = with_workflow_text("run: cargo test\n");
    snap.workflow_runs = Ok(WorkflowRunsResponse {
        total_count: 1,
        workflow_runs: vec![run(Some("success"), Some("CI"))],
    });
    let runner = CheckRunner::new(&snap);
    let r = runner.run_check(&check_by_id("tests_pass"));
    assert_eq!(r.status, CheckStatus::Passed);
    assert_eq!(
        r.detail,
        "Pipeline 'CI' is green with test steps detected and executed"
    );

    let no_tests = base_snapshot();
    let runner2 = CheckRunner::new(&no_tests);
    let r2 = runner2.run_check(&check_by_id("tests_pass"));
    assert_eq!(r2.status, CheckStatus::Failed);

    let mut red = with_workflow_text("run: cargo test\n");
    red.workflow_runs = Ok(WorkflowRunsResponse {
        total_count: 1,
        workflow_runs: vec![run(Some("failure"), Some("CI"))],
    });
    let runner3 = CheckRunner::new(&red);
    let r3 = runner3.run_check(&check_by_id("tests_pass"));
    assert_eq!(r3.status, CheckStatus::Failed);

    let mut pending = with_workflow_text("run: cargo test\n");
    pending.workflow_runs = Ok(WorkflowRunsResponse {
        total_count: 1,
        workflow_runs: vec![run(None, Some("CI"))],
    });
    let runner4 = CheckRunner::new(&pending);
    let r4 = runner4.run_check(&check_by_id("tests_pass"));
    assert_eq!(r4.status, CheckStatus::Skipped);
}

#[test]
fn lint_and_docker_and_coverage_keywords() {
    let snap = with_workflow_text(
        "steps:\n  - run: cargo clippy\n  - run: docker build -t app .\n  - uses: codecov/codecov-action@v4\n",
    );
    let runner = CheckRunner::new(&snap);
    let lint = runner.run_check(&check_by_id("lint_in_ci"));
    assert_eq!(lint.status, CheckStatus::Passed);
    assert_eq!(lint.detail, "Lint or format tooling detected: clippy");
    let docker = runner.run_check(&check_by_id("docker_build_ci"));
    assert_eq!(docker.status, CheckStatus::Passed);
    assert_eq!(docker.detail, "Docker build detected: docker build");
    let cov = runner.run_check(&check_by_id("coverage_configured"));
    assert_eq!(cov.status, CheckStatus::Passed);
    assert_eq!(cov.detail, "Coverage tooling detected: codecov");
    let quality = runner.run_check(&check_by_id("quality_gate"));
    assert_eq!(quality.status, CheckStatus::Passed);
    assert_eq!(quality.detail, "Quality gate detected: codecov");
}

#[test]
fn notifications_and_smoke_keywords() {
    let snap = with_workflow_text(
        "steps:\n  - uses: 8398a7/action-slack@v3\n  - run: npx playwright test e2e\n",
    );
    let runner = CheckRunner::new(&snap);
    let notif = runner.run_check(&check_by_id("ci_notifications"));
    assert_eq!(notif.status, CheckStatus::Passed);
    assert_eq!(notif.detail, "CI notifications configured: 8398a7/action-slack");
    let smoke = runner.run_check(&check_by_id("smoke_tests"));
    assert_eq!(smoke.status, CheckStatus::Passed);
    assert_eq!(smoke.detail, "Smoke or e2e tests detected: e2e, playwright");
}

#[test]
fn codeowners_and_gitignore_probes() {
    let mut snap = base_snapshot();
    snap.probes.codeowners_docs = true;
    snap.probes.gitignore = true;
    let runner = CheckRunner::new(&snap);
    let owners = runner.run_check(&check_by_id("codeowners_exists"));
    assert_eq!(owners.status, CheckStatus::Passed);
    assert_eq!(owners.detail, "CODEOWNERS file found");
    let ignore = runner.run_check(&check_by_id("gitignore_exists"));
    assert_eq!(ignore.status, CheckStatus::Passed);
    assert_eq!(ignore.detail, "File .gitignore found");
}

#[test]
fn workflow_texts_aggregate_across_yaml_files_only() {
    let mut snap = base_snapshot();
    snap.workflow_files = Ok(vec![
        GithubContent {
            name: "ci.yml".to_string(),
            path: "p1".to_string(),
            content: Some("run: cargo clippy".to_string()),
            encoding: None,
            content_type: None,
        },
        GithubContent {
            name: "notes.txt".to_string(),
            path: "p2".to_string(),
            content: Some("trivy".to_string()),
            encoding: None,
            content_type: None,
        },
        GithubContent {
            name: "deploy.yaml".to_string(),
            path: "p3".to_string(),
            content: Some("uses: codecov/codecov-action@v4".to_string()),
            encoding: None,
            content_type: None,
        },
    ]);
    let runner = CheckRunner::new(&snap);
    // Keywords are found across both YAML files.
    let lint = runner.run_check(&check_by_id("lint_in_ci"));
    assert_eq!(lint.status, CheckStatus::Passed);
    let cov = runner.run_check(&check_by_id("coverage_configured"));
    assert_eq!(cov.status, CheckStatus::Passed);
    // Text of a non-YAML file is not scanned.
    let sec = runner.run_check(&check_by_id("security_scan"));
    assert_eq!(sec.status, CheckStatus::Failed);
}

#[test]
fn every_catalog_entry_has_a_verdict() {
    let snap = base_snapshot();
    let runner = CheckRunner::new(&snap);
    for check in all_checks() {
        let id = check.id.clone();
        let weight = check.max_points;
        let r = runner.run_check(&check);
        assert_eq!(r.check.id, id);
        assert_ne!(r.detail, "not implemented");
        match r.status {
            CheckStatus::Passed => assert_eq!(r.points_earned, weight),
            CheckStatus::Warning => assert!(r.points_earned < weight),
            CheckStatus::Failed | CheckStatus::Skipped => assert_eq!(r.points_earned, 0),
        }
        match r.status {
            CheckStatus::Failed | CheckStatus::Warning => assert!(r.suggestion.is_some()),
            CheckStatus::Passed | CheckStatus::Skipped => assert!(r.suggestion.is_none()),
        }
    }
}

#[test]
fn unknown_check_id_is_skipped_not_implemented() {
    let snap = base_snapshot();
    let runner = CheckRunner::new(&snap);
    let bogus = Check {
        id: "quantum_lint".to_string(),
        name: "Quantum lint".to_string(),
        description: "Not a real check".to_string(),
        category: cicd_audit::models::CheckCategory::Bonus,
        max_points: 3,
    };
    let r = runner.run_check(&bogus);
    assert_eq!(r.status, CheckStatus::Skipped);
    assert_eq!(r.detail, "not implemented");
    assert_eq!(r.points_earned, 0);
}
