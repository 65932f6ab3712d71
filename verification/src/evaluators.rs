//! One evaluation function per catalog check: each consumes the repository
//! snapshot and classifies what it finds into a verdict. Every evaluator is a
//! pure function of the snapshot; a gateway failure that is not itself the
//! audited signal demotes the check to `Skipped`, never to `Failed`.

use vstd::prelude::*;

use crate::gateway::CommitItem;
use crate::gateway::CommitItemView;
use crate::gateway::GithubContent;
use crate::gateway::GithubContentView;
use crate::gateway::RepoSnapshot;
use crate::gateway::SnapshotView;
use crate::gateway::WorkflowRunView;
use crate::models::Check;
use crate::models::CheckResult;
use crate::models::CheckStatus;
use crate::models::CheckView;
use crate::models::ResultView;
use crate::models::failed_view;
use crate::models::passed_view;
use crate::models::skipped_view;
use crate::models::warning_view;
use crate::scan::agg_text;
use crate::scan::aggregate_workflow_chars;
use crate::scan::is_yaml_name;
use crate::scan::join_comma;
use crate::scan::join_comma_strings;
use crate::scan::join_comma_strs;
use crate::scan::keyword_check;
use crate::scan::keyword_check_spec;
use crate::scan::kw_views;
use crate::scan::matched;
use crate::scan::matched_keywords;
use crate::text::chars_of;
use crate::text::contains_lit;
use crate::text::contains_seq;
use crate::text::dec_str;
use crate::text::dec_string;
use crate::text::ends_with_lit;
use crate::text::find_char_from;
use crate::text::first_line;
use crate::text::index_of_char;
use crate::text::lemma_index_of_char;
use crate::text::lower_chars;
use crate::text::lower_seq;
use crate::text::match_at;
use crate::text::starts_with;
use crate::text::starts_with_lit_at;
use crate::text::str_eq;
use crate::text::sub_vec;

verus! {

/// Runs individual checks against one snapshot of repository data.
pub struct CheckRunner<'a> {
    pub snapshot: &'a RepoSnapshot,
}

/// The lower-cased aggregated workflow text of a snapshot: what the keyword
/// detections scan.
pub open spec fn scan_text(s: SnapshotView) -> Seq<char> {
    lower_seq(agg_text(s.workflow_files))
}

/// Keywords whose presence in CI indicates that tests are executed.
pub open spec fn tests_exist_kws() -> Seq<Seq<char>> {
    seq![
        "test"@,
        "pytest"@,
        "jest"@,
        "cargo test"@,
        "go test"@,
        "npm test"@,
        "yarn test"@,
        "phpunit"@,
        "rspec"@,
        "unittest"@,
    ]
}

/// What the tests-present check returns.
pub open spec fn tests_exist_spec(c: CheckView, s: SnapshotView) -> ResultView {
    keyword_check_spec(
        c,
        scan_text(s),
        tests_exist_kws(),
        1,
        "Test steps detected in CI: "@,
        "No test step detected in the workflows"@,
        "Add a test step such as 'run: cargo test' to your pipeline"@,
    )
}

/// Keywords indicating a lint or format step.
pub open spec fn lint_kws() -> Seq<Seq<char>> {
    seq![
        "lint"@,
        "eslint"@,
        "clippy"@,
        "flake8"@,
        "pylint"@,
        "rubocop"@,
        "prettier"@,
        "rustfmt"@,
        "black"@,
        "golangci-lint"@,
        "fmt --check"@,
    ]
}

/// What the lint-in-CI check returns.
pub open spec fn lint_in_ci_spec(c: CheckView, s: SnapshotView) -> ResultView {
    keyword_check_spec(
        c,
        scan_text(s),
        lint_kws(),
        1,
        "Lint or format tooling detected: "@,
        "No linter or formatter detected in the workflows"@,
        "Add a lint step such as clippy, eslint or flake8 to your pipeline"@,
    )
}

/// Keywords indicating a Docker build step.
pub open spec fn docker_build_kws() -> Seq<Seq<char>> {
    seq![
        "docker build"@,
        "docker/build-push-action"@,
        "docker-build"@,
        "docker compose"@,
        "docker/setup-buildx"@,
    ]
}

/// What the Docker-build check returns.
pub open spec fn docker_build_spec(c: CheckView, s: SnapshotView) -> ResultView {
    keyword_check_spec(
        c,
        scan_text(s),
        docker_build_kws(),
        1,
        "Docker build detected: "@,
        "No Docker build step in the workflows"@,
        "Add 'docker build' or the build-push action to your pipeline"@,
    )
}

/// Names of security scanning tools.
pub open spec fn security_kws() -> Seq<Seq<char>> {
    seq![
        "trivy"@,
        "snyk"@,
        "bandit"@,
        "safety"@,
        "codeql"@,
        "semgrep"@,
        "sonarcloud"@,
        "sonarqube"@,
        "dependabot"@,
        "grype"@,
        "anchore"@,
        "checkov"@,
        "tfsec"@,
    ]
}

/// What the security-scan check returns.
pub open spec fn security_scan_spec(c: CheckView, s: SnapshotView) -> ResultView {
    keyword_check_spec(
        c,
        scan_text(s),
        security_kws(),
        1,
        "Security tooling detected: "@,
        "No security scanning tool detected"@,
        "Add Trivy, Snyk, CodeQL or another security scanner to your pipeline"@,
    )
}

/// Names of coverage tools.
pub open spec fn coverage_kws() -> Seq<Seq<char>> {
    seq![
        "coverage"@,
        "codecov"@,
        "coveralls"@,
        "lcov"@,
        "tarpaulin"@,
        "jacoco"@,
        "istanbul"@,
        "nyc"@,
        "cobertura"@,
    ]
}

/// What the coverage check returns.
pub open spec fn coverage_spec(c: CheckView, s: SnapshotView) -> ResultView {
    keyword_check_spec(
        c,
        scan_text(s),
        coverage_kws(),
        1,
        "Coverage tooling detected: "@,
        "No coverage configuration detected"@,
        "Add a coverage tool such as codecov, tarpaulin or istanbul to your CI"@,
    )
}

/// Names of quality gate services.
pub open spec fn quality_kws() -> Seq<Seq<char>> {
    seq![
        "sonarcloud"@,
        "sonarqube"@,
        "sonar-scanner"@,
        "sonarqube-scan-action"@,
        "codeclimate"@,
        "codacy"@,
        "codecov"@,
        "deepsource"@,
    ]
}

/// What the quality-gate check returns.
pub open spec fn quality_gate_spec(c: CheckView, s: SnapshotView) -> ResultView {
    keyword_check_spec(
        c,
        scan_text(s),
        quality_kws(),
        1,
        "Quality gate detected: "@,
        "No quality gate tool detected"@,
        "Integrate SonarCloud, CodeClimate or Codacy into your pipeline"@,
    )
}

/// Indicators of a CI notification step.
pub open spec fn notification_kws() -> Seq<Seq<char>> {
    seq![
        "discord-webhook"@,
        "discord_webhook"@,
        "slack-webhook"@,
        "slack_webhook"@,
        "slackapi/"@,
        "8398a7/action-slack"@,
        "rtcamp/action-slack"@,
        "rjstone/discord-webhook"@,
        "appleboy/telegram-action"@,
        "act10ns/slack"@,
        "notify"@,
        "send-message"@,
    ]
}

/// What the CI-notifications check returns.
pub open spec fn ci_notifications_spec(c: CheckView, s: SnapshotView) -> ResultView {
    keyword_check_spec(
        c,
        scan_text(s),
        notification_kws(),
        1,
        "CI notifications configured: "@,
        "No CI notification detected"@,
        "Add a notification step to your pipeline"@,
    )
}

/// Indicators of smoke or end-to-end tests.
pub open spec fn smoke_kws() -> Seq<Seq<char>> {
    seq![
        "smoke"@,
        "e2e"@,
        "end-to-end"@,
        "end_to_end"@,
        "integration-test"@,
        "post-deploy"@,
        "post_deploy"@,
        "acceptance"@,
        "health-check"@,
        "healthcheck"@,
        "playwright"@,
        "cypress"@,
        "puppeteer"@,
    ]
}

/// What the smoke-tests check returns.
pub open spec fn smoke_tests_spec(c: CheckView, s: SnapshotView) -> ResultView {
    keyword_check_spec(
        c,
        scan_text(s),
        smoke_kws(),
        1,
        "Smoke or e2e tests detected: "@,
        "No smoke or e2e test detected in the pipeline"@,
        "Add smoke tests after deployment, for example a health check or a browser test"@,
    )
}

/// Indicators of distinct deployment environments; at least two must occur.
pub open spec fn env_kws() -> Seq<Seq<char>> {
    seq![
        "environment:"@,
        "staging"@,
        "production"@,
        "prod"@,
        "dev"@,
        "deploy-staging"@,
        "deploy-prod"@,
    ]
}

/// What the multi-environment check returns: stricter than the other keyword
/// checks, it wants at least two distinct indicators.
pub open spec fn multi_environment_spec(c: CheckView, s: SnapshotView) -> ResultView {
    keyword_check_spec(
        c,
        scan_text(s),
        env_kws(),
        2,
        "Environment indicators detected: "@,
        "No multi-environment management detected"@,
        "Configure several deployment environments such as staging and production in your pipeline"@,
    )
}

/// Patterns that look like hardcoded credentials; matched case-sensitively
/// against the raw workflow text.
pub open spec fn secret_kws() -> Seq<Seq<char>> {
    seq!["AKIA"@, "sk-"@, "ghp_"@, "password: "@, "passwd"@, "secret_key"@]
}

/// What the no-secrets check returns: the one inverted detection, passing
/// when nothing suspicious occurs.
pub open spec fn no_secrets_spec(c: CheckView, s: SnapshotView) -> ResultView {
    let found = matched(agg_text(s.workflow_files), secret_kws());
    if found.len() == 0 {
        passed_view(c, "No hardcoded secret pattern detected in the workflows"@)
    } else {
        failed_view(
            c,
            "Suspicious patterns detected: "@ + join_comma(found),
            "Use repository secrets instead of hardcoded values"@,
        )
    }
}

/// What a file-existence check returns for a probe of `path`.
pub open spec fn probe_spec(c: CheckView, present: bool, path: Seq<char>) -> ResultView {
    if present {
        passed_view(c, "File "@ + path + " found"@)
    } else {
        failed_view(
            c,
            "File "@ + path + " not found"@,
            "Add a "@ + path + " file at the project root"@,
        )
    }
}

/// What the dependency-update check returns.
pub open spec fn dependabot_spec(c: CheckView, s: SnapshotView) -> ResultView {
    if s.probes.dependabot_yml || s.probes.dependabot_yaml {
        passed_view(c, "Dependabot is configured"@)
    } else if s.probes.renovate_json || s.probes.github_renovate_json {
        passed_view(c, "Renovate is configured"@)
    } else {
        failed_view(
            c,
            "Neither Dependabot nor Renovate is configured"@,
            "Add a dependabot configuration file to automate dependency updates"@,
        )
    }
}

/// What the CODEOWNERS check returns.
pub open spec fn codeowners_spec(c: CheckView, s: SnapshotView) -> ResultView {
    if s.probes.codeowners_root || s.probes.codeowners_github || s.probes.codeowners_docs {
        passed_view(c, "CODEOWNERS file found"@)
    } else {
        failed_view(
            c,
            "No CODEOWNERS file found"@,
            "Add a CODEOWNERS file to define code ownership"@,
        )
    }
}

/// The names of the workflow YAML files among the listed files, in order.
pub open spec fn yaml_names(files: Seq<GithubContentView>) -> Seq<Seq<char>>
    decreases files.len(),
{
    if files.len() == 0 {
        Seq::empty()
    } else {
        yaml_names(files.drop_last()) + if is_yaml_name(files.last().name) {
            seq![files.last().name]
        } else {
            Seq::<Seq<char>>::empty()
        }
    }
}

/// What the pipeline-exists check returns: the YAML files of the workflow
/// directory, or failure when there are none (a missing directory is the
/// audited absence itself).
pub open spec fn pipeline_exists_spec(c: CheckView, s: SnapshotView) -> ResultView {
    match s.workflow_files {
        Ok(files) => {
            let names = yaml_names(files);
            if names.len() == 0 {
                failed_view(
                    c,
                    "No workflow YAML file found"@,
                    "Create a ci.yml file under the workflow directory"@,
                )
            } else {
                passed_view(
                    c,
                    dec_str(names.len() as int) + " workflow file(s) found: "@ + join_comma(names),
                )
            }
        },
        Err(_) => failed_view(
            c,
            "Workflow directory not found"@,
            "Create the workflow directory and add a pipeline YAML file"@,
        ),
    }
}

/// A run's display name, or the fallback.
pub open spec fn run_name_or(r: WorkflowRunView, alt: Seq<char>) -> Seq<char> {
    match r.name {
        Some(n) => n,
        None => alt,
    }
}

/// What the pipeline-green check returns, from the latest run's conclusion:
/// success passes, any other terminal conclusion fails, a still-running run
/// is partial, no runs at all fails, and a fetch failure skips.
pub open spec fn pipeline_green_spec(c: CheckView, s: SnapshotView) -> ResultView {
    match s.workflow_runs {
        Err(_) => skipped_view(
            c,
            "Could not fetch workflow runs (private repository or no workflows)"@,
        ),
        Ok(w) => {
            if w.workflow_runs.len() == 0 {
                failed_view(
                    c,
                    "No runs found on the main branch"@,
                    "Run your pipeline at least once on main"@,
                )
            } else {
                let latest = w.workflow_runs[0];
                match latest.conclusion {
                    Some(conc) => {
                        if conc == "success"@ {
                            passed_view(
                                c,
                                "Latest run '"@ + run_name_or(latest, "unknown"@) + "' succeeded"@,
                            )
                        } else {
                            failed_view(
                                c,
                                "Latest run finished with conclusion: "@ + conc,
                                "Fix the pipeline errors so it turns green"@,
                            )
                        }
                    },
                    None => warning_view(
                        c,
                        (c.max_points / 2) as u32,
                        "Latest run is still in progress"@,
                        "Wait for the run to finish and analyze again"@,
                    ),
                }
            }
        },
    }
}

/// The test keywords consulted before confirming that tests pass.
pub open spec fn tests_pass_kws() -> Seq<Seq<char>> {
    seq![
        "test"@,
        "pytest"@,
        "jest"@,
        "cargo test"@,
        "go test"@,
        "npm test"@,
        "yarn test"@,
        "phpunit"@,
        "rspec"@,
    ]
}

/// What the tests-pass check returns: a test step must be detected and the
/// latest run must be green; an unfinished run or a fetch failure skips.
pub open spec fn tests_pass_spec(c: CheckView, s: SnapshotView) -> ResultView {
    if matched(scan_text(s), tests_pass_kws()).len() == 0 {
        failed_view(
            c,
            "No test step detected in the workflows"@,
            "Add a test step to your pipeline before checking that tests pass"@,
        )
    } else {
        match s.workflow_runs {
            Err(_) => skipped_view(c, "Could not fetch workflow runs"@),
            Ok(w) => {
                if w.workflow_runs.len() == 0 {
                    skipped_view(c, "No runs found on main"@)
                } else {
                    let latest = w.workflow_runs[0];
                    match latest.conclusion {
                        Some(conc) => {
                            if conc == "success"@ {
                                passed_view(
                                    c,
                                    "Pipeline '"@ + run_name_or(latest, "CI"@)
                                        + "' is green with test steps detected and executed"@,
                                )
                            } else {
                                failed_view(
                                    c,
                                    "Pipeline concluded '"@ + conc + "' so the tests may have failed"@,
                                    "Fix the failing tests to pass this check"@,
                                )
                            }
                        },
                        None => skipped_view(c, "Run still in progress"@),
                    }
                }
            },
        }
    }
}

/// A run that finished and carries both of its timestamps.
pub open spec fn is_completed(r: WorkflowRunView) -> bool {
    r.conclusion is Some && r.run_started_at is Some && r.updated_at is Some
}

/// How many of the listed runs are completed.
pub open spec fn completed_count(rs: Seq<WorkflowRunView>) -> int
    decreases rs.len(),
{
    if rs.len() == 0 {
        0
    } else {
        completed_count(rs.drop_last()) + if is_completed(rs.last()) {
            1int
        } else {
            0int
        }
    }
}

/// What the pipeline-speed check returns: it passes whenever completed runs
/// exist and defers the actual duration reading to the run console.
pub open spec fn pipeline_speed_spec(c: CheckView, s: SnapshotView) -> ResultView {
    match s.workflow_runs {
        Err(_) => skipped_view(c, "Could not fetch workflow runs"@),
        Ok(w) => {
            let n = completed_count(w.workflow_runs);
            if n == 0 {
                skipped_view(c, "Not enough runs to assess pipeline speed"@)
            } else {
                passed_view(
                    c,
                    dec_str(n)
                        + " recent completed runs analyzed; check their durations in the actions console"@,
                )
            }
        },
    }
}

/// What the branch-protection check returns: required reviews pass, weaker
/// protection is partial, an absent rule set fails, and any other fetch
/// failure (for example a missing token scope) skips.
pub open spec fn branch_protection_spec(c: CheckView, s: SnapshotView) -> ResultView {
    match s.branch_protection {
        Ok(p) => {
            if p.requires_pull_request_reviews {
                passed_view(c, "Main branch protected with required pull request reviews"@)
            } else {
                warning_view(
                    c,
                    (c.max_points / 2) as u32,
                    "Branch protection enabled but reviews are not required"@,
                    "Enable required pull request reviews in the protection settings"@,
                )
            }
        },
        Err(e) => {
            if e.status == 404 {
                failed_view(
                    c,
                    "No protection configured on main"@,
                    "Enable branch protection in the repository settings"@,
                )
            } else {
                skipped_view(
                    c,
                    "A token with repository scope is required to read branch protection"@,
                )
            }
        },
    }
}

/// Release tooling whose presence softens a missing release to a warning.
pub open spec fn release_tool_kws() -> Seq<Seq<char>> {
    seq![
        "release-please"@,
        "semantic-release"@,
        "create-release"@,
        "actions/create-release"@,
        "gh release create"@,
    ]
}

/// What the release-tagging check returns: a published release passes; with
/// none, release tooling in CI is partial credit; a fetch failure skips.
pub open spec fn release_tagging_spec(c: CheckView, s: SnapshotView) -> ResultView {
    match s.releases {
        Err(_) => skipped_view(c, "Could not fetch releases"@),
        Ok(rels) => {
            if rels.len() > 0 {
                passed_view(
                    c,
                    dec_str(rels.len() as int) + " release(s) found; latest: "@ + rels[0].tag_name,
                )
            } else if matched(scan_text(s), release_tool_kws()).len() >= 1 {
                warning_view(
                    c,
                    (c.max_points / 2) as u32,
                    "Release tooling detected in CI but no release published yet"@,
                    "Merge to main once to trigger the first release"@,
                )
            } else {
                failed_view(
                    c,
                    "No release or tag found"@,
                    "Create releases to version your project, manually or with release tooling"@,
                )
            }
        },
    }
}

/// Indicators of a deployment step.
pub open spec fn deploy_kws() -> Seq<Seq<char>> {
    seq![
        "deploy"@,
        "publish"@,
        "release"@,
        "gh-pages"@,
        "pages"@,
        "aws"@,
        "azure"@,
        "gcloud"@,
        "heroku"@,
        "vercel"@,
        "netlify"@,
        "render"@,
        "fly.io"@,
    ]
}

/// Whether the workflow text declares a push trigger.
pub open spec fn has_push_trigger(text: Seq<char>) -> bool {
    contains_seq(text, "on:\n  push:"@) || contains_seq(text, "on: [push"@)
}

/// What the automatic-deployment check returns: a deploy indicator plus a
/// push trigger passes; a deploy indicator alone is only partial credit.
pub open spec fn auto_deploy_spec(c: CheckView, s: SnapshotView) -> ResultView {
    let text = scan_text(s);
    let found = matched(text, deploy_kws());
    if found.len() >= 1 && has_push_trigger(text) {
        passed_view(c, "Automatic deployment on push detected; indicators: "@ + join_comma(found))
    } else if found.len() >= 1 {
        warning_view(
            c,
            (c.max_points / 2) as u32,
            "Deployment step found but it is not triggered automatically; indicators: "@
                + join_comma(found),
            "Trigger the deployment from a push to the main branch"@,
        )
    } else {
        failed_view(
            c,
            "No deployment step detected"@,
            "Add an automatic deployment job to your pipeline"@,
        )
    }
}

/// Whether the workflow text references the GitHub Container Registry.
pub open spec fn mentions_ghcr(text: Seq<char>) -> bool {
    contains_seq(text, "ghcr.io"@) || contains_seq(text, "github container registry"@)
        || (contains_seq(text, "docker/build-push-action"@) && contains_seq(
        text,
        "registry: ghcr"@,
    ))
}

/// Whether the workflow text has an image push step.
pub open spec fn has_image_push(text: Seq<char>) -> bool {
    contains_seq(text, "push: true"@) || contains_seq(text, "docker push"@) || contains_seq(
        text,
        "build-push-action"@,
    )
}

/// What the registry-publication check returns.
pub open spec fn ghcr_spec(c: CheckView, s: SnapshotView) -> ResultView {
    let text = scan_text(s);
    if mentions_ghcr(text) && has_image_push(text) {
        passed_view(c, "Publication to the GitHub Container Registry detected in the pipeline"@)
    } else if mentions_ghcr(text) {
        warning_view(
            c,
            (c.max_points / 2) as u32,
            "Registry reference found but no explicit push step"@,
            "Use the build-push action with push enabled and the container registry configured"@,
        )
    } else {
        failed_view(
            c,
            "No publication to the GitHub Container Registry detected"@,
            "Add the build-push action with the container registry to publish your image"@,
        )
    }
}

/// What the CI-cache check returns, naming the strongest mechanism found.
pub open spec fn ci_cache_spec(c: CheckView, s: SnapshotView) -> ResultView {
    let text = scan_text(s);
    if contains_seq(text, "actions/cache"@) {
        passed_view(c, "CI cache detected: actions/cache"@)
    } else if contains_seq(text, "cache: npm"@) || contains_seq(text, "cache: yarn"@)
        || contains_seq(text, "cache: pnpm"@) || contains_seq(text, "cache: pip"@)
        || contains_seq(text, "cache: poetry"@) || contains_seq(text, "cache: 'npm'"@)
        || contains_seq(text, "cache: 'pip'"@) || contains_seq(text, "cache: gradle"@)
        || contains_seq(text, "cache: maven"@) {
        passed_view(c, "CI cache detected: cache integrated in the setup action"@)
    } else if contains_seq(text, "cache-from"@) || contains_seq(text, "cache-to"@)
        || contains_seq(text, "buildkit"@) {
        passed_view(c, "CI cache detected: Docker layer cache"@)
    } else {
        failed_view(
            c,
            "No cache mechanism in the pipeline"@,
            "Add a cache action or enable the setup action's cache to speed up builds"@,
        )
    }
}

/// The detail of a detected matrix strategy, naming what the matrix varies.
pub open spec fn matrix_detail(raw: Seq<char>) -> Seq<char> {
    if contains_seq(raw, "node-version"@) || contains_seq(raw, "node_version"@) {
        "Matrix detected across Node.js versions"@
    } else if contains_seq(raw, "python-version"@) || contains_seq(raw, "python_version"@) {
        "Matrix detected across Python versions"@
    } else if contains_seq(raw, "rust"@) || contains_seq(raw, "toolchain"@) {
        "Matrix detected across Rust toolchains"@
    } else if contains_seq(raw, "os:"@) || contains_seq(raw, "runs-on:"@) {
        "Matrix detected across operating systems"@
    } else {
        "Matrix strategy detected in the pipeline"@
    }
}

/// What the matrix-testing check returns; it scans the raw workflow text.
pub open spec fn matrix_testing_spec(c: CheckView, s: SnapshotView) -> ResultView {
    let raw = agg_text(s.workflow_files);
    if contains_seq(raw, "strategy:"@) && contains_seq(raw, "matrix:"@) {
        passed_view(c, matrix_detail(raw))
    } else {
        failed_view(
            c,
            "No matrix strategy detected"@,
            "Add a matrix strategy to your workflow to test across versions or systems"@,
        )
    }
}

/// What the reusable-workflows check returns; it scans the raw workflow text.
pub open spec fn reusable_workflows_spec(c: CheckView, s: SnapshotView) -> ResultView {
    let raw = agg_text(s.workflow_files);
    if contains_seq(raw, "workflow_call:"@) {
        passed_view(c, "Reusable workflow defined; other repositories can invoke it"@)
    } else if contains_seq(raw, "uses: ./.github/workflows/"@) || contains_seq(
        raw,
        "uses: './.github/workflows/"@,
    ) {
        passed_view(c, "Reusable workflow called from the workflow directory"@)
    } else {
        failed_view(
            c,
            "No reusable workflow found"@,
            "Define a workflow with a workflow_call trigger or call one from the workflow directory"@,
        )
    }
}

/// What the rollback-strategy check returns: a dedicated rollback workflow
/// file, a rollback keyword, a manual dispatch with a revert option, or, as
/// partial credit, a manual dispatch alone.
pub open spec fn rollback_spec(c: CheckView, s: SnapshotView) -> ResultView {
    let raw = agg_text(s.workflow_files);
    let text = lower_seq(raw);
    if s.probes.rollback_yml || s.probes.rollback_yaml || s.probes.revert_yml {
        passed_view(c, "Dedicated rollback workflow detected"@)
    } else if contains_seq(text, "rollback"@) || contains_seq(text, "undo-deploy"@)
        || contains_seq(text, "undo_deploy"@) {
        passed_view(c, "Rollback mechanism detected in the workflows"@)
    } else if contains_seq(raw, "workflow_dispatch:"@) && (contains_seq(text, "revert"@)
        || contains_seq(text, "rollback"@)) {
        passed_view(c, "Manual dispatch with a revert option detected"@)
    } else if contains_seq(raw, "workflow_dispatch:"@) {
        warning_view(
            c,
            (c.max_points / 2) as u32,
            "Manual dispatch detected, so manual redeployment is possible, but no explicit rollback"@,
            "Add a dedicated rollback workflow or a rollback input to the manual dispatch"@,
        )
    } else {
        failed_view(
            c,
            "No rollback strategy detected"@,
            "Create a rollback workflow or add a manual dispatch trigger with a rollback option"@,
        )
    }
}

/// The recognized Conventional Commits types.
pub open spec fn conv_types() -> Seq<Seq<char>> {
    seq![
        "feat"@,
        "fix"@,
        "docs"@,
        "style"@,
        "refactor"@,
        "test"@,
        "chore"@,
        "ci"@,
        "build"@,
        "perf"@,
        "revert"@,
    ]
}

/// Whether `rest` continues with the separator that ends a type or scope.
pub open spec fn marker_ok(rest: Seq<char>) -> bool {
    starts_with(rest, ": "@) || starts_with(rest, "!: "@)
}

/// Whether `subject` follows the Conventional Commits form for the type `t`:
/// the type, an optional parenthesized scope, an optional bang, then a colon
/// and a space.
pub open spec fn conv_with_type(subject: Seq<char>, t: Seq<char>) -> bool {
    starts_with(subject, t) && {
        let rest = subject.skip(t.len() as int);
        marker_ok(rest) || (starts_with(rest, "("@) && {
            let close = index_of_char(rest, ')');
            close < rest.len() && marker_ok(rest.skip(close + 1))
        })
    }
}

/// Whether a commit message's subject line follows the Conventional Commits
/// form for one of the recognized types.
pub open spec fn is_conventional(msg: Seq<char>) -> bool {
    exists|k: int|
        0 <= k < conv_types().len() && conv_with_type(first_line(msg), conv_types()[k])
}

/// Whether a commit message is a merge commit, by its leading words.
pub open spec fn is_merge_message(m: Seq<char>) -> bool {
    starts_with(m, "Merge pull request"@) || starts_with(m, "Merge branch"@) || starts_with(
        m,
        "Merge remote"@,
    )
}

/// How many of the commits are not merge commits.
pub open spec fn non_merge_count(cs: Seq<CommitItemView>) -> int
    decreases cs.len(),
{
    if cs.len() == 0 {
        0
    } else {
        non_merge_count(cs.drop_last()) + if is_merge_message(cs.last().message) {
            0int
        } else {
            1int
        }
    }
}

/// How many of the commits are non-merge commits in the conventional form.
pub open spec fn conventional_count(cs: Seq<CommitItemView>) -> int
    decreases cs.len(),
{
    if cs.len() == 0 {
        0
    } else {
        conventional_count(cs.drop_last()) + if !is_merge_message(cs.last().message)
            && is_conventional(cs.last().message) {
            1int
        } else {
            0int
        }
    }
}

/// The `matched/total (pct...)` rendering shared by both outcomes of the
/// conventional-commit check.
pub open spec fn ratio_prefix(conv: int, nm: int) -> Seq<char> {
    dec_str(conv) + "/"@ + dec_str(nm) + " conventional commits ("@ + dec_str(conv * 100 / nm)
}

/// What the conventional-commit check returns: merge commits are excluded,
/// the remaining subjects are classified, and at least 80 percent must
/// match; no data or only merge commits skips.
pub open spec fn conventional_commits_spec(c: CheckView, s: SnapshotView) -> ResultView {
    match s.commits {
        Err(_) => skipped_view(c, "Could not fetch commits"@),
        Ok(cs) => {
            if cs.len() == 0 {
                skipped_view(c, "No commits available"@)
            } else {
                let nm = non_merge_count(cs);
                if nm == 0 {
                    skipped_view(c, "Only merge commits found"@)
                } else {
                    let conv = conventional_count(cs);
                    if conv * 100 / nm >= 80 {
                        passed_view(c, ratio_prefix(conv, nm) + "%)"@)
                    } else {
                        failed_view(
                            c,
                            ratio_prefix(conv, nm) + "% < 80%)"@,
                            "Follow the Conventional Commits form: feat:, fix:, chore:, ci:, docs:"@,
                        )
                    }
                }
            }
        },
    }
}

/// Names of changelog generation tools.
pub open spec fn changelog_kws() -> Seq<Seq<char>> {
    seq![
        "release-please"@,
        "semantic-release"@,
        "conventional-changelog"@,
        "auto-changelog"@,
        "standard-version"@,
        "changesets"@,
    ]
}

/// How many lines of `s` open a changelog version entry.
pub open spec fn version_header_count(s: Seq<char>) -> int
    decreases s.len(),
{
    if s.len() == 0 {
        0
    } else {
        let h: int = if starts_with(s, "## ["@) || starts_with(s, "## v"@) {
            1
        } else {
            0
        };
        let i = index_of_char(s, '\n');
        if 0 <= i < s.len() {
            h + version_header_count(s.skip(i + 1))
        } else {
            h
        }
    }
}

/// What the failed automated-changelog verdict looks like.
pub open spec fn changelog_failed(c: CheckView) -> ResultView {
    failed_view(
        c,
        "No automated changelog tooling found"@,
        "Configure a changelog generation tool in your pipeline"@,
    )
}

/// What the automated-changelog check returns: changelog tooling in CI, or,
/// failing that, a changelog file with at least two version entries.
pub open spec fn auto_changelog_spec(c: CheckView, s: SnapshotView) -> ResultView {
    let found = matched(scan_text(s), changelog_kws());
    if found.len() >= 1 {
        passed_view(c, "Automated changelog tooling detected: "@ + join_comma(found))
    } else {
        match s.changelog {
            Ok(text) => {
                let n = version_header_count(text);
                if n >= 2 {
                    passed_view(
                        c,
                        "Changelog file found with "@ + dec_str(n) + " version entries"@,
                    )
                } else {
                    changelog_failed(c)
                }
            },
            Err(_) => changelog_failed(c),
        }
    }
}

/// What `CheckRunner::run_check` returns for any check: the matching
/// evaluator's verdict, or `Skipped` with the reason `not implemented` for a
/// check id no evaluator handles — an unknown id never aborts a run.
#[verifier::opaque]
pub open spec fn eval_spec(c: CheckView, s: SnapshotView) -> ResultView {
    if c.id == "pipeline_exists"@ {
        pipeline_exists_spec(c, s)
    } else if c.id == "pipeline_green"@ {
        pipeline_green_spec(c, s)
    } else if c.id == "tests_exist"@ {
        tests_exist_spec(c, s)
    } else if c.id == "lint_in_ci"@ {
        lint_in_ci_spec(c, s)
    } else if c.id == "dockerfile_exists"@ {
        probe_spec(c, s.probes.dockerfile, "Dockerfile"@)
    } else if c.id == "docker_build_ci"@ {
        docker_build_spec(c, s)
    } else if c.id == "no_secrets_in_code"@ {
        no_secrets_spec(c, s)
    } else if c.id == "readme_exists"@ {
        probe_spec(c, s.probes.readme, "README.md"@)
    } else if c.id == "security_scan"@ {
        security_scan_spec(c, s)
    } else if c.id == "coverage_configured"@ {
        coverage_spec(c, s)
    } else if c.id == "dependabot_configured"@ {
        dependabot_spec(c, s)
    } else if c.id == "branch_protection"@ {
        branch_protection_spec(c, s)
    } else if c.id == "pipeline_fast"@ {
        pipeline_speed_spec(c, s)
    } else if c.id == "multi_environment"@ {
        multi_environment_spec(c, s)
    } else if c.id == "auto_deploy"@ {
        auto_deploy_spec(c, s)
    } else if c.id == "codeowners_exists"@ {
        codeowners_spec(c, s)
    } else if c.id == "gitignore_exists"@ {
        probe_spec(c, s.probes.gitignore, ".gitignore"@)
    } else if c.id == "tests_pass"@ {
        tests_pass_spec(c, s)
    } else if c.id == "ghcr_published"@ {
        ghcr_spec(c, s)
    } else if c.id == "quality_gate"@ {
        quality_gate_spec(c, s)
    } else if c.id == "ci_cache"@ {
        ci_cache_spec(c, s)
    } else if c.id == "ci_notifications"@ {
        ci_notifications_spec(c, s)
    } else if c.id == "matrix_testing"@ {
        matrix_testing_spec(c, s)
    } else if c.id == "reusable_workflows"@ {
        reusable_workflows_spec(c, s)
    } else if c.id == "release_tagging"@ {
        release_tagging_spec(c, s)
    } else if c.id == "smoke_tests"@ {
        smoke_tests_spec(c, s)
    } else if c.id == "conventional_commits"@ {
        conventional_commits_spec(c, s)
    } else if c.id == "auto_changelog"@ {
        auto_changelog_spec(c, s)
    } else if c.id == "rollback_strategy"@ {
        rollback_spec(c, s)
    } else {
        skipped_view(c, "not implemented"@)
    }
}

/// The check ids that have an evaluator.
pub open spec fn is_known_id(id: Seq<char>) -> bool {
    ||| id == "pipeline_exists"@
    ||| id == "pipeline_green"@
    ||| id == "tests_exist"@
    ||| id == "lint_in_ci"@
    ||| id == "dockerfile_exists"@
    ||| id == "docker_build_ci"@
    ||| id == "no_secrets_in_code"@
    ||| id == "readme_exists"@
    ||| id == "security_scan"@
    ||| id == "coverage_configured"@
    ||| id == "dependabot_configured"@
    ||| id == "branch_protection"@
    ||| id == "pipeline_fast"@
    ||| id == "multi_environment"@
    ||| id == "auto_deploy"@
    ||| id == "codeowners_exists"@
    ||| id == "gitignore_exists"@
    ||| id == "tests_pass"@
    ||| id == "ghcr_published"@
    ||| id == "quality_gate"@
    ||| id == "ci_cache"@
    ||| id == "ci_notifications"@
    ||| id == "matrix_testing"@
    ||| id == "reusable_workflows"@
    ||| id == "release_tagging"@
    ||| id == "smoke_tests"@
    ||| id == "conventional_commits"@
    ||| id == "auto_changelog"@
    ||| id == "rollback_strategy"@
}

/// Law: a check id with no evaluator resolves to `Skipped` with the reason
/// `not implemented`, whatever the snapshot holds — it never aborts the run.
pub proof fn lemma_unknown_id_skipped(c: CheckView, s: SnapshotView)
    requires
        !is_known_id(c.id),
    ensures
        eval_spec(c, s) == crate::models::skipped_view(c, "not implemented"@),
{
    reveal(eval_spec);
}

/// Law: the branch-protection verdict classifies the gateway's answer — a
/// missing rule set (status 404) is a genuine failure, required reviews
/// pass, weaker protection is partial, and any other fetch failure is
/// skipped, never failed.
pub proof fn lemma_branch_protection_classification(c: CheckView, s: SnapshotView)
    ensures
        (s.branch_protection matches Err(e) && e.status == 404) ==> branch_protection_spec(
            c,
            s,
        ).status == CheckStatus::Failed,
        (s.branch_protection matches Err(e) && e.status != 404) ==> branch_protection_spec(
            c,
            s,
        ).status == CheckStatus::Skipped,
        (s.branch_protection matches Ok(p) && p.requires_pull_request_reviews)
            ==> branch_protection_spec(c, s).status == CheckStatus::Passed,
        (s.branch_protection matches Ok(p) && !p.requires_pull_request_reviews)
            ==> branch_protection_spec(c, s).status == CheckStatus::Warning,
{
}

/// Law: the multi-environment check passes exactly when at least two of the
/// environment indicators occur in the workflow text, and fails otherwise.
pub proof fn lemma_multi_environment_threshold(c: CheckView, s: SnapshotView)
    ensures
        matched(scan_text(s), env_kws()).len() >= 2 ==> multi_environment_spec(c, s).status
            == CheckStatus::Passed,
        matched(scan_text(s), env_kws()).len() < 2 ==> multi_environment_spec(c, s).status
            == CheckStatus::Failed,
{
}

/// Whether `subject` matches the conventional form for the single type `t`.
fn conv_type_at(subject: &Vec<char>, t: &str) -> (b: bool)
    ensures
        b == conv_with_type(subject@, t@),
{
    let tc = chars_of(t);
    if tc.len() > subject.len() {
        return false;
    }
    if !match_at(subject, &tc, 0) {
        return false;
    }
    let rest = sub_vec(subject, tc.len(), subject.len());
    proof {
        assert(rest@ =~= subject@.skip(t@.len() as int));
        assert(rest@.skip(0) =~= rest@);
    }
    if starts_with_lit_at(&rest, 0, ": ") {
        return true;
    }
    if starts_with_lit_at(&rest, 0, "!: ") {
        return true;
    }
    if starts_with_lit_at(&rest, 0, "(") {
        let close = find_char_from(&rest, 0, ')');
        proof {
            lemma_index_of_char(rest@, ')');
        }
        if close < rest.len() {
            if starts_with_lit_at(&rest, close + 1, ": ") {
                return true;
            }
            if starts_with_lit_at(&rest, close + 1, "!: ") {
                return true;
            }
        }
        return false;
    }
    false
}

/// Whether a commit message's subject line follows the Conventional Commits
/// form (`type: `, `type!: `, `type(scope): ` or `type(scope)!: `).
pub fn is_conventional_commit(message: &str) -> (b: bool)
    ensures
        b == is_conventional(message@),
{
    let v = chars_of(message);
    proof {
        assert(v@.skip(0) =~= v@);
    }
    let nl = find_char_from(&v, 0, '\n');
    proof {
        lemma_index_of_char(v@, '\n');
    }
    let subject = sub_vec(&v, 0, nl);
    proof {
        assert(subject@ =~= first_line(message@));
    }
    let mut types: Vec<&str> = Vec::new();
    types.push("feat");
    types.push("fix");
    types.push("docs");
    types.push("style");
    types.push("refactor");
    types.push("test");
    types.push("chore");
    types.push("ci");
    types.push("build");
    types.push("perf");
    types.push("revert");
    proof {
        assert(kw_views(types@) =~= conv_types());
    }
    let mut k: usize = 0;
    while k < types.len()
        invariant
            k <= types@.len(),
            kw_views(types@) == conv_types(),
            subject@ == first_line(message@),
            forall|j: int| 0 <= j < k ==> !conv_with_type(first_line(message@), conv_types()[j]),
        decreases types@.len() - k,
    {
        if conv_type_at(&subject, types[k]) {
            proof {
                assert(conv_with_type(first_line(message@), conv_types()[k as int]));
                assert(is_conventional(message@));
            }
            return true;
        }
        k = k + 1;
    }
    proof {
        if is_conventional(message@) {
            let j = choose|j: int|
                0 <= j < conv_types().len() && conv_with_type(
                    first_line(message@),
                    conv_types()[j],
                );
            assert(!conv_with_type(first_line(message@), conv_types()[j]));
        }
    }
    false
}

/// Whether a commit message is a merge commit.
fn is_merge_exec(message: &str) -> (b: bool)
    ensures
        b == is_merge_message(message@),
{
    let v = chars_of(message);
    proof {
        assert(v@.skip(0) =~= v@);
    }
    starts_with_lit_at(&v, 0, "Merge pull request") || starts_with_lit_at(&v, 0, "Merge branch")
        || starts_with_lit_at(&v, 0, "Merge remote")
}

/// Counts the changelog version headers of `s`.
fn count_version_headers(s: &str) -> (n: u64)
    ensures
        n == version_header_count(s@),
{
    let v = chars_of(s);
    let mut pos: usize = 0;
    let mut count: u64 = 0;
    proof {
        assert(v@.skip(0) =~= v@);
    }
    while pos < v.len()
        invariant
            pos <= v@.len(),
            v@ == s@,
            count <= pos,
            version_header_count(s@) == count + version_header_count(v@.skip(pos as int)),
        decreases v@.len() - pos,
    {
        let h1 = starts_with_lit_at(&v, pos, "## [");
        let h2 = starts_with_lit_at(&v, pos, "## v");
        let add: u64 = if h1 || h2 {
            1
        } else {
            0
        };
        let i = find_char_from(&v, pos, '\n');
        proof {
            lemma_index_of_char(v@.skip(pos as int), '\n');
        }
        count = count + add;
        if i == v.len() - pos {
            pos = v.len();
            proof {
                assert(v@.skip(v@.len() as int) =~= Seq::<char>::empty());
            }
        } else {
            proof {
                assert(v@.skip(pos as int).skip(i + 1) =~= v@.skip(pos + i + 1));
            }
            pos = pos + i + 1;
        }
    }
    proof {
        assert(v@.skip(v@.len() as int) =~= Seq::<char>::empty());
    }
    count
}

impl<'a> CheckRunner<'a> {
    /// A runner over one snapshot of repository data.
    pub fn new(snapshot: &'a RepoSnapshot) -> (r: Self)
        ensures
            r.snapshot == snapshot,
    {
        CheckRunner { snapshot }
    }

    /// Dispatches one catalog entry to its evaluator; a check id with no
    /// evaluator resolves to `Skipped` rather than erroring the run.
    pub fn run_check(&self, check: &Check) -> (r: CheckResult)
        ensures
            r@ == eval_spec(check@, self.snapshot@),
    {
        proof {
            reveal(eval_spec);
        }
        let c = check.clone();
        let id = check.id.as_str();
        if str_eq(id, "pipeline_exists") {
            self.check_pipeline_exists(c)
        } else if str_eq(id, "pipeline_green") {
            self.check_pipeline_green(c)
        } else if str_eq(id, "tests_exist") {
            self.check_tests_exist(c)
        } else if str_eq(id, "lint_in_ci") {
            self.check_lint_in_ci(c)
        } else if str_eq(id, "dockerfile_exists") {
            self.check_file_exists(c, self.snapshot.probes.dockerfile, "Dockerfile")
        } else if str_eq(id, "docker_build_ci") {
            self.check_docker_build_ci(c)
        } else if str_eq(id, "no_secrets_in_code") {
            self.check_no_secrets(c)
        } else if str_eq(id, "readme_exists") {
            self.check_file_exists(c, self.snapshot.probes.readme, "README.md")
        } else if str_eq(id, "security_scan") {
            self.check_security_scan(c)
        } else if str_eq(id, "coverage_configured") {
            self.check_coverage(c)
        } else if str_eq(id, "dependabot_configured") {
            self.check_dependabot(c)
        } else if str_eq(id, "branch_protection") {
            self.check_branch_protection(c)
        } else if str_eq(id, "pipeline_fast") {
            self.check_pipeline_speed(c)
        } else if str_eq(id, "multi_environment") {
            self.check_multi_environment(c)
        } else if str_eq(id, "auto_deploy") {
            self.check_auto_deploy(c)
        } else if str_eq(id, "codeowners_exists") {
            self.check_codeowners(c)
        } else if str_eq(id, "gitignore_exists") {
            self.check_file_exists(c, self.snapshot.probes.gitignore, ".gitignore")
        } else if str_eq(id, "tests_pass") {
            self.check_tests_pass(c)
        } else if str_eq(id, "ghcr_published") {
            self.check_ghcr_published(c)
        } else if str_eq(id, "quality_gate") {
            self.check_quality_gate(c)
        } else if str_eq(id, "ci_cache") {
            self.check_ci_cache(c)
        } else if str_eq(id, "ci_notifications") {
            self.check_ci_notifications(c)
        } else if str_eq(id, "matrix_testing") {
            self.check_matrix_testing(c)
        } else if str_eq(id, "reusable_workflows") {
            self.check_reusable_workflows(c)
        } else if str_eq(id, "release_tagging") {
            self.check_release_tagging(c)
        } else if str_eq(id, "smoke_tests") {
            self.check_smoke_tests(c)
        } else if str_eq(id, "conventional_commits") {
            self.check_conventional_commits(c)
        } else if str_eq(id, "auto_changelog") {
            self.check_auto_changelog(c)
        } else if str_eq(id, "rollback_strategy") {
            self.check_rollback_strategy(c)
        } else {
            CheckResult::skipped(c, "not implemented")
        }
    }

    /// The lower-cased aggregated workflow text.
    fn scan_chars(&self) -> (v: Vec<char>)
        ensures
            v@ == scan_text(self.snapshot@),
    {
        let raw = aggregate_workflow_chars(self.snapshot);
        lower_chars(&raw)
    }

    fn check_tests_exist(&self, check: Check) -> (r: CheckResult)
        ensures
            r@ == tests_exist_spec(check@, self.snapshot@),
    {
        let text = self.scan_chars();
        let mut kws: Vec<&str> = Vec::new();
        kws.push("test");
        kws.push("pytest");
        kws.push("jest");
        kws.push("cargo test");
        kws.push("go test");
        kws.push("npm test");
        kws.push("yarn test");
        kws.push("phpunit");
        kws.push("rspec");
        kws.push("unittest");
        proof {
            assert(kw_views(kws@) =~= tests_exist_kws());
        }
        keyword_check(
            check,
            &text,
            &kws,
            1,
            "Test steps detected in CI: ",
            "No test step detected in the workflows",
            "Add a test step such as 'run: cargo test' to your pipeline",
        )
    }

    fn check_lint_in_ci(&self, check: Check) -> (r: CheckResult)
        ensures
            r@ == lint_in_ci_spec(check@, self.snapshot@),
    {
        let text = self.scan_chars();
        let mut kws: Vec<&str> = Vec::new();
        kws.push("lint");
        kws.push("eslint");
        kws.push("clippy");
        kws.push("flake8");
        kws.push("pylint");
        kws.push("rubocop");
        kws.push("prettier");
        kws.push("rustfmt");
        kws.push("black");
        kws.push("golangci-lint");
        kws.push("fmt --check");
        proof {
            assert(kw_views(kws@) =~= lint_kws());
        }
        keyword_check(
            check,
            &text,
            &kws,
            1,
            "Lint or format tooling detected: ",
            "No linter or formatter detected in the workflows",
            "Add a lint step such as clippy, eslint or flake8 to your pipeline",
        )
    }

    fn check_docker_build_ci(&self, check: Check) -> (r: CheckResult)
        ensures
            r@ == docker_build_spec(check@, self.snapshot@),
    {
        let text = self.scan_chars();
        let mut kws: Vec<&str> = Vec::new();
        kws.push("docker build");
        kws.push("docker/build-push-action");
        kws.push("docker-build");
        kws.push("docker compose");
        kws.push("docker/setup-buildx");
        proof {
            assert(kw_views(kws@) =~= docker_build_kws());
        }
        keyword_check(
            check,
            &text,
            &kws,
            1,
            "Docker build detected: ",
            "No Docker build step in the workflows",
            "Add 'docker build' or the build-push action to your pipeline",
        )
    }

    fn check_security_scan(&self, check: Check) -> (r: CheckResult)
        ensures
            r@ == security_scan_spec(check@, self.snapshot@),
    {
        let text = self.scan_chars();
        let mut kws: Vec<&str> = Vec::new();
        kws.push("trivy");
        kws.push("snyk");
        kws.push("bandit");
        kws.push("safety");
        kws.push("codeql");
        kws.push("semgrep");
        kws.push("sonarcloud");
        kws.push("sonarqube");
        kws.push("dependabot");
        kws.push("grype");
        kws.push("anchore");
        kws.push("checkov");
        kws.push("tfsec");
        proof {
            assert(kw_views(kws@) =~= security_kws());
        }
        keyword_check(
            check,
            &text,
            &kws,
            1,
            "Security tooling detected: ",
            "No security scanning tool detected",
            "Add Trivy, Snyk, CodeQL or another security scanner to your pipeline",
        )
    }

    fn check_coverage(&self, check: Check) -> (r: CheckResult)
        ensures
            r@ == coverage_spec(check@, self.snapshot@),
    {
        let text = self.scan_chars();
        let mut kws: Vec<&str> = Vec::new();
        kws.push("coverage");
        kws.push("codecov");
        kws.push("coveralls");
        kws.push("lcov");
        kws.push("tarpaulin");
        kws.push("jacoco");
        kws.push("istanbul");
        kws.push("nyc");
        kws.push("cobertura");
        proof {
            assert(kw_views(kws@) =~= coverage_kws());
        }
        keyword_check(
            check,
            &text,
            &kws,
            1,
            "Coverage tooling detected: ",
            "No coverage configuration detected",
            "Add a coverage tool such as codecov, tarpaulin or istanbul to your CI",
        )
    }

    fn check_quality_gate(&self, check: Check) -> (r: CheckResult)
        ensures
            r@ == quality_gate_spec(check@, self.snapshot@),
    {
        let text = self.scan_chars();
        let mut kws: Vec<&str> = Vec::new();
        kws.push("sonarcloud");
        kws.push("sonarqube");
        kws.push("sonar-scanner");
        kws.push("sonarqube-scan-action");
        kws.push("codeclimate");
        kws.push("codacy");
        kws.push("codecov");
        kws.push("deepsource");
        proof {
            assert(kw_views(kws@) =~= quality_kws());
        }
        keyword_check(
            check,
            &text,
            &kws,
            1,
            "Quality gate detected: ",
            "No quality gate tool detected",
            "Integrate SonarCloud, CodeClimate or Codacy into your pipeline",
        )
    }

    fn check_ci_notifications(&self, check: Check) -> (r: CheckResult)
        ensures
            r@ == ci_notifications_spec(check@, self.snapshot@),
    {
        let text = self.scan_chars();
        let mut kws: Vec<&str> = Vec::new();
        kws.push("discord-webhook");
        kws.push("discord_webhook");
        kws.push("slack-webhook");
        kws.push("slack_webhook");
        kws.push("slackapi/");
        kws.push("8398a7/action-slack");
        kws.push("rtcamp/action-slack");
        kws.push("rjstone/discord-webhook");
        kws.push("appleboy/telegram-action");
        kws.push("act10ns/slack");
        kws.push("notify");
        kws.push("send-message");
        proof {
            assert(kw_views(kws@) =~= notification_kws());
        }
        keyword_check(
            check,
            &text,
            &kws,
            1,
            "CI notifications configured: ",
            "No CI notification detected",
            "Add a notification step to your pipeline",
        )
    }

    fn check_smoke_tests(&self, check: Check) -> (r: CheckResult)
        ensures
            r@ == smoke_tests_spec(check@, self.snapshot@),
    {
        let text = self.scan_chars();
        let mut kws: Vec<&str> = Vec::new();
        kws.push("smoke");
        kws.push("e2e");
        kws.push("end-to-end");
        kws.push("end_to_end");
        kws.push("integration-test");
        kws.push("post-deploy");
        kws.push("post_deploy");
        kws.push("acceptance");
        kws.push("health-check");
        kws.push("healthcheck");
        kws.push("playwright");
        kws.push("cypress");
        kws.push("puppeteer");
        proof {
            assert(kw_views(kws@) =~= smoke_kws());
        }
        keyword_check(
            check,
            &text,
            &kws,
            1,
            "Smoke or e2e tests detected: ",
            "No smoke or e2e test detected in the pipeline",
            "Add smoke tests after deployment, for example a health check or a browser test",
        )
    }

    fn check_multi_environment(&self, check: Check) -> (r: CheckResult)
        ensures
            r@ == multi_environment_spec(check@, self.snapshot@),
    {
        let text = self.scan_chars();
        let mut kws: Vec<&str> = Vec::new();
        kws.push("environment:");
        kws.push("staging");
        kws.push("production");
        kws.push("prod");
        kws.push("dev");
        kws.push("deploy-staging");
        kws.push("deploy-prod");
        proof {
            assert(kw_views(kws@) =~= env_kws());
        }
        keyword_check(
            check,
            &text,
            &kws,
            2,
            "Environment indicators detected: ",
            "No multi-environment management detected",
            "Configure several deployment environments such as staging and production in your pipeline",
        )
    }

    fn check_no_secrets(&self, check: Check) -> (r: CheckResult)
        ensures
            r@ == no_secrets_spec(check@, self.snapshot@),
    {
        let raw = aggregate_workflow_chars(self.snapshot);
        let mut kws: Vec<&str> = Vec::new();
        kws.push("AKIA");
        kws.push("sk-");
        kws.push("ghp_");
        kws.push("password: ");
        kws.push("passwd");
        kws.push("secret_key");
        proof {
            assert(kw_views(kws@) =~= secret_kws());
        }
        let found = matched_keywords(&raw, &kws);
        if found.len() == 0 {
            CheckResult::passed(check, "No hardcoded secret pattern detected in the workflows")
        } else {
            let mut detail = String::from_str("Suspicious patterns detected: ");
            let joined = join_comma_strs(&found);
            detail.append(joined.as_str());
            CheckResult::failed(
                check,
                detail.as_str(),
                "Use repository secrets instead of hardcoded values",
            )
        }
    }

    fn check_file_exists(&self, check: Check, present: bool, path: &str) -> (r: CheckResult)
        ensures
            r@ == probe_spec(check@, present, path@),
    {
        if present {
            let mut detail = String::from_str("File ");
            detail.append(path);
            detail.append(" found");
            CheckResult::passed(check, detail.as_str())
        } else {
            let mut detail = String::from_str("File ");
            detail.append(path);
            detail.append(" not found");
            let mut sugg = String::from_str("Add a ");
            sugg.append(path);
            sugg.append(" file at the project root");
            CheckResult::failed(check, detail.as_str(), sugg.as_str())
        }
    }

    fn check_pipeline_exists(&self, check: Check) -> (r: CheckResult)
        ensures
            r@ == pipeline_exists_spec(check@, self.snapshot@),
    {
        match &self.snapshot.workflow_files {
            Err(_) => CheckResult::failed(
                check,
                "Workflow directory not found",
                "Create the workflow directory and add a pipeline YAML file",
            ),
            Ok(files) => {
                let ghost fviews = files@.map_values(|g: GithubContent| g@);
                let mut names: Vec<String> = Vec::new();
                let mut i: usize = 0;
                proof {
                    assert(names@.map_values(|k: String| k@) =~= yaml_names(fviews.take(0)));
                }
                while i < files.len()
                    invariant
                        i <= files@.len(),
                        fviews == files@.map_values(|g: GithubContent| g@),
                        names@.map_values(|k: String| k@) == yaml_names(fviews.take(i as int)),
                    decreases files@.len() - i,
                {
                    let f = &files[i];
                    let nc = chars_of(f.name.as_str());
                    if ends_with_lit(&nc, ".yml") || ends_with_lit(&nc, ".yaml") {
                        names.push(f.name.clone());
                    }
                    proof {
                        assert(fviews.take(i + 1).drop_last() =~= fviews.take(i as int));
                        assert(fviews.take(i + 1).last() == fviews[i as int]);
                        assert(names@.map_values(|k: String| k@) =~= yaml_names(
                            fviews.take(i + 1),
                        ));
                    }
                    i = i + 1;
                }
                proof {
                    assert(fviews.take(files@.len() as int) =~= fviews);
                }
                if names.len() == 0 {
                    CheckResult::failed(
                        check,
                        "No workflow YAML file found",
                        "Create a ci.yml file under the workflow directory",
                    )
                } else {
                    let mut detail = dec_string(names.len() as u64);
                    detail.append(" workflow file(s) found: ");
                    let joined = join_comma_strings(&names);
                    detail.append(joined.as_str());
                    proof {
                        assert(detail@ =~= dec_str(names@.len() as int)
                            + " workflow file(s) found: "@ + join_comma(yaml_names(fviews)));
                    }
                    CheckResult::passed(check, detail.as_str())
                }
            },
        }
    }

    fn check_pipeline_green(&self, check: Check) -> (r: CheckResult)
        ensures
            r@ == pipeline_green_spec(check@, self.snapshot@),
    {
        match &self.snapshot.workflow_runs {
            Err(_) => CheckResult::skipped(
                check,
                "Could not fetch workflow runs (private repository or no workflows)",
            ),
            Ok(w) => {
                if w.workflow_runs.len() == 0 {
                    CheckResult::failed(
                        check,
                        "No runs found on the main branch",
                        "Run your pipeline at least once on main",
                    )
                } else {
                    let latest = &w.workflow_runs[0];
                    match &latest.conclusion {
                        Some(conc) => {
                            if str_eq(conc.as_str(), "success") {
                                let mut detail = String::from_str("Latest run '");
                                match &latest.name {
                                    Some(n) => detail.append(n.as_str()),
                                    None => detail.append("unknown"),
                                }
                                detail.append("' succeeded");
                                proof {
                                    assert(detail@ =~= "Latest run '"@ + run_name_or(
                                        w@.workflow_runs[0],
                                        "unknown"@,
                                    ) + "' succeeded"@);
                                }
                                CheckResult::passed(check, detail.as_str())
                            } else {
                                let mut detail = String::from_str(
                                    "Latest run finished with conclusion: ",
                                );
                                detail.append(conc.as_str());
                                CheckResult::failed(
                                    check,
                                    detail.as_str(),
                                    "Fix the pipeline errors so it turns green",
                                )
                            }
                        },
                        None => {
                            let points = check.max_points / 2;
                            CheckResult::warning(
                                check,
                                points,
                                "Latest run is still in progress",
                                "Wait for the run to finish and analyze again",
                            )
                        },
                    }
                }
            },
        }
    }

    fn check_tests_pass(&self, check: Check) -> (r: CheckResult)
        ensures
            r@ == tests_pass_spec(check@, self.snapshot@),
    {
        let text = self.scan_chars();
        let mut kws: Vec<&str> = Vec::new();
        kws.push("test");
        kws.push("pytest");
        kws.push("jest");
        kws.push("cargo test");
        kws.push("go test");
        kws.push("npm test");
        kws.push("yarn test");
        kws.push("phpunit");
        kws.push("rspec");
        proof {
            assert(kw_views(kws@) =~= tests_pass_kws());
        }
        let found = matched_keywords(&text, &kws);
        if found.len() == 0 {
            return CheckResult::failed(
                check,
                "No test step detected in the workflows",
                "Add a test step to your pipeline before checking that tests pass",
            );
        }
        match &self.snapshot.workflow_runs {
            Err(_) => CheckResult::skipped(check, "Could not fetch workflow runs"),
            Ok(w) => {
                if w.workflow_runs.len() == 0 {
                    CheckResult::skipped(check, "No runs found on main")
                } else {
                    let latest = &w.workflow_runs[0];
                    match &latest.conclusion {
                        Some(conc) => {
                            if str_eq(conc.as_str(), "success") {
                                let mut detail = String::from_str("Pipeline '");
                                match &latest.name {
                                    Some(n) => detail.append(n.as_str()),
                                    None => detail.append("CI"),
                                }
                                detail.append("' is green with test steps detected and executed");
                                proof {
                                    assert(detail@ =~= "Pipeline '"@ + run_name_or(
                                        w@.workflow_runs[0],
                                        "CI"@,
                                    ) + "' is green with test steps detected and executed"@);
                                }
                                CheckResult::passed(check, detail.as_str())
                            } else {
                                let mut detail = String::from_str("Pipeline concluded '");
                                detail.append(conc.as_str());
                                detail.append("' so the tests may have failed");
                                proof {
                                    assert(detail@ =~= "Pipeline concluded '"@ + conc@
                                        + "' so the tests may have failed"@);
                                }
                                CheckResult::failed(
                                    check,
                                    detail.as_str(),
                                    "Fix the failing tests to pass this check",
                                )
                            }
                        },
                        None => CheckResult::skipped(check, "Run still in progress"),
                    }
                }
            },
        }
    }

    fn check_pipeline_speed(&self, check: Check) -> (r: CheckResult)
        ensures
            r@ == pipeline_speed_spec(check@, self.snapshot@),
    {
        match &self.snapshot.workflow_runs {
            Err(_) => CheckResult::skipped(check, "Could not fetch workflow runs"),
            Ok(w) => {
                let ghost rviews = w.workflow_runs@.map_values(
                    |r: crate::gateway::WorkflowRun| r@,
                );
                let mut count: u64 = 0;
                let mut i: usize = 0;
                proof {
                    assert(rviews.take(0) =~= Seq::<WorkflowRunView>::empty());
                }
                while i < w.workflow_runs.len()
                    invariant
                        i <= w.workflow_runs@.len(),
                        rviews == w.workflow_runs@.map_values(|r: crate::gateway::WorkflowRun| r@),
                        count == completed_count(rviews.take(i as int)),
                        count <= i,
                    decreases w.workflow_runs@.len() - i,
                {
                    let run = &w.workflow_runs[i];
                    if run.conclusion.is_some() && run.run_started_at.is_some()
                        && run.updated_at.is_some() {
                        count = count + 1;
                    }
                    proof {
                        assert(rviews.take(i + 1).drop_last() =~= rviews.take(i as int));
                        assert(rviews.take(i + 1).last() == rviews[i as int]);
                    }
                    i = i + 1;
                }
                proof {
                    assert(rviews.take(w.workflow_runs@.len() as int) =~= rviews);
                }
                if count == 0 {
                    CheckResult::skipped(check, "Not enough runs to assess pipeline speed")
                } else {
                    let mut detail = dec_string(count);
                    detail.append(
                        " recent completed runs analyzed; check their durations in the actions console",
                    );
                    CheckResult::passed(check, detail.as_str())
                }
            },
        }
    }

    fn check_branch_protection(&self, check: Check) -> (r: CheckResult)
        ensures
            r@ == branch_protection_spec(check@, self.snapshot@),
    {
        match &self.snapshot.branch_protection {
            Ok(p) => {
                if p.requires_pull_request_reviews {
                    CheckResult::passed(
                        check,
                        "Main branch protected with required pull request reviews",
                    )
                } else {
                    let points = check.max_points / 2;
                    CheckResult::warning(
                        check,
                        points,
                        "Branch protection enabled but reviews are not required",
                        "Enable required pull request reviews in the protection settings",
                    )
                }
            },
            Err(e) => {
                if e.status == 404 {
                    CheckResult::failed(
                        check,
                        "No protection configured on main",
                        "Enable branch protection in the repository settings",
                    )
                } else {
                    CheckResult::skipped(
                        check,
                        "A token with repository scope is required to read branch protection",
                    )
                }
            },
        }
    }

    fn check_release_tagging(&self, check: Check) -> (r: CheckResult)
        ensures
            r@ == release_tagging_spec(check@, self.snapshot@),
    {
        match &self.snapshot.releases {
            Err(_) => CheckResult::skipped(check, "Could not fetch releases"),
            Ok(rels) => {
                if rels.len() > 0 {
                    let mut detail = dec_string(rels.len() as u64);
                    detail.append(" release(s) found; latest: ");
                    detail.append(rels[0].tag_name.as_str());
                    proof {
                        assert(detail@ =~= dec_str(rels@.len() as int) + " release(s) found; latest: "@
                            + rels@.map_values(|r: crate::gateway::Release| r@)[0].tag_name);
                    }
                    CheckResult::passed(check, detail.as_str())
                } else {
                    let text = self.scan_chars();
                    let mut kws: Vec<&str> = Vec::new();
                    kws.push("release-please");
                    kws.push("semantic-release");
                    kws.push("create-release");
                    kws.push("actions/create-release");
                    kws.push("gh release create");
                    proof {
                        assert(kw_views(kws@) =~= release_tool_kws());
                    }
                    let found = matched_keywords(&text, &kws);
                    if found.len() >= 1 {
                        let points = check.max_points / 2;
                        CheckResult::warning(
                            check,
                            points,
                            "Release tooling detected in CI but no release published yet",
                            "Merge to main once to trigger the first release",
                        )
                    } else {
                        CheckResult::failed(
                            check,
                            "No release or tag found",
                            "Create releases to version your project, manually or with release tooling",
                        )
                    }
                }
            },
        }
    }

    fn check_auto_deploy(&self, check: Check) -> (r: CheckResult)
        ensures
            r@ == auto_deploy_spec(check@, self.snapshot@),
    {
        let text = self.scan_chars();
        let mut kws: Vec<&str> = Vec::new();
        kws.push("deploy");
        kws.push("publish");
        kws.push("release");
        kws.push("gh-pages");
        kws.push("pages");
        kws.push("aws");
        kws.push("azure");
        kws.push("gcloud");
        kws.push("heroku");
        kws.push("vercel");
        kws.push("netlify");
        kws.push("render");
        kws.push("fly.io");
        proof {
            assert(kw_views(kws@) =~= deploy_kws());
        }
        let found = matched_keywords(&text, &kws);
        let push_trigger = contains_lit(&text, "on:\n  push:") || contains_lit(&text, "on: [push");
        if found.len() >= 1 && push_trigger {
            let mut detail = String::from_str("Automatic deployment on push detected; indicators: ");
            let joined = join_comma_strs(&found);
            detail.append(joined.as_str());
            CheckResult::passed(check, detail.as_str())
        } else if found.len() >= 1 {
            let points = check.max_points / 2;
            let mut detail = String::from_str(
                "Deployment step found but it is not triggered automatically; indicators: ",
            );
            let joined = join_comma_strs(&found);
            detail.append(joined.as_str());
            CheckResult::warning(
                check,
                points,
                detail.as_str(),
                "Trigger the deployment from a push to the main branch",
            )
        } else {
            CheckResult::failed(
                check,
                "No deployment step detected",
                "Add an automatic deployment job to your pipeline",
            )
        }
    }

    fn check_ghcr_published(&self, check: Check) -> (r: CheckResult)
        ensures
            r@ == ghcr_spec(check@, self.snapshot@),
    {
        let text = self.scan_chars();
        let has_ghcr = contains_lit(&text, "ghcr.io") || contains_lit(
            &text,
            "github container registry",
        ) || (contains_lit(&text, "docker/build-push-action") && contains_lit(
            &text,
            "registry: ghcr",
        ));
        let has_push = contains_lit(&text, "push: true") || contains_lit(&text, "docker push")
            || contains_lit(&text, "build-push-action");
        if has_ghcr && has_push {
            CheckResult::passed(
                check,
                "Publication to the GitHub Container Registry detected in the pipeline",
            )
        } else if has_ghcr {
            let points = check.max_points / 2;
            CheckResult::warning(
                check,
                points,
                "Registry reference found but no explicit push step",
                "Use the build-push action with push enabled and the container registry configured",
            )
        } else {
            CheckResult::failed(
                check,
                "No publication to the GitHub Container Registry detected",
                "Add the build-push action with the container registry to publish your image",
            )
        }
    }

    fn check_ci_cache(&self, check: Check) -> (r: CheckResult)
        ensures
            r@ == ci_cache_spec(check@, self.snapshot@),
    {
        let text = self.scan_chars();
        if contains_lit(&text, "actions/cache") {
            CheckResult::passed(check, "CI cache detected: actions/cache")
        } else if contains_lit(&text, "cache: npm") || contains_lit(&text, "cache: yarn")
            || contains_lit(&text, "cache: pnpm") || contains_lit(&text, "cache: pip")
            || contains_lit(&text, "cache: poetry") || contains_lit(&text, "cache: 'npm'")
            || contains_lit(&text, "cache: 'pip'") || contains_lit(&text, "cache: gradle")
            || contains_lit(&text, "cache: maven") {
            CheckResult::passed(check, "CI cache detected: cache integrated in the setup action")
        } else if contains_lit(&text, "cache-from") || contains_lit(&text, "cache-to")
            || contains_lit(&text, "buildkit") {
            CheckResult::passed(check, "CI cache detected: Docker layer cache")
        } else {
            CheckResult::failed(
                check,
                "No cache mechanism in the pipeline",
                "Add a cache action or enable the setup action's cache to speed up builds",
            )
        }
    }

    fn check_matrix_testing(&self, check: Check) -> (r: CheckResult)
        ensures
            r@ == matrix_testing_spec(check@, self.snapshot@),
    {
        let raw = aggregate_workflow_chars(self.snapshot);
        if contains_lit(&raw, "strategy:") && contains_lit(&raw, "matrix:") {
            let detail: &str = if contains_lit(&raw, "node-version") || contains_lit(
                &raw,
                "node_version",
            ) {
                "Matrix detected across Node.js versions"
            } else if contains_lit(&raw, "python-version") || contains_lit(&raw, "python_version") {
                "Matrix detected across Python versions"
            } else if contains_lit(&raw, "rust") || contains_lit(&raw, "toolchain") {
                "Matrix detected across Rust toolchains"
            } else if contains_lit(&raw, "os:") || contains_lit(&raw, "runs-on:") {
                "Matrix detected across operating systems"
            } else {
                "Matrix strategy detected in the pipeline"
            };
            CheckResult::passed(check, detail)
        } else {
            CheckResult::failed(
                check,
                "No matrix strategy detected",
                "Add a matrix strategy to your workflow to test across versions or systems",
            )
        }
    }

    fn check_reusable_workflows(&self, check: Check) -> (r: CheckResult)
        ensures
            r@ == reusable_workflows_spec(check@, self.snapshot@),
    {
        let raw = aggregate_workflow_chars(self.snapshot);
        if contains_lit(&raw, "workflow_call:") {
            CheckResult::passed(check, "Reusable workflow defined; other repositories can invoke it")
        } else if contains_lit(&raw, "uses: ./.github/workflows/") || contains_lit(
            &raw,
            "uses: './.github/workflows/",
        ) {
            CheckResult::passed(check, "Reusable workflow called from the workflow directory")
        } else {
            CheckResult::failed(
                check,
                "No reusable workflow found",
                "Define a workflow with a workflow_call trigger or call one from the workflow directory",
            )
        }
    }

    fn check_rollback_strategy(&self, check: Check) -> (r: CheckResult)
        ensures
            r@ == rollback_spec(check@, self.snapshot@),
    {
        let raw = aggregate_workflow_chars(self.snapshot);
        let text = lower_chars(&raw);
        let p = self.snapshot.probes;
        if p.rollback_yml || p.rollback_yaml || p.revert_yml {
            CheckResult::passed(check, "Dedicated rollback workflow detected")
        } else if contains_lit(&text, "rollback") || contains_lit(&text, "undo-deploy")
            || contains_lit(&text, "undo_deploy") {
            CheckResult::passed(check, "Rollback mechanism detected in the workflows")
        } else if contains_lit(&raw, "workflow_dispatch:") && (contains_lit(&text, "revert")
            || contains_lit(&text, "rollback")) {
            CheckResult::passed(check, "Manual dispatch with a revert option detected")
        } else if contains_lit(&raw, "workflow_dispatch:") {
            let points = check.max_points / 2;
            CheckResult::warning(
                check,
                points,
                "Manual dispatch detected, so manual redeployment is possible, but no explicit rollback",
                "Add a dedicated rollback workflow or a rollback input to the manual dispatch",
            )
        } else {
            CheckResult::failed(
                check,
                "No rollback strategy detected",
                "Create a rollback workflow or add a manual dispatch trigger with a rollback option",
            )
        }
    }

    fn check_conventional_commits(&self, check: Check) -> (r: CheckResult)
        ensures
            r@ == conventional_commits_spec(check@, self.snapshot@),
    {
        match &self.snapshot.commits {
            Err(_) => CheckResult::skipped(check, "Could not fetch commits"),
            Ok(commits) => {
                if commits.len() == 0 {
                    return CheckResult::skipped(check, "No commits available");
                }
                let ghost cviews = commits@.map_values(|c: CommitItem| c@);
                let mut nm: usize = 0;
                let mut conv: usize = 0;
                let mut i: usize = 0;
                proof {
                    assert(cviews.take(0) =~= Seq::<CommitItemView>::empty());
                }
                while i < commits.len()
                    invariant
                        i <= commits@.len(),
                        cviews == commits@.map_values(|c: CommitItem| c@),
                        nm == non_merge_count(cviews.take(i as int)),
                        conv == conventional_count(cviews.take(i as int)),
                        conv <= nm <= i,
                    decreases commits@.len() - i,
                {
                    let msg = &commits[i].commit.message;
                    if !is_merge_exec(msg.as_str()) {
                        nm = nm + 1;
                        if is_conventional_commit(msg.as_str()) {
                            conv = conv + 1;
                        }
                    }
                    proof {
                        assert(cviews.take(i + 1).drop_last() =~= cviews.take(i as int));
                        assert(cviews.take(i + 1).last() == cviews[i as int]);
                    }
                    i = i + 1;
                }
                proof {
                    assert(cviews.take(commits@.len() as int) =~= cviews);
                }
                if nm == 0 {
                    return CheckResult::skipped(check, "Only merge commits found");
                }
                let pct_wide = (conv as u128) * 100 / (nm as u128);
                proof {
                    assert(conv * 100 / nm as int <= 100) by (nonlinear_arith)
                        requires
                            0 < nm,
                            conv <= nm,
                    ;
                }
                let pct = pct_wide as u64;
                let mut detail = dec_string(conv as u64);
                detail.append("/");
                let nm_text = dec_string(nm as u64);
                detail.append(nm_text.as_str());
                detail.append(" conventional commits (");
                let pct_text = dec_string(pct);
                detail.append(pct_text.as_str());
                proof {
                    assert(detail@ =~= ratio_prefix(conv as int, nm as int));
                }
                if pct >= 80 {
                    detail.append("%)");
                    proof {
                        assert(detail@ =~= ratio_prefix(conv as int, nm as int) + "%)"@);
                    }
                    CheckResult::passed(check, detail.as_str())
                } else {
                    detail.append("% < 80%)");
                    proof {
                        assert(detail@ =~= ratio_prefix(conv as int, nm as int) + "% < 80%)"@);
                    }
                    CheckResult::failed(
                        check,
                        detail.as_str(),
                        "Follow the Conventional Commits form: feat:, fix:, chore:, ci:, docs:",
                    )
                }
            },
        }
    }

    fn check_auto_changelog(&self, check: Check) -> (r: CheckResult)
        ensures
            r@ == auto_changelog_spec(check@, self.snapshot@),
    {
        let text = self.scan_chars();
        let mut kws: Vec<&str> = Vec::new();
        kws.push("release-please");
        kws.push("semantic-release");
        kws.push("conventional-changelog");
        kws.push("auto-changelog");
        kws.push("standard-version");
        kws.push("changesets");
        proof {
            assert(kw_views(kws@) =~= changelog_kws());
        }
        let found = matched_keywords(&text, &kws);
        if found.len() >= 1 {
            let mut detail = String::from_str("Automated changelog tooling detected: ");
            let joined = join_comma_strs(&found);
            detail.append(joined.as_str());
            return CheckResult::passed(check, detail.as_str());
        }
        match &self.snapshot.changelog {
            Ok(changelog) => {
                let n = count_version_headers(changelog.as_str());
                if n >= 2 {
                    let mut detail = String::from_str("Changelog file found with ");
                    let n_text = dec_string(n);
                    detail.append(n_text.as_str());
                    detail.append(" version entries");
                    proof {
                        assert(detail@ =~= "Changelog file found with "@ + dec_str(n as int)
                            + " version entries"@);
                    }
                    CheckResult::passed(check, detail.as_str())
                } else {
                    CheckResult::failed(
                        check,
                        "No automated changelog tooling found",
                        "Configure a changelog generation tool in your pipeline",
                    )
                }
            },
            Err(_) => CheckResult::failed(
                check,
                "No automated changelog tooling found",
                "Configure a changelog generation tool in your pipeline",
            ),
        }
    }

    fn check_dependabot(&self, check: Check) -> (r: CheckResult)
        ensures
            r@ == dependabot_spec(check@, self.snapshot@),
    {
        let p = self.snapshot.probes;
        if p.dependabot_yml || p.dependabot_yaml {
            CheckResult::passed(check, "Dependabot is configured")
        } else if p.renovate_json || p.github_renovate_json {
            CheckResult::passed(check, "Renovate is configured")
        } else {
            CheckResult::failed(
                check,
                "Neither Dependabot nor Renovate is configured",
                "Add a dependabot configuration file to automate dependency updates",
            )
        }
    }

    fn check_codeowners(&self, check: Check) -> (r: CheckResult)
        ensures
            r@ == codeowners_spec(check@, self.snapshot@),
    {
        let p = self.snapshot.probes;
        if p.codeowners_root || p.codeowners_github || p.codeowners_docs {
            CheckResult::passed(check, "CODEOWNERS file found")
        } else {
            CheckResult::failed(
                check,
                "No CODEOWNERS file found",
                "Add a CODEOWNERS file to define code ownership",
            )
        }
    }
}

} // verus!

