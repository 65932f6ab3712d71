//! The check catalog: a fixed, ordered list of check definitions with their
//! category and point weight. Pure data; deterministic; the weights of each
//! category sum to that category's point budget.

use vstd::prelude::*;

use crate::models::Check;
use crate::models::CheckCategory;
use crate::models::CheckView;
use crate::models::category_max_points;

verus! {

/// Shorthand for one catalog entry at the model level.
pub open spec fn cv(
    id: Seq<char>,
    name: Seq<char>,
    description: Seq<char>,
    category: CheckCategory,
    max_points: u32,
) -> CheckView {
    CheckView { id, name, description, category, max_points }
}

/// The catalog's model: every check in display order.
pub open spec fn catalog_spec() -> Seq<CheckView> {
    fundamentals_spec() + intermediate_spec() + advanced_spec() + bonus_spec()
}

/// The fundamentals entries of the catalog.
pub open spec fn fundamentals_spec() -> Seq<CheckView> {
    let cat = CheckCategory::Fundamentals;
    seq![
        cv(
            "pipeline_exists"@,
            "CI pipeline exists"@,
            "At least one workflow YAML file is present in the workflow directory"@,
            cat,
            6,
        ),
        cv(
            "pipeline_green"@,
            "Pipeline green on main"@,
            "The latest workflow run on main concluded successfully"@,
            cat,
            6,
        ),
        cv(
            "tests_exist"@,
            "Tests present"@,
            "Test steps exist and are executed in CI"@,
            cat,
            6,
        ),
        cv(
            "tests_pass"@,
            "Tests pass in CI"@,
            "The pipeline is green and a test step was detected and executed"@,
            cat,
            6,
        ),
        cv(
            "lint_in_ci"@,
            "Lint in CI"@,
            "A lint or format step is configured in the pipeline"@,
            cat,
            6,
        ),
        cv(
            "dockerfile_exists"@,
            "Dockerfile present"@,
            "A Dockerfile exists at the project root"@,
            cat,
            5,
        ),
        cv(
            "docker_build_ci"@,
            "Docker build in CI"@,
            "The pipeline includes a Docker build step"@,
            cat,
            5,
        ),
        cv(
            "no_secrets_in_code"@,
            "No secrets in code"@,
            "No hardcoded secret pattern detected in the workflow files"@,
            cat,
            5,
        ),
        cv(
            "readme_exists"@,
            "README present"@,
            "A README.md file exists at the project root"@,
            cat,
            5,
        ),
    ]
}

/// The intermediate entries of the catalog.
pub open spec fn intermediate_spec() -> Seq<CheckView> {
    let cat = CheckCategory::Intermediate;
    seq![
        cv(
            "security_scan"@,
            "Security scanning"@,
            "A security scanning tool runs in CI"@,
            cat,
            6,
        ),
        cv(
            "coverage_configured"@,
            "Coverage configured"@,
            "Code coverage is configured in the pipeline"@,
            cat,
            6,
        ),
        cv(
            "dependabot_configured"@,
            "Dependabot / Renovate"@,
            "Automated dependency updates are configured"@,
            cat,
            6,
        ),
        cv(
            "ghcr_published"@,
            "Image published to GHCR"@,
            "The Docker image is pushed to the GitHub Container Registry"@,
            cat,
            6,
        ),
        cv(
            "quality_gate"@,
            "Quality gate"@,
            "A code quality analysis tool is integrated in CI"@,
            cat,
            6,
        ),
    ]
}

/// The advanced entries of the catalog.
pub open spec fn advanced_spec() -> Seq<CheckView> {
    let cat = CheckCategory::Advanced;
    seq![
        cv(
            "branch_protection"@,
            "Branch protection"@,
            "The main branch is protected and requires pull request reviews"@,
            cat,
            5,
        ),
        cv(
            "pipeline_fast"@,
            "Fast pipeline"@,
            "Recent completed runs exist to assess pipeline speed"@,
            cat,
            4,
        ),
        cv(
            "multi_environment"@,
            "Multiple environments"@,
            "The pipeline manages several deployment environments"@,
            cat,
            5,
        ),
        cv(
            "auto_deploy"@,
            "Automatic deployment"@,
            "A deployment is triggered automatically on push"@,
            cat,
            5,
        ),
        cv(
            "ci_cache"@,
            "CI cache"@,
            "The pipeline uses a cache mechanism to speed up builds"@,
            cat,
            4,
        ),
        cv(
            "ci_notifications"@,
            "CI notifications"@,
            "Notifications are sent on pipeline success or failure"@,
            cat,
            4,
        ),
        cv(
            "matrix_testing"@,
            "Matrix testing"@,
            "The pipeline uses a matrix strategy across versions or systems"@,
            cat,
            4,
        ),
        cv(
            "reusable_workflows"@,
            "Reusable workflows"@,
            "The repository defines or calls reusable workflows"@,
            cat,
            4,
        ),
    ]
}

/// The bonus entries of the catalog.
pub open spec fn bonus_spec() -> Seq<CheckView> {
    let cat = CheckCategory::Bonus;
    seq![
        cv(
            "codeowners_exists"@,
            "CODEOWNERS present"@,
            "A CODEOWNERS file is configured"@,
            cat,
            2,
        ),
        cv(
            "gitignore_exists"@,
            ".gitignore present"@,
            "A .gitignore file is configured"@,
            cat,
            2,
        ),
        cv(
            "release_tagging"@,
            "Releases and tags"@,
            "At least one release or tag versions the project"@,
            cat,
            2,
        ),
        cv(
            "smoke_tests"@,
            "Smoke / e2e tests"@,
            "Smoke or end-to-end tests validate the deployed environment"@,
            cat,
            1,
        ),
        cv(
            "conventional_commits"@,
            "Conventional commits"@,
            "At least 80 percent of commits follow the Conventional Commits form"@,
            cat,
            1,
        ),
        cv(
            "auto_changelog"@,
            "Automated changelog"@,
            "A changelog generation tool is configured"@,
            cat,
            1,
        ),
        cv(
            "rollback_strategy"@,
            "Rollback strategy"@,
            "The repository has a rollback mechanism"@,
            cat,
            1,
        ),
    ]
}

/// Builds one catalog entry from its literals.
fn mk(id: &str, name: &str, description: &str, category: CheckCategory, max_points: u32) -> (c:
    Check)
    ensures
        c@ == cv(id@, name@, description@, category, max_points),
{
    Check {
        id: id.to_owned(),
        name: name.to_owned(),
        description: description.to_owned(),
        category,
        max_points,
    }
}

/// All check definitions in display order; deterministic, no side effects.
pub fn all_checks() -> (r: Vec<Check>)
    ensures
        r@.map_values(|c: Check| c@) == catalog_spec(),
{
    let mut r: Vec<Check> = Vec::new();
    let f = CheckCategory::Fundamentals;
    r.push(mk(
        "pipeline_exists",
        "CI pipeline exists",
        "At least one workflow YAML file is present in the workflow directory",
        f,
        6,
    ));
    r.push(mk(
        "pipeline_green",
        "Pipeline green on main",
        "The latest workflow run on main concluded successfully",
        f,
        6,
    ));
    r.push(mk("tests_exist", "Tests present", "Test steps exist and are executed in CI", f, 6));
    r.push(mk(
        "tests_pass",
        "Tests pass in CI",
        "The pipeline is green and a test step was detected and executed",
        f,
        6,
    ));
    r.push(mk("lint_in_ci", "Lint in CI", "A lint or format step is configured in the pipeline", f, 6));
    r.push(mk("dockerfile_exists", "Dockerfile present", "A Dockerfile exists at the project root", f, 5));
    r.push(mk("docker_build_ci", "Docker build in CI", "The pipeline includes a Docker build step", f, 5));
    r.push(mk(
        "no_secrets_in_code",
        "No secrets in code",
        "No hardcoded secret pattern detected in the workflow files",
        f,
        5,
    ));
    r.push(mk("readme_exists", "README present", "A README.md file exists at the project root", f, 5));
    let i = CheckCategory::Intermediate;
    r.push(mk("security_scan", "Security scanning", "A security scanning tool runs in CI", i, 6));
    r.push(mk(
        "coverage_configured",
        "Coverage configured",
        "Code coverage is configured in the pipeline",
        i,
        6,
    ));
    r.push(mk(
        "dependabot_configured",
        "Dependabot / Renovate",
        "Automated dependency updates are configured",
        i,
        6,
    ));
    r.push(mk(
        "ghcr_published",
        "Image published to GHCR",
        "The Docker image is pushed to the GitHub Container Registry",
        i,
        6,
    ));
    r.push(mk("quality_gate", "Quality gate", "A code quality analysis tool is integrated in CI", i, 6));
    let a = CheckCategory::Advanced;
    r.push(mk(
        "branch_protection",
        "Branch protection",
        "The main branch is protected and requires pull request reviews",
        a,
        5,
    ));
    r.push(mk(
        "pipeline_fast",
        "Fast pipeline",
        "Recent completed runs exist to assess pipeline speed",
        a,
        4,
    ));
    r.push(mk(
        "multi_environment",
        "Multiple environments",
        "The pipeline manages several deployment environments",
        a,
        5,
    ));
    r.push(mk("auto_deploy", "Automatic deployment", "A deployment is triggered automatically on push", a, 5));
    r.push(mk("ci_cache", "CI cache", "The pipeline uses a cache mechanism to speed up builds", a, 4));
    r.push(mk(
        "ci_notifications",
        "CI notifications",
        "Notifications are sent on pipeline success or failure",
        a,
        4,
    ));
    r.push(mk(
        "matrix_testing",
        "Matrix testing",
        "The pipeline uses a matrix strategy across versions or systems",
        a,
        4,
    ));
    r.push(mk(
        "reusable_workflows",
        "Reusable workflows",
        "The repository defines or calls reusable workflows",
        a,
        4,
    ));
    let b = CheckCategory::Bonus;
    r.push(mk("codeowners_exists", "CODEOWNERS present", "A CODEOWNERS file is configured", b, 2));
    r.push(mk("gitignore_exists", ".gitignore present", "A .gitignore file is configured", b, 2));
    r.push(mk("release_tagging", "Releases and tags", "At least one release or tag versions the project", b, 2));
    r.push(mk(
        "smoke_tests",
        "Smoke / e2e tests",
        "Smoke or end-to-end tests validate the deployed environment",
        b,
        1,
    ));
    r.push(mk(
        "conventional_commits",
        "Conventional commits",
        "At least 80 percent of commits follow the Conventional Commits form",
        b,
        1,
    ));
    r.push(mk("auto_changelog", "Automated changelog", "A changelog generation tool is configured", b, 1));
    r.push(mk("rollback_strategy", "Rollback strategy", "The repository has a rollback mechanism", b, 1));
    proof {
        assert(r@.map_values(|c: Check| c@) =~= catalog_spec());
    }
    r
}

/// The weights of each category's catalog entries sum to that category's
/// point budget, so a percentage of a category is meaningful.
pub proof fn lemma_catalog_weights_match_budgets()
    ensures
        weight_sum(catalog_spec(), CheckCategory::Fundamentals) == category_max_points(
            CheckCategory::Fundamentals,
        ),
        weight_sum(catalog_spec(), CheckCategory::Intermediate) == category_max_points(
            CheckCategory::Intermediate,
        ),
        weight_sum(catalog_spec(), CheckCategory::Advanced) == category_max_points(
            CheckCategory::Advanced,
        ),
        weight_sum(catalog_spec(), CheckCategory::Bonus) == category_max_points(
            CheckCategory::Bonus,
        ),
{
    reveal_with_fuel(weight_sum, 30);
}

/// Sum of the weights of the entries of one category.
pub open spec fn weight_sum(checks: Seq<CheckView>, cat: CheckCategory) -> int
    decreases checks.len(),
{
    if checks.len() == 0 {
        0
    } else {
        weight_sum(checks.drop_last(), cat) + if checks.last().category == cat {
            checks.last().max_points as int
        } else {
            0
        }
    }
}

} // verus!
