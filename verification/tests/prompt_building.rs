use cicd_audit::models::{Check, CheckCategory, CheckResult};
use cicd_audit::prompt::AiClient;
use cicd_audit::score::{CategoryScore, ScoreReport};

fn check(id: &str, name: &str, category: CheckCategory) -> Check {
    Check {
        id: id.to_string(),
        name: name.to_string(),
        description: String::new(),
        category,
        max_points: 5,
    }
}

fn sample_report() -> ScoreReport {
    let ok = CheckResult::passed(check("a", "Check A", CheckCategory::Fundamentals), "fine");
    let bad = CheckResult::failed(
        check("b", "Check B", CheckCategory::Fundamentals),
        "missing step",
        "add the step",
    );
    let worse = CheckResult::failed(
        check("c", "Check C", CheckCategory::Bonus),
        "nothing found",
        "configure it",
    );
    ScoreReport {
        repository: "owner/repo".to_string(),
        passed: 1,
        total: 3,
        categories: vec![
            CategoryScore {
                category: CheckCategory::Fundamentals,
                passed: 1,
                total: 2,
                results: vec![ok, bad],
            },
            CategoryScore {
                category: CheckCategory::Bonus,
                passed: 0,
                total: 1,
                results: vec![worse],
            },
        ],
        analyzed_at: "now".to_string(),
    }
}

#[test]
fn client_requires_a_token() {
    assert!(AiClient::new(None).is_none());
    let c = AiClient::new(Some("tok".to_string())).unwrap();
    assert_eq!(c.token, "tok");
}

#[test]
fn failed_checks_are_collected_in_report_order() {
    let lines = AiClient::collect_failed_checks(&sample_report());
    assert_eq!(
        lines,
        vec![
            "- [Fundamentals] Check B: missing step".to_string(),
            "- [Bonus] Check C: nothing found".to_string(),
        ]
    );
}

#[test]
fn prompt_includes_counts_failures_and_yaml() {
    let p = AiClient::build_prompt(&sample_report(), Some("on: push\njobs: {}"));
    assert!(p.starts_with("Analyze the CI/CD report of the repository `owner/repo`"));
    assert!(p.contains("## Failed checks (2 of 3)\n"));
    assert!(p.contains("- [Fundamentals] Check B: missing step\n- [Bonus] Check C: nothing found"));
    assert!(p.contains("## Main CI workflow (YAML)\n```yaml\non: push\njobs: {}\n```"));
    assert!(p.contains("\"priority\": \"high\" | \"medium\" | \"low\""));
    assert!(p.ends_with("Respond only with valid JSON, with no extra text."));
}

#[test]
fn prompt_without_yaml_has_no_yaml_section() {
    let p = AiClient::build_prompt(&sample_report(), None);
    assert!(!p.contains("## Main CI workflow"));
}

#[test]
fn prompt_truncates_a_long_yaml_snippet() {
    let long = "x".repeat(4000);
    let p = AiClient::build_prompt(&sample_report(), Some(&long));
    assert!(p.contains("... (truncated)"));
    let snippet = "x".repeat(3000);
    assert!(p.contains(&snippet));
    assert!(!p.contains(&"x".repeat(3001)));
}

#[test]
fn prompt_with_no_failures_says_so() {
    let mut report = sample_report();
    report.categories[0].results.remove(1);
    report.categories[1].results.clear();
    report.passed = 1;
    report.total = 1;
    let p = AiClient::build_prompt(&report, None);
    assert!(p.contains("## Failed checks (0 of 1)\nNo failed checks"));
}
