use cicd_audit::client::GithubClient;

#[test]
fn test_parse_full_url() {
    let result = GithubClient::parse_repo_url("https://github.com/rust-lang/rust").unwrap();
    assert_eq!(result.owner, "rust-lang");
    assert_eq!(result.repo, "rust");
}

#[test]
fn test_parse_short_form() {
    let result = GithubClient::parse_repo_url("owner/repo").unwrap();
    assert_eq!(result.owner, "owner");
    assert_eq!(result.repo, "repo");
}

#[test]
fn test_parse_trailing_slash() {
    let result = GithubClient::parse_repo_url("https://github.com/owner/repo/").unwrap();
    assert_eq!(result.owner, "owner");
    assert_eq!(result.repo, "repo");
}

#[test]
fn test_parse_invalid_url() {
    assert!(GithubClient::parse_repo_url("not-a-url").is_err());
}

#[test]
fn parse_strips_git_suffix() {
    let result = GithubClient::parse_repo_url("https://github.com/owner/repo.git").unwrap();
    assert_eq!(result.owner, "owner");
    assert_eq!(result.repo, "repo");
}

#[test]
fn parse_ignores_extra_segments() {
    let result = GithubClient::parse_repo_url("https://github.com/owner/repo/tree/main").unwrap();
    assert_eq!(result.owner, "owner");
    assert_eq!(result.repo, "repo");
}

#[test]
fn parse_trims_whitespace() {
    let result = GithubClient::parse_repo_url("  owner/repo\n").unwrap();
    assert_eq!(result.owner, "owner");
    assert_eq!(result.repo, "repo");
}

#[test]
fn parse_site_without_path_is_invalid() {
    let err = GithubClient::parse_repo_url("https://github.com").unwrap_err();
    assert_eq!(err, "Invalid GitHub URL");
}

#[test]
fn parse_single_segment_is_missing_parts() {
    let err = GithubClient::parse_repo_url("https://github.com/onlyowner").unwrap_err();
    assert_eq!(err, "URL must contain owner/repo");
}

#[test]
fn parse_empty_owner_is_rejected() {
    let err = GithubClient::parse_repo_url("github.com//repo").unwrap_err();
    assert_eq!(err, "Owner and repo name cannot be empty");
}

#[test]
fn full_name_joins_owner_and_repo() {
    let id = GithubClient::parse_repo_url("owner/repo").unwrap();
    assert_eq!(id.full_name(), "owner/repo");
}
