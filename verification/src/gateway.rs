//! Plain-value forms of everything the repository data gateway returns:
//! metadata, workflow files and runs, branch protection, releases, commits,
//! and the typed failure that any fetch can end in. A `RepoSnapshot` bundles
//! one point-in-time fetch of all of it; the evaluators and the engine are
//! pure functions of such a snapshot.

use vstd::prelude::*;

use crate::text::dec_str;

verus! {

/// Owner and repository name of one hosted repository.
#[derive(Debug)]
pub struct RepoIdentifier {
    pub owner: String,
    pub repo: String,
}

/// Mathematical model of a `RepoIdentifier`.
pub struct RepoIdentifierView {
    pub owner: Seq<char>,
    pub repo: Seq<char>,
}

impl View for RepoIdentifier {
    type V = RepoIdentifierView;

    open spec fn view(&self) -> RepoIdentifierView {
        RepoIdentifierView { owner: self.owner@, repo: self.repo@ }
    }
}

/// What `RepoIdentifier::full_name` returns.
pub open spec fn full_name_spec(r: RepoIdentifierView) -> Seq<char> {
    r.owner + "/"@ + r.repo
}

impl RepoIdentifier {
    /// The `owner/repo` form of the identifier.
    pub fn full_name(&self) -> (r: String)
        ensures
            r@ == full_name_spec(self@),
    {
        let mut s = self.owner.clone();
        s.append("/");
        s.append(self.repo.as_str());
        s
    }
}

impl Clone for RepoIdentifier {
    fn clone(&self) -> (r: Self)
        ensures
            r == *self,
    {
        RepoIdentifier { owner: self.owner.clone(), repo: self.repo.clone() }
    }
}

/// A typed fetch failure: the HTTP status (0 when no response was obtained)
/// and a human-readable message.
#[derive(Debug)]
pub struct ApiError {
    pub status: u16,
    pub message: String,
}

/// Mathematical model of an `ApiError`.
pub struct ApiErrorView {
    pub status: u16,
    pub message: Seq<char>,
}

impl View for ApiError {
    type V = ApiErrorView;

    open spec fn view(&self) -> ApiErrorView {
        ApiErrorView { status: self.status, message: self.message@ }
    }
}

/// What `ApiError::describe` returns.
pub open spec fn api_error_text(e: ApiErrorView) -> Seq<char> {
    "API error "@ + dec_str(e.status as int) + ": "@ + e.message
}

impl ApiError {
    /// One-line rendering of the failure.
    pub fn describe(&self) -> (r: String)
        ensures
            r@ == api_error_text(self@),
    {
        let mut s = String::from_str("API error ");
        crate::text::append_dec(&mut s, self.status as u64);
        s.append(": ");
        s.append(self.message.as_str());
        proof {
            assert(s@ =~= api_error_text(self@));
        }
        s
    }
}

impl Clone for ApiError {
    fn clone(&self) -> (r: Self)
        ensures
            r == *self,
    {
        ApiError { status: self.status, message: self.message.clone() }
    }
}

/// One file of the workflow directory, with its fetched text when the fetch
/// succeeded.
#[derive(Debug)]
pub struct GithubContent {
    pub name: String,
    pub path: String,
    /// Decoded file text; `None` when the file's content fetch failed.
    pub content: Option<String>,
    pub encoding: Option<String>,
    pub content_type: Option<String>,
}

/// Mathematical model of a `GithubContent`.
pub struct GithubContentView {
    pub name: Seq<char>,
    pub path: Seq<char>,
    pub content: Option<Seq<char>>,
    pub encoding: Option<Seq<char>>,
    pub content_type: Option<Seq<char>>,
}

impl View for GithubContent {
    type V = GithubContentView;

    open spec fn view(&self) -> GithubContentView {
        GithubContentView {
            name: self.name@,
            path: self.path@,
            content: match self.content {
                Some(ref s) => Some(s@),
                None => None,
            },
            encoding: match self.encoding {
                Some(ref s) => Some(s@),
                None => None,
            },
            content_type: match self.content_type {
                Some(ref s) => Some(s@),
                None => None,
            },
        }
    }
}

/// One recorded workflow run.
#[derive(Debug)]
pub struct WorkflowRun {
    pub id: u64,
    pub name: Option<String>,
    pub status: Option<String>,
    pub conclusion: Option<String>,
    pub head_branch: Option<String>,
    pub created_at: Option<String>,
    pub updated_at: Option<String>,
    pub run_started_at: Option<String>,
}

/// Mathematical model of a `WorkflowRun`.
pub struct WorkflowRunView {
    pub id: u64,
    pub name: Option<Seq<char>>,
    pub status: Option<Seq<char>>,
    pub conclusion: Option<Seq<char>>,
    pub head_branch: Option<Seq<char>>,
    pub created_at: Option<Seq<char>>,
    pub updated_at: Option<Seq<char>>,
    pub run_started_at: Option<Seq<char>>,
}

/// The view of an optional owned string.
pub open spec fn opt_view(s: Option<String>) -> Option<Seq<char>> {
    match s {
        Some(t) => Some(t@),
        None => None,
    }
}

impl View for WorkflowRun {
    type V = WorkflowRunView;

    open spec fn view(&self) -> WorkflowRunView {
        WorkflowRunView {
            id: self.id,
            name: opt_view(self.name),
            status: opt_view(self.status),
            conclusion: opt_view(self.conclusion),
            head_branch: opt_view(self.head_branch),
            created_at: opt_view(self.created_at),
            updated_at: opt_view(self.updated_at),
            run_started_at: opt_view(self.run_started_at),
        }
    }
}

/// The run-history listing: a total and the page of runs.
#[derive(Debug)]
pub struct WorkflowRunsResponse {
    pub total_count: u32,
    pub workflow_runs: Vec<WorkflowRun>,
}

/// Mathematical model of a `WorkflowRunsResponse`.
pub struct WorkflowRunsView {
    pub total_count: u32,
    pub workflow_runs: Seq<WorkflowRunView>,
}

impl View for WorkflowRunsResponse {
    type V = WorkflowRunsView;

    open spec fn view(&self) -> WorkflowRunsView {
        WorkflowRunsView {
            total_count: self.total_count,
            workflow_runs: self.workflow_runs@.map_values(|r: WorkflowRun| r@),
        }
    }
}

/// Whether administrators are bound by the protection rules.
#[derive(Debug, Clone, Copy, PartialEq, Eq, Structural)]
pub struct EnforceAdmins {
    pub enabled: bool,
}

/// Branch protection rules, reduced to what the checks read.
#[derive(Debug, Clone, Copy, PartialEq, Eq, Structural)]
pub struct BranchProtection {
    /// Whether a required-pull-request-review rule is present.
    pub requires_pull_request_reviews: bool,
    pub enforce_admins: Option<EnforceAdmins>,
    /// Whether a required-status-checks rule is present.
    pub has_required_status_checks: bool,
}

/// Repository metadata.
#[derive(Debug)]
pub struct RepoMetadata {
    pub name: String,
    pub full_name: String,
    pub default_branch: String,
    pub private: bool,
    pub description: Option<String>,
}

/// Mathematical model of a `RepoMetadata`.
pub struct RepoMetadataView {
    pub name: Seq<char>,
    pub full_name: Seq<char>,
    pub default_branch: Seq<char>,
    pub private: bool,
    pub description: Option<Seq<char>>,
}

impl View for RepoMetadata {
    type V = RepoMetadataView;

    open spec fn view(&self) -> RepoMetadataView {
        RepoMetadataView {
            name: self.name@,
            full_name: self.full_name@,
            default_branch: self.default_branch@,
            private: self.private,
            description: opt_view(self.description),
        }
    }
}

/// One entry of a recursive tree listing.
#[derive(Debug)]
pub struct TreeEntry {
    pub path: String,
    pub entry_type: String,
}

/// Mathematical model of a `TreeEntry`.
pub struct TreeEntryView {
    pub path: Seq<char>,
    pub entry_type: Seq<char>,
}

impl View for TreeEntry {
    type V = TreeEntryView;

    open spec fn view(&self) -> TreeEntryView {
        TreeEntryView { path: self.path@, entry_type: self.entry_type@ }
    }
}

/// A recursive tree listing.
#[derive(Debug)]
pub struct TreeResponse {
    pub sha: String,
    pub tree: Vec<TreeEntry>,
    pub truncated: bool,
}

/// Mathematical model of a `TreeResponse`.
pub struct TreeResponseView {
    pub sha: Seq<char>,
    pub tree: Seq<TreeEntryView>,
    pub truncated: bool,
}

impl View for TreeResponse {
    type V = TreeResponseView;

    open spec fn view(&self) -> TreeResponseView {
        TreeResponseView {
            sha: self.sha@,
            tree: self.tree@.map_values(|t: TreeEntry| t@),
            truncated: self.truncated,
        }
    }
}

/// One published release.
#[derive(Debug)]
pub struct Release {
    pub id: u64,
    pub tag_name: String,
    pub name: Option<String>,
    pub published_at: Option<String>,
}

/// Mathematical model of a `Release`.
pub struct ReleaseView {
    pub id: u64,
    pub tag_name: Seq<char>,
    pub name: Option<Seq<char>>,
    pub published_at: Option<Seq<char>>,
}

impl View for Release {
    type V = ReleaseView;

    open spec fn view(&self) -> ReleaseView {
        ReleaseView {
            id: self.id,
            tag_name: self.tag_name@,
            name: opt_view(self.name),
            published_at: opt_view(self.published_at),
        }
    }
}

/// One item of a commit listing.
#[derive(Debug)]
pub struct CommitItem {
    pub sha: String,
    pub commit: CommitDetail,
}

/// The detail of one commit.
#[derive(Debug)]
pub struct CommitDetail {
    pub message: String,
}

/// Mathematical model of a `CommitItem`.
pub struct CommitItemView {
    pub sha: Seq<char>,
    pub message: Seq<char>,
}

impl View for CommitItem {
    type V = CommitItemView;

    open spec fn view(&self) -> CommitItemView {
        CommitItemView { sha: self.sha@, message: self.commit.message@ }
    }
}

/// Existence probes for the fixed set of files the checks look for.
#[derive(Debug, Clone, Copy, PartialEq, Eq, Structural)]
pub struct FileProbes {
    pub dockerfile: bool,
    pub readme: bool,
    pub gitignore: bool,
    pub dependabot_yml: bool,
    pub dependabot_yaml: bool,
    pub renovate_json: bool,
    pub github_renovate_json: bool,
    pub codeowners_root: bool,
    pub codeowners_github: bool,
    pub codeowners_docs: bool,
    pub rollback_yml: bool,
    pub rollback_yaml: bool,
    pub revert_yml: bool,
}

/// One point-in-time fetch of everything the checks inspect. Each field is
/// either the fetched value or the typed failure of that fetch; a failure
/// never aborts the run, it demotes the affected checks to `Skipped`.
#[derive(Debug)]
pub struct RepoSnapshot {
    pub metadata: Result<RepoMetadata, ApiError>,
    pub workflow_files: Result<Vec<GithubContent>, ApiError>,
    pub workflow_runs: Result<WorkflowRunsResponse, ApiError>,
    pub branch_protection: Result<BranchProtection, ApiError>,
    pub releases: Result<Vec<Release>, ApiError>,
    pub commits: Result<Vec<CommitItem>, ApiError>,
    pub changelog: Result<String, ApiError>,
    pub probes: FileProbes,
}

/// Mathematical model of a `RepoSnapshot`.
pub struct SnapshotView {
    pub metadata: Result<RepoMetadataView, ApiErrorView>,
    pub workflow_files: Result<Seq<GithubContentView>, ApiErrorView>,
    pub workflow_runs: Result<WorkflowRunsView, ApiErrorView>,
    pub branch_protection: Result<BranchProtection, ApiErrorView>,
    pub releases: Result<Seq<ReleaseView>, ApiErrorView>,
    pub commits: Result<Seq<CommitItemView>, ApiErrorView>,
    pub changelog: Result<Seq<char>, ApiErrorView>,
    pub probes: FileProbes,
}

impl View for RepoSnapshot {
    type V = SnapshotView;

    open spec fn view(&self) -> SnapshotView {
        SnapshotView {
            metadata: match self.metadata {
                Ok(ref m) => Ok(m@),
                Err(ref e) => Err(e@),
            },
            workflow_files: match self.workflow_files {
                Ok(ref v) => Ok(v@.map_values(|g: GithubContent| g@)),
                Err(ref e) => Err(e@),
            },
            workflow_runs: match self.workflow_runs {
                Ok(ref w) => Ok(w@),
                Err(ref e) => Err(e@),
            },
            branch_protection: match self.branch_protection {
                Ok(p) => Ok(p),
                Err(ref e) => Err(e@),
            },
            releases: match self.releases {
                Ok(ref v) => Ok(v@.map_values(|r: Release| r@)),
                Err(ref e) => Err(e@),
            },
            commits: match self.commits {
                Ok(ref v) => Ok(v@.map_values(|c: CommitItem| c@)),
                Err(ref e) => Err(e@),
            },
            changelog: match self.changelog {
                Ok(ref s) => Ok(s@),
                Err(ref e) => Err(e@),
            },
            probes: self.probes,
        }
    }
}

} // verus!
