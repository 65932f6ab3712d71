//! The client-side identity of a repository: parsing a pasted location
//! (either `owner/repo` or a full web URL) into a `RepoIdentifier`, and the
//! token-bearing handle the fetching layer is configured from.

use vstd::prelude::*;

use crate::gateway::RepoIdentifier;
use crate::text::chars_of;
use crate::text::contains_lit;
use crate::text::contains_seq;
use crate::text::ends_with;
use crate::text::find_char_from;
use crate::text::find_sub;
use crate::text::index_of_char;
use crate::text::match_at;
use crate::text::occurs_at;
use crate::text::strip_suffix_repeat;
use crate::text::strip_trailing_char;
use crate::text::sub_index;
use crate::text::sub_vec;
use crate::text::trim_back;
use crate::text::trim_front;

verus! {

/// A repository location after trimming: whitespace off both ends, then any
/// trailing slashes.
pub open spec fn cleaned(s: Seq<char>) -> Seq<char> {
    strip_trailing_char(trim_back(trim_front(s)), '/')
}

/// How one parse attempt ends.
pub enum RepoUrlOutcome {
    /// Both segments were found and are non-empty.
    Parsed { owner: Seq<char>, repo: Seq<char> },
    /// The location names the hosting site but no path follows it.
    InvalidUrl,
    /// Fewer than two path segments remain.
    MissingSegments,
    /// The owner or the repository segment is empty.
    EmptySegment,
}

/// Splits `t` at its first two slashes: the owner segment, then the
/// repository segment with any trailing `.git` suffixes removed.
pub open spec fn segments_outcome(t: Seq<char>) -> RepoUrlOutcome {
    let i1 = index_of_char(t, '/');
    if i1 == t.len() {
        RepoUrlOutcome::MissingSegments
    } else {
        let owner = t.take(i1);
        let rest = t.skip(i1 + 1);
        let repo = strip_suffix_repeat(rest.take(index_of_char(rest, '/')), ".git"@);
        if owner.len() == 0 || repo.len() == 0 {
            RepoUrlOutcome::EmptySegment
        } else {
            RepoUrlOutcome::Parsed { owner: owner, repo: repo }
        }
    }
}

/// What `GithubClient::parse_repo_url` does: after cleaning, a location that
/// names the hosting site is read after the first `github.com/`; anything
/// else is read as `owner/repo` directly.
pub open spec fn parse_repo_url_spec(input: Seq<char>) -> RepoUrlOutcome {
    let u = cleaned(input);
    if contains_seq(u, "github.com"@) {
        if contains_seq(u, "github.com/"@) {
            segments_outcome(u.skip(sub_index(u, "github.com/"@) + "github.com/"@.len() as int))
        } else {
            RepoUrlOutcome::InvalidUrl
        }
    } else {
        segments_outcome(u)
    }
}

/// Handle for the hosting API, configured with an optional access token.
#[derive(Debug)]
pub struct GithubClient {
    pub token: Option<String>,
}

impl Clone for GithubClient {
    fn clone(&self) -> (r: Self)
        ensures
            r == *self,
    {
        GithubClient {
            token: match &self.token {
                Some(t) => Some(t.clone()),
                None => None,
            },
        }
    }
}

impl GithubClient {
    /// A handle with the given token, or an anonymous one.
    pub fn new(token: Option<String>) -> (c: Self)
        ensures
            c.token == token,
    {
        GithubClient { token }
    }

    /// Parses a pasted repository location into owner and repository name.
    pub fn parse_repo_url(url: &str) -> (r: Result<RepoIdentifier, String>)
        ensures
            match parse_repo_url_spec(url@) {
                RepoUrlOutcome::Parsed { owner, repo } => (r matches Ok(id) && id.owner@ == owner
                    && id.repo@ == repo),
                RepoUrlOutcome::InvalidUrl => (r matches Err(m) && m@ == "Invalid GitHub URL"@),
                RepoUrlOutcome::MissingSegments => (r matches Err(m) && m@
                    == "URL must contain owner/repo"@),
                RepoUrlOutcome::EmptySegment => (r matches Err(m) && m@
                    == "Owner and repo name cannot be empty"@),
            },
    {
        let v = chars_of(url);
        let n = v.len();
        proof {
            assert(v@.skip(0) =~= v@);
        }
        // Trim leading whitespace.
        let mut lo: usize = 0;
        while lo < n && crate::text::ws_char(v[lo])
            invariant
                lo <= n,
                n == v@.len(),
                v@ == url@,
                trim_front(v@) == trim_front(v@.skip(lo as int)),
            decreases n - lo,
        {
            proof {
                assert(v@.skip(lo as int).drop_first() =~= v@.skip(lo as int + 1));
            }
            lo = lo + 1;
        }
        proof {
            assert(trim_front(v@) == v@.skip(lo as int));
        }
        // Trim trailing whitespace of the remaining region.
        let ghost t = v@.skip(lo as int);
        let mut hi: usize = n;
        proof {
            assert(t.take(n - lo) =~= t);
        }
        while hi > lo && crate::text::ws_char(v[hi - 1])
            invariant
                lo <= hi <= n,
                n == v@.len(),
                t == v@.skip(lo as int),
                trim_back(t) == trim_back(t.take(hi - lo)),
            decreases hi,
        {
            proof {
                assert(t.take(hi - lo).last() == v@[hi - 1]);
                assert(t.take(hi - lo).drop_last() =~= t.take(hi - lo - 1));
            }
            hi = hi - 1;
        }
        proof {
            if hi > lo {
                assert(t.take(hi - lo).last() == v@[hi - 1]);
            }
            assert(trim_back(t) == t.take(hi - lo));
        }
        // Strip trailing slashes.
        let ghost u0 = trim_back(t);
        while hi > lo && v[hi - 1] == '/'
            invariant
                lo <= hi <= n,
                n == v@.len(),
                t == v@.skip(lo as int),
                strip_trailing_char(u0, '/') == strip_trailing_char(t.take(hi - lo), '/'),
            decreases hi,
        {
            proof {
                assert(t.take(hi - lo).last() == v@[hi - 1]);
                assert(t.take(hi - lo).drop_last() =~= t.take(hi - lo - 1));
            }
            hi = hi - 1;
        }
        proof {
            if hi > lo {
                assert(t.take(hi - lo).last() == v@[hi - 1]);
            }
            assert(strip_trailing_char(u0, '/') == t.take(hi - lo));
            assert(t.take(hi - lo) =~= v@.subrange(lo as int, hi as int));
            assert(cleaned(url@) == v@.subrange(lo as int, hi as int));
        }
        let region = sub_vec(&v, lo, hi);
        if contains_lit(&region, "github.com") {
            let needle = chars_of("github.com/");
            match find_sub(&region, &needle) {
                None => Err(String::from_str("Invalid GitHub URL")),
                Some(p) => {
                    let start = lo + p + needle.len();
                    proof {
                        assert(region@.skip(p + needle@.len()) =~= v@.subrange(
                            start as int,
                            hi as int,
                        ));
                    }
                    Self::parse_segments(url, &v, start, hi)
                },
            }
        } else {
            Self::parse_segments(url, &v, lo, hi)
        }
    }

    /// Reads `owner/repo` out of the region `[lo, hi)` of `url`.
    fn parse_segments(url: &str, v: &Vec<char>, lo: usize, hi: usize) -> (r: Result<
        RepoIdentifier,
        String,
    >)
        requires
            v@ == url@,
            lo <= hi <= v@.len(),
        ensures
            match segments_outcome(v@.subrange(lo as int, hi as int)) {
                RepoUrlOutcome::Parsed { owner, repo } => (r matches Ok(id) && id.owner@ == owner
                    && id.repo@ == repo),
                RepoUrlOutcome::MissingSegments => (r matches Err(m) && m@
                    == "URL must contain owner/repo"@),
                RepoUrlOutcome::EmptySegment => (r matches Err(m) && m@
                    == "Owner and repo name cannot be empty"@),
                RepoUrlOutcome::InvalidUrl => false,
            },
    {
        let ghost tseq = v@.subrange(lo as int, hi as int);
        let tvec = sub_vec(v, lo, hi);
        let i1 = find_char_from(&tvec, 0, '/');
        proof {
            assert(tvec@.skip(0) =~= tseq);
            crate::text::lemma_index_of_char(tseq, '/');
        }
        if i1 == hi - lo {
            return Err(String::from_str("URL must contain owner/repo"));
        }
        let ghost rest = tseq.skip(i1 + 1);
        let restvec = sub_vec(v, lo + i1 + 1, hi);
        proof {
            assert(restvec@ =~= rest);
        }
        let i2 = find_char_from(&restvec, 0, '/');
        proof {
            assert(restvec@.skip(0) =~= rest);
            crate::text::lemma_index_of_char(rest, '/');
        }
        // Remove any trailing `.git` suffixes from the repository segment.
        let git = chars_of(".git");
        proof {
            reveal_strlit(".git");
        }
        let mut len: usize = i2;
        while len >= 4 && match_at(&restvec, &git, len - 4)
            invariant
                len <= i2,
                i2 <= restvec@.len(),
                git@ == ".git"@,
                git@.len() == 4,
                restvec@ == rest,
                strip_suffix_repeat(rest.take(i2 as int), ".git"@) == strip_suffix_repeat(
                    rest.take(len as int),
                    ".git"@,
                ),
            decreases len,
        {
            proof {
                assert(rest.take(len as int).subrange(len - 4, len as int) =~= rest.subrange(
                    len - 4,
                    len as int,
                ));
                assert(ends_with(rest.take(len as int), ".git"@));
                assert(rest.take(len as int).take(len - 4) =~= rest.take(len - 4));
            }
            len = len - 4;
        }
        proof {
            if len >= 4 {
                if ends_with(rest.take(len as int), ".git"@) {
                    assert(rest.subrange(len - 4, len as int) =~= rest.take(len as int).subrange(
                        len - 4,
                        len as int,
                    ));
                    assert(occurs_at(rest, ".git"@, len - 4));
                }
            }
            assert(strip_suffix_repeat(rest.take(len as int), ".git"@) == rest.take(len as int));
        }
        if i1 == 0 || len == 0 {
            return Err(String::from_str("Owner and repo name cannot be empty"));
        }
        let owner = url.substring_char(lo, lo + i1).to_owned();
        let repo = url.substring_char(lo + i1 + 1, lo + i1 + 1 + len).to_owned();
        proof {
            assert(url@.subrange(lo as int, lo + i1) =~= tseq.take(i1 as int));
            assert(url@.subrange(lo + i1 + 1, lo + i1 + 1 + len) =~= rest.take(len as int));
        }
        Ok(RepoIdentifier { owner, repo })
    }
}

} // verus!
