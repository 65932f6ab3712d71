//! Shared detection machinery: aggregating workflow text, matching a curated
//! keyword list against it, and rendering the matches for the detail message.
//! Keeping this in one place makes every detection rule auditable in
//! isolation from fetching concerns.

use vstd::prelude::*;

use crate::gateway::ApiErrorView;
use crate::gateway::GithubContent;
use crate::gateway::GithubContentView;
use crate::gateway::RepoSnapshot;
use crate::models::Check;
use crate::models::CheckResult;
use crate::models::CheckView;
use crate::models::ResultView;
use crate::models::failed_view;
use crate::models::passed_view;
use crate::text::chars_of;
use crate::text::contains_lit;
use crate::text::contains_seq;
use crate::text::ends_with;
use crate::text::ends_with_lit;

verus! {

/// Whether a file name is a workflow YAML name.
pub open spec fn is_yaml_name(n: Seq<char>) -> bool {
    ends_with(n, ".yml"@) || ends_with(n, ".yaml"@)
}

/// What one listed file contributes to the aggregated workflow text: its
/// fetched text plus a terminating newline, or nothing.
pub open spec fn file_text_contrib(f: GithubContentView) -> Seq<char> {
    if is_yaml_name(f.name) && f.content is Some {
        f.content->0 + seq!['\n']
    } else {
        Seq::empty()
    }
}

/// The concatenated text of every fetched workflow YAML file, in listing
/// order.
pub open spec fn agg_files(files: Seq<GithubContentView>) -> Seq<char>
    decreases files.len(),
{
    if files.len() == 0 {
        Seq::empty()
    } else {
        agg_files(files.drop_last()) + file_text_contrib(files.last())
    }
}

/// The aggregated workflow text of a snapshot: empty when the listing itself
/// failed (a missing workflow directory is not an error).
pub open spec fn agg_text(wf: Result<Seq<GithubContentView>, ApiErrorView>) -> Seq<char> {
    match wf {
        Ok(files) => agg_files(files),
        Err(_) => Seq::empty(),
    }
}

/// Fetches nothing: concatenates the already-fetched workflow YAML texts.
pub fn aggregate_workflow_chars(snap: &RepoSnapshot) -> (v: Vec<char>)
    ensures
        v@ == agg_text(snap@.workflow_files),
{
    match &snap.workflow_files {
        Err(_) => Vec::new(),
        Ok(files) => {
            let ghost fviews = files@.map_values(|g: GithubContent| g@);
            let mut v: Vec<char> = Vec::new();
            let mut i: usize = 0;
            proof {
                assert(fviews.take(0) =~= Seq::<GithubContentView>::empty());
            }
            while i < files.len()
                invariant
                    i <= files@.len(),
                    fviews == files@.map_values(|g: GithubContent| g@),
                    v@ == agg_files(fviews.take(i as int)),
                decreases files@.len() - i,
            {
                let f = &files[i];
                let name_chars = chars_of(f.name.as_str());
                let is_yaml = ends_with_lit(&name_chars, ".yml") || ends_with_lit(
                    &name_chars,
                    ".yaml",
                );
                if is_yaml {
                    match &f.content {
                        Some(text) => {
                            let mut tc = chars_of(text.as_str());
                            v.append(&mut tc);
                            v.push('\n');
                        },
                        None => {},
                    }
                }
                proof {
                    assert(fviews.take(i + 1).drop_last() =~= fviews.take(i as int));
                    assert(fviews.take(i + 1).last() == fviews[i as int]);
                    assert(v@ =~= agg_files(fviews.take(i + 1)));
                }
                i = i + 1;
            }
            proof {
                assert(fviews.take(files@.len() as int) =~= fviews);
            }
            v
        },
    }
}

/// The views of a list of keyword literals.
pub open spec fn kw_views(kws: Seq<&str>) -> Seq<Seq<char>> {
    kws.map_values(|k: &str| k@)
}

/// The keywords of `kws` that occur in `text`, in list order.
pub open spec fn matched(text: Seq<char>, kws: Seq<Seq<char>>) -> Seq<Seq<char>>
    decreases kws.len(),
{
    if kws.len() == 0 {
        Seq::empty()
    } else {
        matched(text, kws.drop_last()) + if contains_seq(text, kws.last()) {
            seq![kws.last()]
        } else {
            Seq::<Seq<char>>::empty()
        }
    }
}

/// The pieces of `xs` joined with a comma and a space.
pub open spec fn join_comma(xs: Seq<Seq<char>>) -> Seq<char>
    decreases xs.len(),
{
    if xs.len() == 0 {
        Seq::empty()
    } else if xs.len() == 1 {
        xs[0]
    } else {
        join_comma(xs.drop_last()) + ", "@ + xs.last()
    }
}

/// Filters `kws` down to the keywords occurring in `text`.
pub fn matched_keywords<'a>(text: &Vec<char>, kws: &Vec<&'a str>) -> (found: Vec<&'a str>)
    ensures
        found@.map_values(|k: &str| k@) == matched(text@, kw_views(kws@)),
{
    let ghost views = kw_views(kws@);
    let mut found: Vec<&str> = Vec::new();
    let mut i: usize = 0;
    proof {
        assert(found@.map_values(|k: &str| k@) =~= matched(text@, views.take(0)));
    }
    while i < kws.len()
        invariant
            i <= kws@.len(),
            views == kw_views(kws@),
            found@.map_values(|k: &str| k@) == matched(text@, views.take(i as int)),
        decreases kws@.len() - i,
    {
        if contains_lit(text, kws[i]) {
            found.push(kws[i]);
        }
        proof {
            assert(views.take(i + 1).drop_last() =~= views.take(i as int));
            assert(views.take(i + 1).last() == views[i as int]);
            assert(found@.map_values(|k: &str| k@) =~= matched(text@, views.take(i + 1)));
        }
        i = i + 1;
    }
    proof {
        assert(views.take(kws@.len() as int) =~= views);
    }
    found
}

/// Joins keyword literals with a comma and a space.
pub fn join_comma_strs(items: &Vec<&str>) -> (s: String)
    ensures
        s@ == join_comma(items@.map_values(|k: &str| k@)),
{
    let ghost views = items@.map_values(|k: &str| k@);
    let mut s = String::new();
    let mut i: usize = 0;
    while i < items.len()
        invariant
            i <= items@.len(),
            views == items@.map_values(|k: &str| k@),
            s@ == join_comma(views.take(i as int)),
        decreases items@.len() - i,
    {
        if i > 0 {
            s.append(", ");
        }
        s.append(items[i]);
        proof {
            assert(views.take(i + 1).drop_last() =~= views.take(i as int));
            assert(views.take(i + 1).last() == views[i as int]);
            if i == 0 {
                assert(s@ =~= join_comma(views.take(i + 1)));
            } else {
                assert(s@ =~= join_comma(views.take(i + 1)));
            }
        }
        i = i + 1;
    }
    proof {
        assert(views.take(items@.len() as int) =~= views);
    }
    s
}

/// Joins owned strings with a comma and a space.
pub fn join_comma_strings(items: &Vec<String>) -> (s: String)
    ensures
        s@ == join_comma(items@.map_values(|k: String| k@)),
{
    let ghost views = items@.map_values(|k: String| k@);
    let mut s = String::new();
    let mut i: usize = 0;
    while i < items.len()
        invariant
            i <= items@.len(),
            views == items@.map_values(|k: String| k@),
            s@ == join_comma(views.take(i as int)),
        decreases items@.len() - i,
    {
        if i > 0 {
            s.append(", ");
        }
        s.append(items[i].as_str());
        proof {
            assert(views.take(i + 1).drop_last() =~= views.take(i as int));
            assert(views.take(i + 1).last() == views[i as int]);
            assert(s@ =~= join_comma(views.take(i + 1)));
        }
        i = i + 1;
    }
    proof {
        assert(views.take(items@.len() as int) =~= views);
    }
    s
}

/// The model of a detection verdict over a keyword list: pass when at least
/// `min` of the keywords occur, listing the matches; fail with the given
/// texts otherwise.
pub open spec fn keyword_check_spec(
    c: CheckView,
    text: Seq<char>,
    kws: Seq<Seq<char>>,
    min: int,
    pass_prefix: Seq<char>,
    fail_detail: Seq<char>,
    fail_suggestion: Seq<char>,
) -> ResultView {
    let found = matched(text, kws);
    if found.len() >= min {
        passed_view(c, pass_prefix + join_comma(found))
    } else {
        failed_view(c, fail_detail, fail_suggestion)
    }
}

/// Detection over a keyword list: at least `min` matches pass the check and
/// are listed in the detail for auditability.
pub fn keyword_check(
    check: Check,
    text: &Vec<char>,
    kws: &Vec<&str>,
    min: usize,
    pass_prefix: &str,
    fail_detail: &str,
    fail_suggestion: &str,
) -> (r: CheckResult)
    ensures
        r@ == keyword_check_spec(
            check@,
            text@,
            kw_views(kws@),
            min as int,
            pass_prefix@,
            fail_detail@,
            fail_suggestion@,
        ),
{
    let found = matched_keywords(text, kws);
    if found.len() >= min {
        let mut detail = String::from_str(pass_prefix);
        let joined = join_comma_strs(&found);
        detail.append(joined.as_str());
        CheckResult::passed(check, detail.as_str())
    } else {
        CheckResult::failed(check, fail_detail, fail_suggestion)
    }
}

} // verus!
