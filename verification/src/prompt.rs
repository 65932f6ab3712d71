//! Building the review prompt: the failed checks of a report and an optional
//! workflow snippet, rendered into the fixed request text that the external
//! text-generation collaborator consumes.

use vstd::prelude::*;

use crate::models::CheckCategory;
use crate::models::CheckResult;
use crate::models::CheckStatus;
use crate::models::ResultView;
use crate::models::category_label;
use crate::score::CategoryScoreView;
use crate::score::ScoreReport;
use crate::score::ScoreReportView;
use crate::text::append_dec;
use crate::text::dec_str;

verus! {

/// One rendered line for a failed check.
pub open spec fn failed_line(cat: CheckCategory, r: ResultView) -> Seq<char> {
    "- ["@ + category_label(cat) + "] "@ + r.check.name + ": "@ + r.detail
}

/// The rendered lines for the failed results of one category, in order.
pub open spec fn res_failed_lines(cat: CheckCategory, rs: Seq<ResultView>) -> Seq<Seq<char>>
    decreases rs.len(),
{
    if rs.len() == 0 {
        Seq::empty()
    } else {
        res_failed_lines(cat, rs.drop_last()) + if rs.last().status == CheckStatus::Failed {
            seq![failed_line(cat, rs.last())]
        } else {
            Seq::<Seq<char>>::empty()
        }
    }
}

/// The rendered lines for every failed check of the report, category by
/// category in report order.
pub open spec fn failed_lines(cats: Seq<CategoryScoreView>) -> Seq<Seq<char>>
    decreases cats.len(),
{
    if cats.len() == 0 {
        Seq::empty()
    } else {
        failed_lines(cats.drop_last()) + res_failed_lines(
            cats.last().category,
            cats.last().results,
        )
    }
}

/// The pieces of `xs` joined with a newline.
pub open spec fn join_nl(xs: Seq<Seq<char>>) -> Seq<char>
    decreases xs.len(),
{
    if xs.len() == 0 {
        Seq::empty()
    } else if xs.len() == 1 {
        xs[0]
    } else {
        join_nl(xs.drop_last()) + "\n"@ + xs.last()
    }
}

/// The failed-checks section: the joined lines, or a cheerful note.
pub open spec fn failed_summary(cats: Seq<CategoryScoreView>) -> Seq<char> {
    if failed_lines(cats).len() == 0 {
        "No failed checks"@
    } else {
        join_nl(failed_lines(cats))
    }
}

/// How many evaluated checks did not pass; never below zero.
pub open spec fn failed_count(passed: u32, total: u32) -> int {
    if passed <= total {
        total - passed
    } else {
        0
    }
}

/// The workflow snippet, cut to its first three thousand characters.
pub open spec fn truncated_yaml(y: Seq<char>) -> Seq<char> {
    if y.len() > 3000 {
        y.take(3000) + "... (truncated)"@
    } else {
        y
    }
}

/// The optional workflow section of the prompt.
pub open spec fn yaml_section(yaml: Option<Seq<char>>) -> Seq<char> {
    match yaml {
        Some(y) => "\n\n## Main CI workflow (YAML)\n```yaml\n"@ + truncated_yaml(y) + "\n```"@,
        None => Seq::empty(),
    }
}

/// The JSON shape the collaborator is asked to answer in.
pub open spec fn schema_text() -> Seq<char> {
    "{\n  \"summary\": \"Overall summary in two or three sentences\",\n  \"recommendations\": [\n    {\n      \"title\": \"Short title\",\n      \"description\": \"Detailed and actionable description\",\n      \"priority\": \"high\" | \"medium\" | \"low\"\n    }\n  ]\n}"@
}

/// What `AiClient::build_prompt` returns.
pub open spec fn prompt_spec(rv: ScoreReportView, yaml: Option<Seq<char>>) -> Seq<char> {
    "Analyze the CI/CD report of the repository `"@ + rv.repository
        + "` and provide concrete recommendations.\n\n## Failed checks ("@ + dec_str(
        failed_count(rv.passed, rv.total),
    ) + " of "@ + dec_str(rv.total as int) + ")\n"@ + failed_summary(rv.categories) + yaml_section(
        yaml,
    ) + "\n\nRespond in JSON with this exact format:\n"@ + schema_text()
        + "\n\nGive 3 to 6 recommendations prioritized by impact. Respond only with valid JSON, with no extra text."@
}

/// Joins owned strings with a newline.
fn join_nl_strings(items: &Vec<String>) -> (s: String)
    ensures
        s@ == join_nl(items@.map_values(|k: String| k@)),
{
    let ghost views = items@.map_values(|k: String| k@);
    let mut s = String::new();
    let mut i: usize = 0;
    while i < items.len()
        invariant
            i <= items@.len(),
            views == items@.map_values(|k: String| k@),
            s@ == join_nl(views.take(i as int)),
        decreases items@.len() - i,
    {
        if i > 0 {
            s.append("\n");
        }
        s.append(items[i].as_str());
        proof {
            assert(views.take(i + 1).drop_last() =~= views.take(i as int));
            assert(views.take(i + 1).last() == views[i as int]);
            assert(s@ =~= join_nl(views.take(i + 1)));
        }
        i = i + 1;
    }
    proof {
        assert(views.take(items@.len() as int) =~= views);
    }
    s
}

/// Thin handle for the external review collaborator; `new` fails gracefully
/// when no token is available so callers can show an unavailable state
/// without extra branching.
#[derive(Debug)]
pub struct AiClient {
    pub token: String,
}

impl AiClient {
    /// A client when a token is available, nothing otherwise.
    pub fn new(token: Option<String>) -> (r: Option<Self>)
        ensures
            match token {
                Some(t) => (r matches Some(c) && c.token == t),
                None => r is None,
            },
    {
        match token {
            Some(t) => Some(AiClient { token: t }),
            None => None,
        }
    }

    /// The rendered lines of every failed check of the report.
    pub fn collect_failed_checks(report: &ScoreReport) -> (lines: Vec<String>)
        ensures
            lines@.map_values(|s: String| s@) == failed_lines(report@.categories),
    {
        let ghost catviews = report.categories@.map_values(
            |c: crate::score::CategoryScore| c@,
        );
        let mut lines: Vec<String> = Vec::new();
        let mut k: usize = 0;
        proof {
            assert(lines@.map_values(|s: String| s@) =~= failed_lines(catviews.take(0)));
        }
        while k < report.categories.len()
            invariant
                k <= report.categories@.len(),
                catviews == report.categories@.map_values(|c: crate::score::CategoryScore| c@),
                lines@.map_values(|s: String| s@) == failed_lines(catviews.take(k as int)),
            decreases report.categories@.len() - k,
        {
            let cat = &report.categories[k];
            let ghost catv = catviews[k as int];
            let ghost rviews = catv.results;
            let mut j: usize = 0;
            proof {
                assert(rviews.take(0) =~= Seq::<ResultView>::empty());
                assert(lines@.map_values(|s: String| s@) =~= failed_lines(catviews.take(k as int))
                    + res_failed_lines(catv.category, rviews.take(0)));
            }
            while j < cat.results.len()
                invariant
                    j <= cat.results@.len(),
                    catviews == report.categories@.map_values(
                        |c: crate::score::CategoryScore| c@,
                    ),
                    k < report.categories@.len(),
                    cat == report.categories@[k as int],
                    catv == catviews[k as int],
                    rviews == catv.results,
                    rviews == cat.results@.map_values(|r: CheckResult| r@),
                    lines@.map_values(|s: String| s@) == failed_lines(catviews.take(k as int))
                        + res_failed_lines(catv.category, rviews.take(j as int)),
                decreases cat.results@.len() - j,
            {
                let r = &cat.results[j];
                proof {
                    assert(rviews[j as int] == cat.results@[j as int]@);
                }
                let ghost target = failed_lines(catviews.take(k as int)) + res_failed_lines(
                    catv.category,
                    rviews.take(j + 1),
                );
                match r.status {
                    CheckStatus::Failed => {
                        let mut line = String::from_str("- [");
                        line.append(cat.category.label());
                        line.append("] ");
                        line.append(r.check.name.as_str());
                        line.append(": ");
                        line.append(r.detail.as_str());
                        proof {
                            assert(line@ =~= failed_line(catv.category, rviews[j as int]));
                        }
                        let ghost lv = line@;
                        let ghost prev = lines@;
                        lines.push(line);
                        proof {
                            assert(prev.map_values(|s: String| s@).len() == prev.len());
                            assert(rviews.take(j + 1).drop_last() =~= rviews.take(j as int));
                            assert(rviews.take(j + 1).last() == rviews[j as int]);
                            assert forall|m: int| 0 <= m < prev.len() + 1 implies #[trigger] target[m]
                                == lines@.map_values(|s: String| s@)[m] by {
                                if m < prev.len() {
                                    assert(lines@[m] == prev[m]);
                                    assert(prev.map_values(|s: String| s@)[m] == target[m]);
                                } else {
                                    assert(lines@[m]@ == lv);
                                }
                            }
                            assert(lines@.map_values(|s: String| s@) =~= target);
                        }
                    },
                    _ => {
                        proof {
                            assert(rviews.take(j + 1).drop_last() =~= rviews.take(j as int));
                            assert(rviews.take(j + 1).last() == rviews[j as int]);
                            assert(lines@.map_values(|s: String| s@) =~= target);
                        }
                    },
                }
                j = j + 1;
            }
            proof {
                assert(rviews.take(cat.results@.len() as int) =~= rviews);
                assert(catviews.take(k + 1).drop_last() =~= catviews.take(k as int));
                assert(catviews.take(k + 1).last() == catviews[k as int]);
                assert(lines@.map_values(|s: String| s@) =~= failed_lines(catviews.take(k + 1)));
            }
            k = k + 1;
        }
        proof {
            assert(catviews.take(report.categories@.len() as int) =~= catviews);
        }
        lines
    }

    /// Builds the review prompt from the report and an optional workflow
    /// snippet; the snippet is cut to its first three thousand characters so
    /// the request stays within context limits.
    pub fn build_prompt(report: &ScoreReport, workflow_yaml: Option<&str>) -> (p: String)
        ensures
            p@ == prompt_spec(
                report@,
                match workflow_yaml {
                    Some(y) => Some(y@),
                    None => None,
                },
            ),
    {
        let lines = Self::collect_failed_checks(report);
        let mut p = String::from_str("Analyze the CI/CD report of the repository `");
        p.append(report.repository.as_str());
        p.append("` and provide concrete recommendations.\n\n## Failed checks (");
        let failed: u32 = if report.passed <= report.total {
            report.total - report.passed
        } else {
            0
        };
        append_dec(&mut p, failed as u64);
        p.append(" of ");
        append_dec(&mut p, report.total as u64);
        p.append(")\n");
        if lines.len() == 0 {
            p.append("No failed checks");
        } else {
            let joined = join_nl_strings(&lines);
            p.append(joined.as_str());
        }
        match workflow_yaml {
            Some(y) => {
                p.append("\n\n## Main CI workflow (YAML)\n```yaml\n");
                let ylen = y.unicode_len();
                if ylen > 3000 {
                    let snippet = y.substring_char(0, 3000);
                    p.append(snippet);
                    p.append("... (truncated)");
                } else {
                    p.append(y);
                }
                p.append("\n```");
            },
            None => {},
        }
        p.append("\n\nRespond in JSON with this exact format:\n");
        p.append(
            "{\n  \"summary\": \"Overall summary in two or three sentences\",\n  \"recommendations\": [\n    {\n      \"title\": \"Short title\",\n      \"description\": \"Detailed and actionable description\",\n      \"priority\": \"high\" | \"medium\" | \"low\"\n    }\n  ]\n}",
        );
        p.append(
            "\n\nGive 3 to 6 recommendations prioritized by impact. Respond only with valid JSON, with no extra text.",
        );
        proof {
            assert(p@ =~= prompt_spec(
                report@,
                match workflow_yaml {
                    Some(y) => Some(y@),
                    None => None,
                },
            ));
        }
        p
    }
}

} // verus!
