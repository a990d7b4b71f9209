//! The risks listed in the pull-request text exported for a plan.

use vstd::prelude::*;
use crate::export_repair::{join_strings, sv};
use crate::text::{chars_of, extend_chars, join, string_of};

verus! {

/// What the PR export reads of the desired estate and the state around it.
#[derive(Clone, Debug, PartialEq, Eq)]
pub struct RiskFacts {
    /// The estate declares a cloud-agent placement.
    pub cloud_agent_placement: bool,
    /// The ids of the estate's sacred exclusions.
    pub sacred_exclusions: Vec<String>,
    /// The sacred overlay ids in force.
    pub overlays: Vec<String>,
    /// The covering plan, if any: whether it is reviewable.
    pub covering_reviewable: Option<bool>,
    /// The covering plan is marked reviewed.
    pub reviewed: bool,
    /// The placement ids of the expired leases.
    pub expired: Vec<String>,
}

pub open spec fn when(c: bool, line: Seq<char>) -> Seq<Seq<char>> {
    if c {
        seq![line]
    } else {
        seq![]
    }
}

/// The risk lines, in the order the PR lists them.
pub open spec fn risk_lines(f: RiskFacts) -> Seq<Seq<char>> {
    when(f.cloud_agent_placement, "cloud-agent: declared, not spawned"@) + when(
        f.sacred_exclusions@.len() > 0,
        "sacred exclusions on estate: "@ + join(sv(f.sacred_exclusions@), ", "@),
    ) + when(f.overlays@.len() > 0, "sacred overlays: "@ + join(sv(f.overlays@), ", "@))
        + match f.covering_reviewable {
        None => seq!["no covering plan on disk; gated apply will refuse"@],
        Some(r) => when(!r, "covering plan is not reviewable"@),
    } + when(!f.reviewed, "plan is not marked reviewed"@) + when(
        f.expired@.len() > 0,
        "expired placement leases: "@ + join(sv(f.expired@), ", "@),
    )
}

fn joined_line(head: &str, items: &Vec<String>) -> (out: String)
    ensures
        out@ == head@ + join(sv(items@), ", "@),
{
    let mut m = chars_of(head);
    let j = join_strings(items, items.len(), ", ");
    assert(sv(items@).take(items@.len() as int) =~= sv(items@));
    extend_chars(&mut m, &j);
    string_of(&m)
}

/// The risks listed for a plan pull request: a declared cloud agent,
/// sacred exclusions and overlays, a missing or unreviewable covering
/// plan, a plan not marked reviewed, and expired placement leases.
pub fn plan_pr_risks(f: &RiskFacts) -> (out: Vec<String>)
    ensures
        sv(out@) == risk_lines(*f),
{
    let mut out: Vec<String> = Vec::new();
    if f.cloud_agent_placement {
        out.push(string_of(&chars_of("cloud-agent: declared, not spawned")));
    }
    let ghost s1 = sv(out@);
    if f.sacred_exclusions.len() > 0 {
        out.push(joined_line("sacred exclusions on estate: ", &f.sacred_exclusions));
    }
    let ghost s2 = sv(out@);
    if f.overlays.len() > 0 {
        out.push(joined_line("sacred overlays: ", &f.overlays));
    }
    let ghost s3 = sv(out@);
    match f.covering_reviewable {
        None => out.push(string_of(&chars_of("no covering plan on disk; gated apply will refuse"))),
        Some(r) => {
            if !r {
                out.push(string_of(&chars_of("covering plan is not reviewable")));
            }
        },
    }
    let ghost s4 = sv(out@);
    if !f.reviewed {
        out.push(string_of(&chars_of("plan is not marked reviewed")));
    }
    let ghost s5 = sv(out@);
    if f.expired.len() > 0 {
        out.push(joined_line("expired placement leases: ", &f.expired));
    }
    assert(sv(out@) =~= risk_lines(*f));
    out
}

} // verus!
