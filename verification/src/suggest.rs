//! Suggested hand edits for floor drift: a patch note that nothing applies.

use vstd::prelude::*;
use crate::text::{chars_of, equals_str, extend_str, string_of};

verus! {

pub const SUGGEST_SCHEMA: &'static str = "cell-one.reconcile-suggest.v0";

/// One refusal of a floor reconcile: its code and what it is about.
#[derive(Clone, Debug, PartialEq, Eq)]
pub struct RefuseLine {
    pub code: String,
    pub subject: String,
}

/// What a suggestion reads of a floor reconcile report.
#[derive(Clone, Debug, PartialEq, Eq)]
pub struct ReconcileSummary {
    pub in_sync: bool,
    pub desired_hash: String,
    pub refuses: Vec<RefuseLine>,
}

/// The hand edit suggested for a refusal code; an unknown code is its own
/// hint.
pub open spec fn hint_for(code: Seq<char>) -> Seq<char> {
    if code == "missing-lease"@ {
        "run `estate apply` or `estate resume` (do not invent a lease file)"@
    } else if code == "extra-lease"@ {
        "add this placement to estate.yaml or drop the extra lease by hand after review"@
    } else if code == "kind-mismatch"@ {
        "edit the estate placement kind, then apply; do not rewrite placement-actual.json"@
    } else if code == "host-class-mismatch"@ {
        "fail closed: fix host_class on the estate (portable name), then apply"@
    } else if code == "cloud-spawned"@ {
        "refuse: unspawn by hand; floor must not spawn cloud-agent"@
    } else if code == "expired"@ {
        "run `estate expire --forget`, then apply/resume"@
    } else if code == "sacred-id"@ {
        "refuse:sacred-id: remove the sacred id from the lease by hand"@
    } else {
        code
    }
}

pub open spec fn refuse_line_text(r: RefuseLine) -> Seq<char> {
    "  refuse:"@ + r.code@ + ": "@ + r.subject@ + " — "@ + hint_for(r.code@) + "\n"@
}

/// The hint lines of the first `n` refusals.
pub open spec fn refuse_lines(rs: Seq<RefuseLine>, n: int) -> Seq<char>
    decreases n,
{
    if n <= 0 {
        Seq::empty()
    } else {
        refuse_lines(rs, n - 1) + refuse_line_text(rs[n - 1])
    }
}

pub open spec fn bool_text(b: bool) -> Seq<char> {
    if b {
        "true"@
    } else {
        "false"@
    }
}

/// The header every suggestion starts with.
pub open spec fn suggest_head(in_sync: bool, hash: Seq<char>) -> Seq<char> {
    "Reconcile suggest (patch file only)\n"@ + "===================================\n"@
        + "schema: "@ + SUGGEST_SCHEMA@ + "\n"@ + "auto_apply: false\n"@
        + "The factory will not apply this file. Jason edits estate.yaml or runs apply/expire by hand.\n\n"@
        + "in_sync: "@ + bool_text(in_sync) + "\n"@ + "desired_hash: "@ + hash + "\n\n"@
}

/// The whole patch note for a reconcile report.
pub open spec fn suggest_text(r: ReconcileSummary) -> Seq<char> {
    let head = suggest_head(r.in_sync, r.desired_hash@);
    if r.in_sync {
        head + "No patch. Desired and actual match. Cloud-agent stays unspawned.\n"@
    } else {
        head + "Suggested hand edits\n--------------------\n"@ + (if r.refuses@.len() == 0 {
            "  Drift without a refuse code. Re-run `estate apply` after you review.\n"@
        } else {
            Seq::empty()
        }) + refuse_lines(r.refuses@, r.refuses@.len() as int)
            + "\nNot applied. No estate rewrite. No lease rewrite.\n"@
    }
}

fn hint_exec(code: &str) -> (r: &str)
    ensures
        r@ == hint_for(code@),
{
    let c = chars_of(code);
    if equals_str(&c, "missing-lease") {
        "run `estate apply` or `estate resume` (do not invent a lease file)"
    } else if equals_str(&c, "extra-lease") {
        "add this placement to estate.yaml or drop the extra lease by hand after review"
    } else if equals_str(&c, "kind-mismatch") {
        "edit the estate placement kind, then apply; do not rewrite placement-actual.json"
    } else if equals_str(&c, "host-class-mismatch") {
        "fail closed: fix host_class on the estate (portable name), then apply"
    } else if equals_str(&c, "cloud-spawned") {
        "refuse: unspawn by hand; floor must not spawn cloud-agent"
    } else if equals_str(&c, "expired") {
        "run `estate expire --forget`, then apply/resume"
    } else if equals_str(&c, "sacred-id") {
        "refuse:sacred-id: remove the sacred id from the lease by hand"
    } else {
        code
    }
}

/// The patch note for `report`. It only suggests: the factory never
/// applies it, and nothing here rewrites leases or the estate.
pub fn render_suggest(report: &ReconcileSummary) -> (out: String)
    ensures
        out@ == suggest_text(*report),
{
    let mut m = chars_of("Reconcile suggest (patch file only)\n");
    extend_str(&mut m, "===================================\n");
    extend_str(&mut m, "schema: ");
    extend_str(&mut m, SUGGEST_SCHEMA);
    extend_str(&mut m, "\n");
    extend_str(&mut m, "auto_apply: false\n");
    extend_str(
        &mut m,
        "The factory will not apply this file. Jason edits estate.yaml or runs apply/expire by hand.\n\n",
    );
    extend_str(&mut m, "in_sync: ");
    extend_str(&mut m, if report.in_sync { "true" } else { "false" });
    extend_str(&mut m, "\n");
    extend_str(&mut m, "desired_hash: ");
    extend_str(&mut m, report.desired_hash.as_str());
    extend_str(&mut m, "\n\n");
    let ghost head = m@;
    assert(head == suggest_head(report.in_sync, report.desired_hash@));
    if report.in_sync {
        extend_str(&mut m, "No patch. Desired and actual match. Cloud-agent stays unspawned.\n");
        return string_of(&m);
    }
    extend_str(&mut m, "Suggested hand edits\n--------------------\n");
    if report.refuses.len() == 0 {
        extend_str(
            &mut m,
            "  Drift without a refuse code. Re-run `estate apply` after you review.\n",
        );
    }
    let ghost lead = m@;
    for i in 0..report.refuses.len()
        invariant
            m@ == lead + refuse_lines(report.refuses@, i as int),
    {
        let r = &report.refuses[i];
        let ghost before = m@;
        extend_str(&mut m, "  refuse:");
        extend_str(&mut m, r.code.as_str());
        extend_str(&mut m, ": ");
        extend_str(&mut m, r.subject.as_str());
        extend_str(&mut m, " — ");
        extend_str(&mut m, hint_exec(r.code.as_str()));
        extend_str(&mut m, "\n");
        assert(m@ =~= before + refuse_line_text(*r));
        assert(lead + refuse_lines(report.refuses@, i + 1) =~= lead + refuse_lines(
            report.refuses@,
            i as int,
        ) + refuse_line_text(report.refuses@[i as int]));
    }
    extend_str(&mut m, "\nNot applied. No estate rewrite. No lease rewrite.\n");
    let out = string_of(&m);
    assert(out@ =~= suggest_text(*report));
    out
}

} // verus!
