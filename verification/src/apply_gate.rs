//! The gates an apply passes before it writes: a covering plan that can be
//! reviewed and is fresh when asked for, and what an unchanged or drifted
//! estate does without `--force`. The dry run reports the same refusals
//! instead of bailing on the first.

use vstd::prelude::*;
use crate::export_repair::{join_strings, sv};
use crate::text::{chars_of, extend_chars, extend_str, join, string_of};

verus! {

/// What the gates read of the plan that covers the estate's hash.
#[derive(Clone, Copy, Debug, PartialEq, Eq)]
pub struct PlanFacts {
    /// The plan has the plan schema and a blast radius.
    pub reviewable: bool,
    /// Its `against_hash` is fresh against the last apply.
    pub fresh: bool,
    /// Fresh in the strict sense `--require-fresh-plan` asks for.
    pub fresh_strict: bool,
}

/// How the estate compares with the last apply.
#[derive(Clone, Debug, PartialEq, Eq)]
pub enum ApplyIdentity {
    /// Same desired hash, and the actual state matches.
    Unchanged,
    /// Same desired hash, but the actual state drifted; the drift notes.
    Drift(Vec<String>),
    /// Expired leases were forgotten; the placements to restamp.
    LeaseRefresh(Vec<String>),
    /// A new desired state.
    Changed,
}

pub open spec fn gated(require_plan: bool, require_fresh_plan: bool) -> bool {
    require_plan || require_fresh_plan
}

/// Whether the covering plan counts as fresh for this apply.
pub open spec fn plan_fresh(require_fresh_plan: bool, covering: Option<PlanFacts>) -> bool {
    match covering {
        Some(c) => if require_fresh_plan {
            c.fresh_strict
        } else {
            c.fresh
        },
        None => true,
    }
}

/// The apply's plan gate: the refusal, or whether the plan was fresh.
pub open spec fn plan_gate(
    require_plan: bool,
    require_fresh_plan: bool,
    hash: Seq<char>,
    covering: Option<PlanFacts>,
    last_applied: Option<Seq<char>>,
) -> Result<bool, Seq<char>> {
    if gated(require_plan, require_fresh_plan) && covering is None {
        Err("apply gated: no plan on disk for "@ + hash + "; run estate plan first"@)
    } else if gated(require_plan, require_fresh_plan) && (covering matches Some(c) && !c.reviewable) {
        Err(
            "apply gated: covering plan is not reviewable (need schema cell-one.plan.v0 + blast radius)"@,
        )
    } else if require_fresh_plan && !plan_fresh(require_fresh_plan, covering) {
        Err("apply gated: covering plan is stale; against_hash does not match last apply "@
            + match last_applied {
            Some(h) => h,
            None => "-"@,
        } + " (greenfield after apply is refuse)"@)
    } else {
        Ok(plan_fresh(require_fresh_plan, covering))
    }
}

/// The plan gate of an apply. `Ok(fresh)` lets the apply go on and says
/// whether the covering plan was fresh (true with no covering plan).
pub fn apply_plan_gate(
    require_plan: bool,
    require_fresh_plan: bool,
    hash: &str,
    covering: Option<PlanFacts>,
    last_applied: Option<&str>,
) -> (r: Result<bool, String>)
    ensures
        match r {
            Ok(f) => plan_gate(require_plan, require_fresh_plan, hash@, covering, match last_applied {
                Some(h) => Some(h@),
                None => None,
            }) == Ok::<bool, Seq<char>>(f),
            Err(e) => plan_gate(require_plan, require_fresh_plan, hash@, covering, match last_applied {
                Some(h) => Some(h@),
                None => None,
            }) == Err::<bool, Seq<char>>(e@),
        },
{
    let gate = require_plan || require_fresh_plan;
    if gate && covering.is_none() {
        let mut m = chars_of("apply gated: no plan on disk for ");
        extend_str(&mut m, hash);
        extend_str(&mut m, "; run estate plan first");
        return Err(string_of(&m));
    }
    if let Some(c) = covering {
        if gate && !c.reviewable {
            let m = chars_of(
                "apply gated: covering plan is not reviewable (need schema cell-one.plan.v0 + blast radius)",
            );
            return Err(string_of(&m));
        }
    }
    let fresh = match covering {
        Some(c) => if require_fresh_plan {
            c.fresh_strict
        } else {
            c.fresh
        },
        None => true,
    };
    if require_fresh_plan && !fresh {
        let mut m = chars_of(
            "apply gated: covering plan is stale; against_hash does not match last apply ",
        );
        match last_applied {
            Some(h) => extend_str(&mut m, h),
            None => extend_str(&mut m, "-"),
        }
        extend_str(&mut m, " (greenfield after apply is refuse)");
        return Err(string_of(&m));
    }
    Ok(fresh)
}

/// What an apply does after the gates, given how the estate compares.
#[derive(Clone, Debug, PartialEq, Eq)]
pub enum ApplyStep {
    /// Nothing changed: record a no-op audit and write nothing else.
    Unchanged,
    /// The actual state drifted under an unchanged estate: refuse with
    /// this text (the drift notes are printed before it).
    RefuseDrift(String),
    /// Write. `forced` records that `--force` overrode an unchanged or
    /// drifted estate; `note` is printed first.
    Proceed { forced: bool, note: Option<String> },
}

pub open spec fn refresh_text(missing: Seq<String>) -> Seq<char> {
    "apply lease-refresh (forgot expired; restamping "@ + join(sv(missing), ", "@) + ")"@
}

/// The step an apply takes. Importing a pack always proceeds; otherwise an
/// unchanged estate is a no-op and a drifted one is refused, unless
/// `--force`.
pub fn apply_identity_step(identity: &ApplyIdentity, importing: bool, force: bool) -> (r: ApplyStep)
    ensures
        r is Unchanged <==> !importing && identity is Unchanged && !force,
        r is RefuseDrift <==> !importing && identity is Drift && !force,
        r matches ApplyStep::RefuseDrift(e) ==> e@
            == "refuse:drift: pass --force to reconverge (clear reason required)"@,
        r matches ApplyStep::Proceed { forced, note } ==> forced == (force && (identity is Drift
            || identity is Unchanged)) && match note {
            Some(n) => !importing && (identity matches ApplyIdentity::LeaseRefresh(m) && n@
                == refresh_text(m@)),
            None => importing || !(identity is LeaseRefresh),
        },
{
    let forced = force && match identity {
        ApplyIdentity::Drift(_) | ApplyIdentity::Unchanged => true,
        _ => false,
    };
    if !importing {
        match identity {
            ApplyIdentity::Unchanged => {
                if !force {
                    return ApplyStep::Unchanged;
                }
            },
            ApplyIdentity::Drift(_) => {
                if !force {
                    let m = chars_of("refuse:drift: pass --force to reconverge (clear reason required)");
                    return ApplyStep::RefuseDrift(string_of(&m));
                }
            },
            ApplyIdentity::LeaseRefresh(missing) => {
                let mut m = chars_of("apply lease-refresh (forgot expired; restamping ");
                let j = join_strings(missing, missing.len(), ", ");
                assert(sv(missing@).take(missing@.len() as int) =~= sv(missing@));
                extend_chars(&mut m, &j);
                extend_str(&mut m, ")");
                return ApplyStep::Proceed { forced, note: Some(string_of(&m)) };
            },
            ApplyIdentity::Changed => {},
        }
    }
    ApplyStep::Proceed { forced, note: None }
}

// ---------------------------------------------------------------- dry run

/// The refusals a dry run collects, in the order it collects them.
pub open spec fn dry_run_refusal_lines(
    identity: ApplyIdentity,
    force: bool,
    require_plan: bool,
    require_fresh_plan: bool,
    hash: Seq<char>,
    covering: Option<PlanFacts>,
    staged: Option<Seq<char>>,
) -> Seq<Seq<char>> {
    let drift: Seq<Seq<char>> = match identity {
        ApplyIdentity::Drift(notes) => if !force {
            seq![
                "refuse:drift: identical desired hash but actual drifted ("@ + join(sv(notes@), "; "@)
                    + ")"@,
            ]
        } else {
            seq![]
        },
        _ => seq![],
    };
    let no_plan: Seq<Seq<char>> = if gated(require_plan, require_fresh_plan) && covering is None {
        seq!["refuse:no-plan: no covering plan for "@ + hash + "; run estate plan first"@]
    } else {
        seq![]
    };
    let staged_line: Seq<Seq<char>> = match staged {
        Some(s) => seq![s],
        None => seq![],
    };
    let review: Seq<Seq<char>> = match covering {
        Some(c) => if gated(require_plan, require_fresh_plan) && !c.reviewable {
            seq!["refuse:plan: covering plan is not reviewable"@]
        } else {
            seq![]
        },
        None => seq![],
    };
    let stale: Seq<Seq<char>> = match covering {
        Some(c) => if require_fresh_plan && !c.fresh_strict {
            seq!["refuse:stale-plan: covering plan is stale"@]
        } else {
            seq![]
        },
        None => seq![],
    };
    drift + no_plan + staged_line + review + stale
}

/// The refusals a dry run reports instead of bailing: drift without
/// `--force`, a missing, unreviewable, or stale covering plan when one is
/// required, and the staged-enrich refusal.
pub fn dry_run_refusals(
    identity: &ApplyIdentity,
    force: bool,
    require_plan: bool,
    require_fresh_plan: bool,
    hash: &str,
    covering: Option<PlanFacts>,
    staged: Option<&str>,
) -> (out: Vec<String>)
    ensures
        sv(out@) == dry_run_refusal_lines(
            *identity,
            force,
            require_plan,
            require_fresh_plan,
            hash@,
            covering,
            match staged {
                Some(s) => Some(s@),
                None => None,
            },
        ),
{
    let mut out: Vec<String> = Vec::new();
    let gate = require_plan || require_fresh_plan;
    if let ApplyIdentity::Drift(notes) = identity {
        if !force {
            let mut m = chars_of("refuse:drift: identical desired hash but actual drifted (");
            let j = join_strings(notes, notes.len(), "; ");
            assert(sv(notes@).take(notes@.len() as int) =~= sv(notes@));
            extend_chars(&mut m, &j);
            extend_str(&mut m, ")");
            out.push(string_of(&m));
        }
    }
    let ghost s1 = sv(out@);
    if gate && covering.is_none() {
        let mut m = chars_of("refuse:no-plan: no covering plan for ");
        extend_str(&mut m, hash);
        extend_str(&mut m, "; run estate plan first");
        out.push(string_of(&m));
    }
    let ghost s2 = sv(out@);
    if let Some(s) = staged {
        out.push(string_of(&chars_of(s)));
    }
    let ghost s3 = sv(out@);
    if let Some(c) = covering {
        if gate && !c.reviewable {
            out.push(string_of(&chars_of("refuse:plan: covering plan is not reviewable")));
        }
    }
    let ghost s4 = sv(out@);
    if let Some(c) = covering {
        if require_fresh_plan && !c.fresh_strict {
            out.push(string_of(&chars_of("refuse:stale-plan: covering plan is stale")));
        }
    }
    proof {
        let st = match staged {
            Some(s) => Some(s@),
            None => None,
        };
        let full = dry_run_refusal_lines(
            *identity,
            force,
            require_plan,
            require_fresh_plan,
            hash@,
            covering,
            st,
        );
        assert(sv(out@) =~= full);
    }
    out
}

/// How a dry run ends.
#[derive(Clone, Copy, Debug, PartialEq, Eq)]
pub enum DryRunVerdict {
    /// Print the refusals and fail: `apply dry-run would-refuse`.
    WouldRefuse,
    /// The desired hash matches the last apply and nothing drifted.
    Unchanged,
    /// `dry-run ok (no writes)`.
    Clear,
}

/// The end of a dry run: any collected refusal or a would-refuse report
/// fails it; otherwise an unchanged estate without `--force` says so.
pub fn dry_run_verdict(
    refusals: &Vec<String>,
    report_would_refuse: bool,
    identity: &ApplyIdentity,
    force: bool,
) -> (v: DryRunVerdict)
    ensures
        v == if refusals@.len() > 0 || report_would_refuse {
            DryRunVerdict::WouldRefuse
        } else if identity is Unchanged && !force {
            DryRunVerdict::Unchanged
        } else {
            DryRunVerdict::Clear
        },
{
    if refusals.len() > 0 || report_would_refuse {
        return DryRunVerdict::WouldRefuse;
    }
    match identity {
        ApplyIdentity::Unchanged => {
            if !force {
                return DryRunVerdict::Unchanged;
            }
        },
        _ => {},
    }
    DryRunVerdict::Clear
}

/// Without `--require-plan` or `--require-fresh-plan` the plan gate never
/// refuses.
pub proof fn ungated_apply_passes(
    hash: Seq<char>,
    covering: Option<PlanFacts>,
    last_applied: Option<Seq<char>>,
)
    ensures
        plan_gate(false, false, hash, covering, last_applied) is Ok,
{
}

/// A dry run reports a refusal whenever the apply's plan gate would refuse
/// the same estate.
pub proof fn dry_run_sees_every_plan_gate_refusal(
    identity: ApplyIdentity,
    force: bool,
    require_plan: bool,
    require_fresh_plan: bool,
    hash: Seq<char>,
    covering: Option<PlanFacts>,
    last_applied: Option<Seq<char>>,
    staged: Option<Seq<char>>,
)
    requires
        plan_gate(require_plan, require_fresh_plan, hash, covering, last_applied) is Err,
    ensures
        dry_run_refusal_lines(
            identity,
            force,
            require_plan,
            require_fresh_plan,
            hash,
            covering,
            staged,
        ).len() > 0,
{
}

} // verus!
