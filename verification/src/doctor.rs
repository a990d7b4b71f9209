//! The doctor's decisions: which checks fail, the one-line summary the
//! status command prints, the expired-lease refusals, and the lines the
//! doctor prints for state it does not interpret.

use vstd::prelude::*;
use crate::ci::{string_views, HostedCiStatus};
use crate::export_repair::sv;
use crate::text::{chars_of, decimal, equals_str, extend_chars, extend_str, push_decimal, string_of};

verus! {

/// The files a healthy checkout holds, relative to its root.
pub open spec fn doctor_required() -> Seq<Seq<char>> {
    seq![
        "schema/estate.v0.schema.json"@,
        "schema/pack.v0.json"@,
        "schema/specialist-pack.v0.json"@,
        "schema/placement-actual.v0.json"@,
        "schema/reconcile.v0.json"@,
        "schema/conveyor-mesh.v0.json"@,
        "schema/local-catalog.v0.json"@,
        "schema/lifecycle.v0.json"@,
        "schema/estate-plan.v0.json"@,
        "schema/feed-cursor.v0.json"@,
        "schema/enrich-proposal.v0.json"@,
        "schema/train-enrich.v0.json"@,
        "schema/enrich-binding-proposal.v0.json"@,
        "schema/apply-dry-run.v0.json"@,
        "schema/session-journal.v0.json"@,
        "schema/policy.v0.json"@,
        "schema/cell-backup.v0.json"@,
        "schema/sacred.v0.json"@,
        "policy/cell-one.policy.v0.yaml"@,
        "policy/sacred.yaml"@,
        "schema/README.md"@,
        "docs/GATE-90.md"@,
        "CHANGELOG.md"@,
        "docs/MORNING-BRIEF-2026-09-21.md"@,
        "docs/PR2-DESCRIPTION.md"@,
    ]
}

pub const DOCTOR_REQUIRED_COUNT: usize = 25;

/// The `i`-th required file.
pub fn doctor_required_file(i: usize) -> (r: &'static str)
    requires
        i < DOCTOR_REQUIRED_COUNT,
    ensures
        r@ == doctor_required()[i as int],
{
    match i {
        0 => "schema/estate.v0.schema.json",
        1 => "schema/pack.v0.json",
        2 => "schema/specialist-pack.v0.json",
        3 => "schema/placement-actual.v0.json",
        4 => "schema/reconcile.v0.json",
        5 => "schema/conveyor-mesh.v0.json",
        6 => "schema/local-catalog.v0.json",
        7 => "schema/lifecycle.v0.json",
        8 => "schema/estate-plan.v0.json",
        9 => "schema/feed-cursor.v0.json",
        10 => "schema/enrich-proposal.v0.json",
        11 => "schema/train-enrich.v0.json",
        12 => "schema/enrich-binding-proposal.v0.json",
        13 => "schema/apply-dry-run.v0.json",
        14 => "schema/session-journal.v0.json",
        15 => "schema/policy.v0.json",
        16 => "schema/cell-backup.v0.json",
        17 => "schema/sacred.v0.json",
        18 => "policy/cell-one.policy.v0.yaml",
        19 => "policy/sacred.yaml",
        20 => "schema/README.md",
        21 => "docs/GATE-90.md",
        22 => "CHANGELOG.md",
        23 => "docs/MORNING-BRIEF-2026-09-21.md",
        _ => "docs/PR2-DESCRIPTION.md",
    }
}

/// The `i`-th required file is present: `present[i]` says so.
pub open spec fn present_at(present: Seq<bool>, i: int) -> bool {
    0 <= i < present.len() && present[i]
}

/// `missing <file>` for each of the first `n` required files not present.
pub open spec fn missing_required(present: Seq<bool>, n: int) -> Seq<Seq<char>>
    decreases n,
{
    if n <= 0 {
        Seq::empty()
    } else if present_at(present, n - 1) {
        missing_required(present, n - 1)
    } else {
        missing_required(present, n - 1).push("missing "@ + doctor_required()[n - 1])
    }
}

/// The schema-file failures, in listing order.
pub fn required_file_fails(present: &Vec<bool>) -> (out: Vec<String>)
    ensures
        sv(out@) == missing_required(present@, DOCTOR_REQUIRED_COUNT as int),
{
    let mut out: Vec<String> = Vec::new();
    for i in 0..DOCTOR_REQUIRED_COUNT
        invariant
            sv(out@) == missing_required(present@, i as int),
    {
        let here = i < present.len() && present[i];
        if !here {
            let mut m = chars_of("missing ");
            extend_str(&mut m, doctor_required_file(i));
            let ghost before = sv(out@);
            out.push(string_of(&m));
            assert(sv(out@) =~= before.push(m@));
        }
    }
    out
}

/// The hosted-CI failures: none for compile-only CI, one for a missing
/// `ci.yml`, one per extra workflow.
pub open spec fn hosted_fails(s: HostedCiStatus) -> Seq<Seq<char>> {
    match s {
        HostedCiStatus::CompileOnly => Seq::empty(),
        HostedCiStatus::Missing => seq!["missing compile-only ci.yml"@],
        HostedCiStatus::Extra(names) => string_views(names@).map_values(
            |n: Seq<char>| "extra workflow: "@ + n,
        ),
    }
}

pub fn hosted_ci_fails(status: &HostedCiStatus) -> (out: Vec<String>)
    ensures
        sv(out@) == hosted_fails(*status),
{
    let mut out: Vec<String> = Vec::new();
    match status {
        HostedCiStatus::CompileOnly => {},
        HostedCiStatus::Missing => {
            out.push(string_of(&chars_of("missing compile-only ci.yml")));
            assert(sv(out@) =~= hosted_fails(*status));
        },
        HostedCiStatus::Extra(names) => {
            for i in 0..names.len()
                invariant
                    sv(out@) == string_views(names@).take(i as int).map_values(
                        |n: Seq<char>| "extra workflow: "@ + n,
                    ),
            {
                let mut m = chars_of("extra workflow: ");
                extend_str(&mut m, names[i].as_str());
                let ghost before = sv(out@);
                out.push(string_of(&m));
                assert(sv(out@) =~= before.push(m@));
                assert(string_views(names@).take(i + 1).map_values(
                    |n: Seq<char>| "extra workflow: "@ + n,
                ) =~= string_views(names@).take(i as int).map_values(
                    |n: Seq<char>| "extra workflow: "@ + n,
                ).push("extra workflow: "@ + names@[i as int]@));
            }
            assert(string_views(names@).take(names@.len() as int) =~= string_views(names@));
        },
    }
    out
}

pub open spec fn health_text(n: nat) -> Seq<char> {
    "doctor failed ("@ + decimal(n) + " check(s))"@
}

/// The doctor's verdict over every collected failure.
pub fn doctor_health(fails: &Vec<String>) -> (r: Result<(), String>)
    ensures
        r is Ok <==> fails@.len() == 0,
        r matches Err(e) ==> e@ == health_text(fails@.len()),
{
    if fails.len() == 0 {
        return Ok(());
    }
    let mut m = chars_of("doctor failed (");
    push_decimal(&mut m, fails.len() as u64);
    extend_str(&mut m, " check(s))");
    Err(string_of(&m))
}

// ---------------------------------------------------------------- leases

/// A placement lease as the doctor reads it.
#[derive(Clone, Debug, PartialEq, Eq)]
pub struct LeaseFacts {
    pub placement_id: String,
    pub kind: String,
    pub spawned: bool,
    pub expires_at: Option<u64>,
}

pub open spec fn spawned_cloud(l: LeaseFacts) -> bool {
    l.kind@ == "cloud-agent"@ && l.spawned
}

/// The ids of the spawned cloud-agent leases among the first `n`.
pub open spec fn spawned_cloud_ids(ls: Seq<LeaseFacts>, n: int) -> Seq<Seq<char>>
    decreases n,
{
    if n <= 0 {
        Seq::empty()
    } else if spawned_cloud(ls[n - 1]) {
        spawned_cloud_ids(ls, n - 1).push(ls[n - 1].placement_id@)
    } else {
        spawned_cloud_ids(ls, n - 1)
    }
}

fn is_spawned_cloud(l: &LeaseFacts) -> (r: bool)
    ensures
        r == spawned_cloud(*l),
{
    l.spawned && equals_str(&chars_of(l.kind.as_str()), "cloud-agent")
}

fn spawned_ids(ls: &Vec<LeaseFacts>) -> (out: Vec<String>)
    ensures
        sv(out@) == spawned_cloud_ids(ls@, ls@.len() as int),
{
    let mut out: Vec<String> = Vec::new();
    for i in 0..ls.len()
        invariant
            sv(out@) == spawned_cloud_ids(ls@, i as int),
    {
        if is_spawned_cloud(&ls[i]) {
            let ghost before = sv(out@);
            out.push(ls[i].placement_id.clone());
            assert(sv(out@) =~= before.push(ls@[i as int].placement_id@));
        }
    }
    out
}

pub open spec fn expires_text(e: Option<u64>) -> Seq<char> {
    match e {
        Some(t) => decimal(t as nat),
        None => "-"@,
    }
}

pub open spec fn expired_row(l: LeaseFacts) -> Seq<char> {
    "  refuse:expired: "@ + l.placement_id@ + " kind="@ + l.kind@ + " expires_at="@ + expires_text(
        l.expires_at,
    )
}

/// What `expire` does with the expired leases it found.
#[derive(Clone, Debug, PartialEq, Eq)]
pub enum ExpireStep {
    /// Nothing expired under the state directory.
    NothingExpired,
    /// A spawned cloud-agent lease is among them: refuse before listing
    /// and before any rewrite.
    Refuse(String),
    /// Print `lines`; then forget (with `--forget`) or refuse.
    Listed { lines: Vec<String>, forget: bool },
}

pub open spec fn expired_lines(header: Seq<char>, ls: Seq<LeaseFacts>) -> Seq<Seq<char>> {
    seq![header + " ("@ + decimal(ls.len()) + ")"@] + ls.map_values(|l: LeaseFacts| expired_row(l))
}

/// The header line and one refusal row per expired lease.
pub fn expired_listing(header: &str, ls: &Vec<LeaseFacts>) -> (out: Vec<String>)
    ensures
        sv(out@) == expired_lines(header@, ls@),
{
    let mut out: Vec<String> = Vec::new();
    let mut h = chars_of(header);
    extend_str(&mut h, " (");
    push_decimal(&mut h, ls.len() as u64);
    extend_str(&mut h, ")");
    out.push(string_of(&h));
    let ghost first = sv(out@);
    for i in 0..ls.len()
        invariant
            first == seq![header@ + " ("@ + decimal(ls@.len()) + ")"@],
            sv(out@) == first + ls@.take(i as int).map_values(|l: LeaseFacts| expired_row(l)),
    {
        let l = &ls[i];
        let mut m = chars_of("  refuse:expired: ");
        extend_str(&mut m, l.placement_id.as_str());
        extend_str(&mut m, " kind=");
        extend_str(&mut m, l.kind.as_str());
        extend_str(&mut m, " expires_at=");
        match l.expires_at {
            Some(t) => push_decimal(&mut m, t),
            None => extend_str(&mut m, "-"),
        }
        let ghost before = sv(out@);
        out.push(string_of(&m));
        assert(sv(out@) =~= before.push(expired_row(*l)));
        assert(ls@.take(i + 1).map_values(|l: LeaseFacts| expired_row(l)) =~= ls@.take(
            i as int,
        ).map_values(|l: LeaseFacts| expired_row(l)).push(expired_row(*l)));
    }
    assert(ls@.take(ls@.len() as int) =~= ls@);
    out
}

/// `estate expire`: nothing to do, a refusal for a spawned cloud-agent
/// lease (still spawned though expired), or the listing.
pub fn expire_step(expired: &Vec<LeaseFacts>, forget: bool) -> (r: ExpireStep)
    ensures
        r is NothingExpired <==> expired@.len() == 0,
        r matches ExpireStep::Refuse(e) ==> expired@.len() > 0 && spawned_cloud_ids(
            expired@,
            expired@.len() as int,
        ).len() > 0 && e@ == "refuse:cloud-spawned: cloud-agent lease spawned (fail closed): "@
            + crate::text::join(spawned_cloud_ids(expired@, expired@.len() as int), ", "@),
        r matches ExpireStep::Listed { lines, forget: f } ==> expired@.len() > 0 && spawned_cloud_ids(
            expired@,
            expired@.len() as int,
        ).len() == 0 && f == forget && sv(lines@) == expired_lines("expired leases"@, expired@),
{
    if expired.len() == 0 {
        return ExpireStep::NothingExpired;
    }
    let ids = spawned_ids(expired);
    if ids.len() > 0 {
        let mut m = chars_of("refuse:cloud-spawned: cloud-agent lease spawned (fail closed): ");
        let j = crate::export_repair::join_strings(&ids, ids.len(), ", ");
        assert(sv(ids@).take(ids@.len() as int) =~= sv(ids@));
        extend_chars(&mut m, &j);
        return ExpireStep::Refuse(string_of(&m));
    }
    ExpireStep::Listed { lines: expired_listing("expired leases", expired), forget }
}

// ---------------------------------------------------------------- summary

/// What `placement-actual.json` gave the doctor.
#[derive(Clone, Debug, PartialEq, Eq)]
pub enum PlacementsRead {
    Absent,
    Unreadable,
    Leases(Vec<LeaseFacts>),
}

/// The facts the one-line doctor summary counts.
#[derive(Clone, Debug, PartialEq, Eq)]
pub struct SummaryFacts {
    /// Whether each required file is present, in listing order.
    pub required_present: Vec<bool>,
    pub hosted: HostedCiStatus,
    pub placements: PlacementsRead,
    /// How many frontier catalogs (schema card, cell catalog) name a model
    /// that encodes a hardware SKU.
    pub sku_catalogs: u64,
    /// The cell catalog disagrees with the desired snapshot, or either is
    /// unreadable.
    pub cell_binding_problem: bool,
    /// An enrich / train fact or the enrich stage could not be read.
    pub facts_unreadable: bool,
}

pub open spec fn hosted_count(s: HostedCiStatus) -> nat {
    match s {
        HostedCiStatus::CompileOnly => 0,
        HostedCiStatus::Missing => 1,
        HostedCiStatus::Extra(names) => names@.len(),
    }
}

pub open spec fn placements_count(p: PlacementsRead) -> nat {
    match p {
        PlacementsRead::Absent => 0,
        PlacementsRead::Unreadable => 1,
        PlacementsRead::Leases(ls) => if spawned_cloud_ids(ls@, ls@.len() as int).len() > 0 {
            1
        } else {
            0
        },
    }
}

/// The number of failed checks the summary counts.
pub open spec fn summary_count(f: SummaryFacts) -> nat {
    (missing_required(f.required_present@, DOCTOR_REQUIRED_COUNT as int).len() + hosted_count(
        f.hosted,
    ) + placements_count(f.placements) + (f.sku_catalogs as nat) + (if f.cell_binding_problem {
        1nat
    } else {
        0nat
    }) + (if f.facts_unreadable {
        1nat
    } else {
        0nat
    })) as nat
}

pub open spec fn summary_text(n: nat) -> Seq<char> {
    if n == 0 {
        "ok (compile-only CI; schemas present)"@
    } else {
        "FAIL ("@ + decimal(n) + ")"@
    }
}

/// The doctor line `estate status` prints.
pub fn doctor_summary_line(facts: &SummaryFacts) -> (out: String)
    requires
        facts.sku_catalogs <= 2,
        hosted_count(facts.hosted) + 32 <= u64::MAX,
    ensures
        out@ == summary_text(summary_count(*facts)),
{
    let missing = required_file_fails(&facts.required_present);
    let mut fails: u64 = missing.len() as u64;
    proof {
        lemma_missing_bound(facts.required_present@, DOCTOR_REQUIRED_COUNT as int);
    }
    match &facts.hosted {
        HostedCiStatus::CompileOnly => {},
        HostedCiStatus::Missing => {
            fails = fails + 1;
        },
        HostedCiStatus::Extra(extra) => {
            fails = fails + extra.len() as u64;
        },
    }
    match &facts.placements {
        PlacementsRead::Absent => {},
        PlacementsRead::Unreadable => {
            fails = fails + 1;
        },
        PlacementsRead::Leases(ls) => {
            let ids = spawned_ids(ls);
            if ids.len() > 0 {
                fails = fails + 1;
            }
        },
    }
    fails = fails + facts.sku_catalogs;
    if facts.cell_binding_problem {
        fails = fails + 1;
    }
    if facts.facts_unreadable {
        fails = fails + 1;
    }
    if fails == 0 {
        return string_of(&chars_of("ok (compile-only CI; schemas present)"));
    }
    let mut m = chars_of("FAIL (");
    push_decimal(&mut m, fails);
    extend_str(&mut m, ")");
    string_of(&m)
}

proof fn lemma_missing_bound(present: Seq<bool>, n: int)
    ensures
        missing_required(present, n).len() <= if n < 0 {
            0
        } else {
            n
        },
    decreases n,
{
    if n > 0 {
        lemma_missing_bound(present, n - 1);
    }
}

// ---------------------------------------------------------------- lines

/// The refusal for a cell catalog that cannot be read.
pub fn unreadable_cell_catalog(err: &str) -> (out: String)
    ensures
        out@ == "refuse:frontier-model: cell catalog unreadable ("@ + err@
            + "); schema card is not the binding"@,
{
    let mut m = chars_of("refuse:frontier-model: cell catalog unreadable (");
    extend_str(&mut m, err);
    extend_str(&mut m, "); schema card is not the binding");
    string_of(&m)
}

/// A `prepare.json` record as the status and doctor lines show it.
#[derive(Clone, Debug, PartialEq, Eq)]
pub struct TrainPrepareFact {
    pub pack_id: String,
    pub driver: String,
    pub job: String,
    pub seat_tag: Option<String>,
    pub train_base: Option<String>,
    pub trained_shape: Option<String>,
    pub out_dir: String,
}

pub open spec fn opt_part(key: Seq<char>, v: Option<String>) -> Seq<char> {
    match v {
        Some(s) => " "@ + key + "="@ + s@,
        None => Seq::empty(),
    }
}

pub open spec fn train_prepare_text(f: TrainPrepareFact) -> Seq<char> {
    "train_prepare: pack="@ + f.pack_id@ + " driver="@ + f.driver@ + " job="@ + f.job@ + opt_part(
        "seat_tag"@,
        f.seat_tag,
    ) + opt_part("train_base"@, f.train_base) + opt_part("trained_shape"@, f.trained_shape)
        + " out="@ + f.out_dir@
}

fn push_opt(m: &mut Vec<char>, key: &str, v: &Option<String>)
    ensures
        final(m)@ == old(m)@ + opt_part(key@, *v),
{
    if let Some(s) = v {
        extend_str(m, " ");
        extend_str(m, key);
        extend_str(m, "=");
        extend_str(m, s.as_str());
    } else {
        assert(old(m)@ + opt_part(key@, *v) =~= old(m)@);
    }
}

/// One `train_prepare:` line: pack, driver, job, the optional seat tag,
/// train base, and trained shape, then the output directory.
pub fn format_train_prepare_line(fact: &TrainPrepareFact) -> (out: String)
    ensures
        out@ == train_prepare_text(*fact),
{
    let mut m = chars_of("train_prepare: pack=");
    extend_str(&mut m, fact.pack_id.as_str());
    extend_str(&mut m, " driver=");
    extend_str(&mut m, fact.driver.as_str());
    extend_str(&mut m, " job=");
    extend_str(&mut m, fact.job.as_str());
    push_opt(&mut m, "seat_tag", &fact.seat_tag);
    push_opt(&mut m, "train_base", &fact.train_base);
    push_opt(&mut m, "trained_shape", &fact.trained_shape);
    extend_str(&mut m, " out=");
    extend_str(&mut m, fact.out_dir.as_str());
    string_of(&m)
}

// ---------------------------------------------------------------- enrich join

/// A prepared or proposed enrich record joined against the estate.
#[derive(Clone, Debug, PartialEq, Eq)]
pub struct EnrichJoinFact {
    pub local_tag: String,
    pub pack_id: String,
    pub driver: String,
    /// `proposal` for a binding proposal; otherwise a prepare record.
    pub kind: String,
}

pub open spec fn opt_text(o: Option<Seq<char>>) -> Seq<char> {
    match o {
        Some(s) => s,
        None => "-"@,
    }
}

pub open spec fn bound_to(model: Option<Seq<char>>, f: EnrichJoinFact) -> bool {
    model == Some(f.local_tag@)
}

/// The doctor's line for one enrich record: bound to the estate's
/// `local_slm` model, a pending binding proposal, or a bare prepare.
pub open spec fn doctor_join_line(model: Option<Seq<char>>, f: EnrichJoinFact) -> Seq<char> {
    if bound_to(model, f) {
        "  ok    local_slm model="@ + f.local_tag@ + " pack="@ + f.pack_id@ + " driver="@ + f.driver@
    } else if f.kind@ == "proposal"@ {
        "  note  binding proposal pack="@ + f.pack_id@ + " driver="@ + f.driver@ + " tag="@
            + f.local_tag@ + " estate local_slm model="@ + opt_text(model)
    } else {
        "  note  prepare pack="@ + f.pack_id@ + " driver="@ + f.driver@ + " tag="@ + f.local_tag@
            + " estate local_slm model="@ + opt_text(model) + " (no binding proposal)"@
    }
}

/// The status line for one enrich record.
pub open spec fn status_join_line(model: Option<Seq<char>>, f: EnrichJoinFact) -> Seq<char> {
    if bound_to(model, f) {
        "enrich_binding: local_slm model="@ + f.local_tag@ + " pack="@ + f.pack_id@ + " driver="@
            + f.driver@
    } else {
        "enrich_binding: pending kind="@ + f.kind@ + " pack="@ + f.pack_id@ + " driver="@ + f.driver@
            + " tag="@ + f.local_tag@ + " estate_model="@ + opt_text(model)
    }
}

fn push_model(m: &mut Vec<char>, model: Option<&str>)
    ensures
        final(m)@ == old(m)@ + opt_text(match model {
            Some(x) => Some(x@),
            None => None,
        }),
{
    match model {
        Some(x) => extend_str(m, x),
        None => extend_str(m, "-"),
    }
}

fn same_tag(model: Option<&str>, tag: &String) -> (r: bool)
    ensures
        r == (match model {
            Some(x) => Some(x@),
            None => None,
        } == Some(tag@)),
{
    match model {
        Some(x) => equals_str(&chars_of(tag.as_str()), x),
        None => false,
    }
}

/// The doctor's enrich-join lines: one per record, or a note that the
/// enrich directory is empty. `model` is the estate's `local_slm` model.
pub fn doctor_enrich_join_lines(model: Option<&str>, facts: &Vec<EnrichJoinFact>) -> (out: Vec<
    String,
>)
    ensures
        sv(out@) == if facts@.len() == 0 {
            seq!["  note  enrich directory is empty"@]
        } else {
            facts@.map_values(|f: EnrichJoinFact| doctor_join_line(match model {
                Some(x) => Some(x@),
                None => None,
            }, f))
        },
{
    let ghost mv = match model {
        Some(x) => Some(x@),
        None => None,
    };
    let mut out: Vec<String> = Vec::new();
    if facts.len() == 0 {
        out.push(string_of(&chars_of("  note  enrich directory is empty")));
        assert(sv(out@) =~= seq!["  note  enrich directory is empty"@]);
        return out;
    }
    for i in 0..facts.len()
        invariant
            mv == match model {
                Some(x) => Some(x@),
                None => None,
            },
            sv(out@) == facts@.take(i as int).map_values(|f: EnrichJoinFact| doctor_join_line(mv, f)),
    {
        let f = &facts[i];
        let mut m: Vec<char>;
        if same_tag(model, &f.local_tag) {
            m = chars_of("  ok    local_slm model=");
            extend_str(&mut m, f.local_tag.as_str());
            extend_str(&mut m, " pack=");
            extend_str(&mut m, f.pack_id.as_str());
            extend_str(&mut m, " driver=");
            extend_str(&mut m, f.driver.as_str());
        } else {
            let proposal = equals_str(&chars_of(f.kind.as_str()), "proposal");
            m = chars_of(if proposal { "  note  binding proposal pack=" } else { "  note  prepare pack=" });
            extend_str(&mut m, f.pack_id.as_str());
            extend_str(&mut m, " driver=");
            extend_str(&mut m, f.driver.as_str());
            extend_str(&mut m, " tag=");
            extend_str(&mut m, f.local_tag.as_str());
            extend_str(&mut m, " estate local_slm model=");
            push_model(&mut m, model);
            if !proposal {
                extend_str(&mut m, " (no binding proposal)");
            }
        }
        let ghost before = sv(out@);
        out.push(string_of(&m));
        assert(sv(out@) =~= before.push(doctor_join_line(mv, *f)));
        assert(facts@.take(i + 1).map_values(|f: EnrichJoinFact| doctor_join_line(mv, f))
            =~= facts@.take(i as int).map_values(|f: EnrichJoinFact| doctor_join_line(mv, f)).push(
            doctor_join_line(mv, *f),
        ));
    }
    assert(facts@.take(facts@.len() as int) =~= facts@);
    out
}

/// The status command's enrich-binding lines.
pub fn status_enrich_join_lines(model: Option<&str>, facts: &Vec<EnrichJoinFact>) -> (out: Vec<
    String,
>)
    ensures
        sv(out@) == if facts@.len() == 0 {
            seq!["enrich_binding: enrich directory is empty"@]
        } else {
            facts@.map_values(|f: EnrichJoinFact| status_join_line(match model {
                Some(x) => Some(x@),
                None => None,
            }, f))
        },
{
    let ghost mv = match model {
        Some(x) => Some(x@),
        None => None,
    };
    let mut out: Vec<String> = Vec::new();
    if facts.len() == 0 {
        out.push(string_of(&chars_of("enrich_binding: enrich directory is empty")));
        assert(sv(out@) =~= seq!["enrich_binding: enrich directory is empty"@]);
        return out;
    }
    for i in 0..facts.len()
        invariant
            mv == match model {
                Some(x) => Some(x@),
                None => None,
            },
            sv(out@) == facts@.take(i as int).map_values(|f: EnrichJoinFact| status_join_line(mv, f)),
    {
        let f = &facts[i];
        let mut m: Vec<char>;
        if same_tag(model, &f.local_tag) {
            m = chars_of("enrich_binding: local_slm model=");
            extend_str(&mut m, f.local_tag.as_str());
            extend_str(&mut m, " pack=");
            extend_str(&mut m, f.pack_id.as_str());
            extend_str(&mut m, " driver=");
            extend_str(&mut m, f.driver.as_str());
        } else {
            m = chars_of("enrich_binding: pending kind=");
            extend_str(&mut m, f.kind.as_str());
            extend_str(&mut m, " pack=");
            extend_str(&mut m, f.pack_id.as_str());
            extend_str(&mut m, " driver=");
            extend_str(&mut m, f.driver.as_str());
            extend_str(&mut m, " tag=");
            extend_str(&mut m, f.local_tag.as_str());
            extend_str(&mut m, " estate_model=");
            push_model(&mut m, model);
        }
        let ghost before = sv(out@);
        out.push(string_of(&m));
        assert(sv(out@) =~= before.push(status_join_line(mv, *f)));
        assert(facts@.take(i + 1).map_values(|f: EnrichJoinFact| status_join_line(mv, f))
            =~= facts@.take(i as int).map_values(|f: EnrichJoinFact| status_join_line(mv, f)).push(
            status_join_line(mv, *f),
        ));
    }
    assert(facts@.take(facts@.len() as int) =~= facts@);
    out
}

// ---------------------------------------------------------------- status

/// How many of the leases have kind `kind`.
pub open spec fn count_kind(ls: Seq<LeaseFacts>, kind: Seq<char>) -> nat
    decreases ls.len(),
{
    if ls.len() == 0 {
        0
    } else {
        count_kind(ls.drop_last(), kind) + if ls.last().kind@ == kind {
            1nat
        } else {
            0nat
        }
    }
}

/// How many of the leases are spawned.
pub open spec fn count_spawned(ls: Seq<LeaseFacts>) -> nat
    decreases ls.len(),
{
    if ls.len() == 0 {
        0
    } else {
        count_spawned(ls.drop_last()) + if ls.last().spawned {
            1nat
        } else {
            0nat
        }
    }
}

pub open spec fn lease_line_text(ls: Seq<LeaseFacts>) -> Seq<char> {
    "leases: "@ + decimal(ls.len()) + " (box="@ + decimal(count_kind(ls, "box"@)) + " cloud-agent="@
        + decimal(count_kind(ls, "cloud-agent"@)) + " spawned="@ + decimal(count_spawned(ls)) + ")"@
}

proof fn lemma_counts_bounded(ls: Seq<LeaseFacts>, kind: Seq<char>)
    ensures
        count_kind(ls, kind) <= ls.len(),
        count_spawned(ls) <= ls.len(),
    decreases ls.len(),
{
    if ls.len() > 0 {
        lemma_counts_bounded(ls.drop_last(), kind);
    }
}

/// The status page's lease line; no placement file counts as no lease.
pub fn status_lease_line(leases: Option<&Vec<LeaseFacts>>) -> (out: String)
    ensures
        out@ == lease_line_text(match leases {
            Some(ls) => ls@,
            None => Seq::empty(),
        }),
{
    let empty: Vec<LeaseFacts> = Vec::new();
    let ls = match leases {
        Some(v) => v,
        None => &empty,
    };
    let mut boxes: u64 = 0;
    let mut clouds: u64 = 0;
    let mut spawned: u64 = 0;
    for i in 0..ls.len()
        invariant
            boxes as nat == count_kind(ls@.take(i as int), "box"@),
            clouds as nat == count_kind(ls@.take(i as int), "cloud-agent"@),
            spawned as nat == count_spawned(ls@.take(i as int)),
            i <= ls@.len(),
    {
        let ghost t = ls@.take(i + 1);
        proof {
            assert(t.drop_last() =~= ls@.take(i as int));
            lemma_counts_bounded(ls@.take(i as int), "box"@);
            lemma_counts_bounded(ls@.take(i as int), "cloud-agent"@);
        }
        let kind = chars_of(ls[i].kind.as_str());
        if equals_str(&kind, "box") {
            boxes = boxes + 1;
        }
        if equals_str(&kind, "cloud-agent") {
            clouds = clouds + 1;
        }
        if ls[i].spawned {
            spawned = spawned + 1;
        }
    }
    assert(ls@.take(ls@.len() as int) =~= ls@);
    let mut m = chars_of("leases: ");
    push_decimal(&mut m, ls.len() as u64);
    extend_str(&mut m, " (box=");
    push_decimal(&mut m, boxes);
    extend_str(&mut m, " cloud-agent=");
    push_decimal(&mut m, clouds);
    extend_str(&mut m, " spawned=");
    push_decimal(&mut m, spawned);
    extend_str(&mut m, ")");
    string_of(&m)
}

/// The doctor line on the status page: a summary that says ok becomes
/// `FAIL (1)` when the cell catalog disagrees with the estate.
pub fn status_doctor_line(summary: &str, catalog_disagrees: bool) -> (out: String)
    ensures
        out@ == if catalog_disagrees && crate::text::starts_with(summary@, "ok "@) {
            "FAIL (1)"@
        } else {
            summary@
        },
{
    if catalog_disagrees && crate::text::starts_with_str(&chars_of(summary), "ok ") {
        string_of(&chars_of("FAIL (1)"))
    } else {
        string_of(&chars_of(summary))
    }
}

pub open spec fn proposals_text(ids: Seq<String>) -> Seq<char> {
    "open_proposals: "@ + decimal(ids.len()) + " ("@ + if ids.len() == 0 {
        "-"@
    } else {
        crate::text::join(sv(ids), ","@)
    } + ")"@
}

/// The status page's open-proposal line.
pub fn open_proposals_line(ids: &Vec<String>) -> (out: String)
    ensures
        out@ == proposals_text(ids@),
{
    let mut m = chars_of("open_proposals: ");
    push_decimal(&mut m, ids.len() as u64);
    extend_str(&mut m, " (");
    if ids.len() == 0 {
        extend_str(&mut m, "-");
    } else {
        let j = crate::export_repair::join_strings(ids, ids.len(), ",");
        assert(sv(ids@).take(ids@.len() as int) =~= sv(ids@));
        extend_chars(&mut m, &j);
    }
    extend_str(&mut m, ")");
    string_of(&m)
}

} // verus!
