//! Host prepare / select / revalidate for model-binding decisions, and the
//! decision receipts that record them.
//!
//! The host prepares the eligible bindings (id and digest). A selector
//! chooses one id or abstains; a hint may name an id, and that name is not
//! a grant. The host re-validates the choice against what it prepared. A
//! fallback id is recorded and not applied. Every receipt the host builds
//! passes the receipt check before it is journaled.

use vstd::prelude::*;
use vstd::utf8::encode_utf8;
use crate::digest::{sha256, sha256_of_text};
use crate::paths::{join_path, path_join};
use crate::text::{
    chars_of, decimal, equals_str, equals_vec, extend_chars, extend_str, hex_lower, hex_lower_exec,
    is_ws, is_ws_exec, lemma_is_sorted_set, occurs_at, occurs_at_exec, push_decimal, slice_chars,
    sorted_set, sorted_unique, split_lines, starts_with, starts_with_str, string_of, trim,
    trim_exec, views, char_index, find_char_from, lines, lemma_lines_len, lemma_char_index_is,
    lemma_char_index_none,
};

verus! {

pub const RECEIPT_SCHEMA: &'static str = "cell-one.decision-receipt.v0";

pub const SELECT_SCHEMA: &'static str = "cell-one.decision-select.v0";

pub const SELECT_FILE: &'static str = "decision-select.json";

pub const JOURNAL_FILE: &'static str = "receipts.jsonl";

/// One eligible binding as the host prepared it.
#[derive(Clone, Debug, PartialEq, Eq)]
pub struct Prepared {
    pub id: String,
    pub digest: String,
}

/// What `decision-select.json` asks for: an id (or abstain) and the digest
/// the selector saw.
#[derive(Clone, Debug, PartialEq, Eq)]
pub struct SelectHint {
    pub select: Option<String>,
    pub digest: Option<String>,
}

/// Prepare / select / revalidate without a receipt.
#[derive(Clone, Debug, PartialEq, Eq)]
pub struct Selection {
    pub result: String,
    pub validation: String,
    pub fallback: Option<String>,
    pub stage: String,
}

#[derive(Clone, Debug, PartialEq, Eq)]
pub struct CandidateSummary {
    pub id: String,
}

/// One journal line.
#[derive(Clone, Debug, PartialEq, Eq)]
pub struct DecisionReceipt {
    pub schema: String,
    pub id: String,
    pub seq: u64,
    pub hop_id: String,
    pub capability: String,
    pub agent: Option<String>,
    /// Empty on convey, `authorize` on authorize, `complete` on complete.
    pub surface: String,
    pub stage: String,
    pub candidates: Vec<CandidateSummary>,
    pub result: String,
    pub validation: String,
    pub fallback: Option<String>,
    pub outcome: String,
}

// ---------------------------------------------------------------- spec

pub open spec fn ov(o: Option<String>) -> Option<Seq<char>> {
    match o {
        Some(s) => Some(s@),
        None => None,
    }
}

pub open spec fn abstain() -> Seq<char> {
    "abstain"@
}

/// Index of the first prepared row named `id`, or -1.
pub open spec fn first_match(p: Seq<Prepared>, id: Seq<char>) -> int
    decreases p.len(),
{
    if p.len() == 0 {
        -1
    } else if p[0].id@ == id {
        0
    } else {
        let r = first_match(p.drop_first(), id);
        if r < 0 {
            -1
        } else {
            r + 1
        }
    }
}

/// The selector: a hint decides (its id, or abstain when it names none);
/// without a hint exactly one eligible row is selected with its digest,
/// and zero or several abstain.
pub open spec fn spec_select(p: Seq<Prepared>, hint: Option<SelectHint>) -> (
    Seq<char>,
    Option<Seq<char>>,
) {
    match hint {
        Some(h) => match h.select {
            Some(id) => (id@, ov(h.digest)),
            None => (abstain(), None),
        },
        None => if p.len() == 1 {
            (p[0].id@, Some(p[0].digest@))
        } else {
            (abstain(), None)
        },
    }
}

/// The host's re-validation: expiry wins; abstain is ok; a result that is
/// not prepared is ineligible; a claimed digest other than the prepared one
/// is stale. A stale or ineligible result records the one eligible id as a
/// fallback when there is exactly one.
pub open spec fn spec_revalidate(
    p: Seq<Prepared>,
    result: Seq<char>,
    claimed: Option<Seq<char>>,
    expired: bool,
) -> (Seq<char>, Option<Seq<char>>) {
    if expired {
        ("expired"@, None)
    } else if result == abstain() {
        ("ok"@, None)
    } else {
        let k = first_match(p, result);
        let v = if k < 0 {
            "ineligible"@
        } else {
            match claimed {
                None => "ok"@,
                Some(d) => if d == p[k].digest@ {
                    "ok"@
                } else {
                    "stale"@
                },
            }
        };
        let fb = if (v == "stale"@ || v == "ineligible"@) && p.len() == 1 {
            Some(p[0].id@)
        } else {
            None
        };
        (v, fb)
    }
}

/// The stage a decision ends in.
pub open spec fn spec_stage(result: Seq<char>, validation: Seq<char>) -> Seq<char> {
    if validation == "stale"@ || validation == "ineligible"@ {
        "fallback"@
    } else if validation == "expired"@ {
        "validate"@
    } else if validation == "ok"@ && result == abstain() {
        "select"@
    } else {
        "validate"@
    }
}

/// The whole host pipeline as (result, validation, fallback, stage).
pub open spec fn spec_resolve(p: Seq<Prepared>, hint: Option<SelectHint>, expired: bool) -> (
    Seq<char>,
    Seq<char>,
    Option<Seq<char>>,
    Seq<char>,
) {
    let (result, claimed) = spec_select(p, hint);
    let (validation, fallback) = spec_revalidate(p, result, claimed, expired);
    (result, validation, fallback, spec_stage(result, validation))
}

/// `w` appears in `s` as a whole whitespace-separated word.
pub open spec fn has_word(s: Seq<char>, w: Seq<char>) -> bool {
    exists|i: int|
        #![trigger occurs_at(s, w, i)]
        occurs_at(s, w, i) && (i == 0 || is_ws(s[i - 1])) && (i + w.len() == s.len() || is_ws(
            s[i + w.len()],
        ))
}

pub open spec fn is_stage(s: Seq<char>) -> bool {
    s == "select"@ || s == "validate"@ || s == "fallback"@
}

pub open spec fn is_validation(s: Seq<char>) -> bool {
    s == "ok"@ || s == "stale"@ || s == "ineligible"@ || s == "expired"@
}

pub open spec fn is_surface(s: Seq<char>) -> bool {
    s.len() == 0 || s == "authorize"@ || s == "complete"@
}

/// A recorded outcome: `allow` or a `refuse:` code, never claiming to be
/// enforced.
pub open spec fn outcome_ok(o: Seq<char>) -> bool {
    (o == "allow"@ || starts_with(o, "refuse:"@)) && !has_word(o, "enforced"@)
}

/// The first thing wrong with receipt fields, in check order, or `None`.
pub open spec fn fields_problem(
    schema: Seq<char>,
    surface: Seq<char>,
    id: Seq<char>,
    seq: u64,
    stage: Seq<char>,
    validation: Seq<char>,
    result: Seq<char>,
    outcome: Seq<char>,
) -> Option<Seq<char>> {
    if schema != RECEIPT_SCHEMA@ {
        Some("refuse:decision-receipt: schema"@)
    } else if !is_surface(surface) {
        Some("refuse:decision-receipt: surface"@)
    } else if id.len() == 0 || seq == 0 {
        Some("refuse:decision-receipt: id"@)
    } else if !is_stage(stage) {
        Some("refuse:decision-receipt: stage"@)
    } else if !is_validation(validation) {
        Some("refuse:decision-receipt: validation"@)
    } else if result.len() == 0 {
        Some("refuse:decision-receipt: result"@)
    } else if !outcome_ok(outcome) {
        Some("refuse:decision-receipt: outcome"@)
    } else {
        None
    }
}

/// The first thing wrong with a receipt, in check order, or `None`.
pub open spec fn receipt_problem(r: DecisionReceipt) -> Option<Seq<char>> {
    fields_problem(
        r.schema@,
        r.surface@,
        r.id@,
        r.seq,
        r.stage@,
        r.validation@,
        r.result@,
        r.outcome@,
    )
}

/// The refuse class of an error text: `refuse:<class>` where the class is
/// the trimmed text between `refuse:` and the next `:`, or `refuse:other`.
pub open spec fn outcome_stub(text: Seq<char>) -> Seq<char> {
    if !starts_with(text, "refuse:"@) {
        "refuse:other"@
    } else {
        let rest = text.skip(7);
        let k = char_index(rest, ':');
        let piece = if k < 0 {
            rest
        } else {
            rest.take(k)
        };
        if trim(piece).len() == 0 {
            "refuse:other"@
        } else {
            "refuse:"@ + trim(piece)
        }
    }
}

/// The cite line of a receipt.
pub open spec fn cite_text(r: DecisionReceipt) -> Seq<char> {
    let head = "decision receipt: "@ + r.id@ + " result="@ + r.result@ + " validation="@
        + r.validation@;
    match r.fallback {
        Some(id) => head + " fallback="@ + id@,
        None => head,
    }
}

pub open spec fn count_stage(rs: Seq<DecisionReceipt>, st: Seq<char>) -> nat
    decreases rs.len(),
{
    if rs.len() == 0 {
        0
    } else {
        count_stage(rs.drop_last(), st) + if rs.last().stage@ == st {
            1nat
        } else {
            0nat
        }
    }
}

pub open spec fn count_validation(rs: Seq<DecisionReceipt>, v: Seq<char>) -> nat
    decreases rs.len(),
{
    if rs.len() == 0 {
        0
    } else {
        count_validation(rs.drop_last(), v) + if rs.last().validation@ == v {
            1nat
        } else {
            0nat
        }
    }
}

pub open spec fn count_fallback(rs: Seq<DecisionReceipt>, id: Option<Seq<char>>) -> nat
    decreases rs.len(),
{
    if rs.len() == 0 {
        0
    } else {
        count_fallback(rs.drop_last(), id) + if ov(rs.last().fallback) == id {
            1nat
        } else {
            0nat
        }
    }
}

/// The fallback ids of `rs`, in order, with repeats.
pub open spec fn fallback_ids(rs: Seq<DecisionReceipt>) -> Seq<Seq<char>>
    decreases rs.len(),
{
    if rs.len() == 0 {
        seq![]
    } else {
        match rs.last().fallback {
            Some(id) => fallback_ids(rs.drop_last()).push(id@),
            None => fallback_ids(rs.drop_last()),
        }
    }
}

pub open spec fn fallback_lines(rs: Seq<DecisionReceipt>, ids: Seq<Seq<char>>) -> Seq<char>
    decreases ids.len(),
{
    if ids.len() == 0 {
        seq![]
    } else {
        fallback_lines(rs, ids.drop_last()) + "fallback "@ + ids.last() + "="@ + decimal(
            count_fallback(rs, Some(ids.last())),
        ) + "\n"@
    }
}

/// The decisions report: totals per stage, per validation, receipts
/// without a fallback, then one line per fallback id in sorted order.
pub open spec fn report_text(rs: Seq<DecisionReceipt>) -> Seq<char> {
    let n = decimal(rs.len());
    "decision receipts: "@ + n + "\nstage prepare="@ + n + " select="@ + decimal(
        count_stage(rs, "select"@),
    ) + " validate="@ + decimal(count_stage(rs, "validate"@)) + " fallback="@ + decimal(
        count_stage(rs, "fallback"@),
    ) + "\nvalidation ok="@ + decimal(count_validation(rs, "ok"@)) + " stale="@ + decimal(
        count_validation(rs, "stale"@),
    ) + " ineligible="@ + decimal(count_validation(rs, "ineligible"@)) + " expired="@ + decimal(
        count_validation(rs, "expired"@),
    ) + "\nfallback none="@ + decimal(count_fallback(rs, None)) + "\n"@ + fallback_lines(
        rs,
        sorted_set(fallback_ids(rs)),
    )
}

pub open spec fn prepared_ids(p: Seq<Prepared>) -> Seq<Seq<char>> {
    p.map_values(|r: Prepared| r.id@)
}

/// The text a receipt id hashes: the decision fields, one per line, the
/// surface last when there is one.
pub open spec fn receipt_material(
    hop_id: Seq<char>,
    capability: Seq<char>,
    agent: Option<Seq<char>>,
    candidates: Seq<Seq<char>>,
    result: Seq<char>,
    validation: Seq<char>,
    fallback: Option<Seq<char>>,
    outcome: Seq<char>,
    stage: Seq<char>,
    surface: Seq<char>,
) -> Seq<char> {
    let nl = "\n"@;
    let base = hop_id + nl + capability + nl + (match agent {
        Some(a) => a,
        None => seq![],
    }) + nl + crate::text::join(candidates, ","@) + nl + result + nl + validation + nl + (
    match fallback {
        Some(f) => f,
        None => seq![],
    }) + nl + outcome + nl + stage;
    if surface.len() == 0 {
        base
    } else {
        base + nl + surface
    }
}

/// `r-<seq>-<first four digest bytes in hex>` over `"<seq>\n<material>"`.
pub open spec fn receipt_id_text(seq: u64, material: Seq<char>) -> Seq<char> {
    "r-"@ + decimal(seq as nat) + "-"@ + hex_lower(
        sha256(encode_utf8(decimal(seq as nat) + "\n"@ + material)).take(4),
    )
}

/// Lines of journal text that are not empty.
pub open spec fn count_nonempty(ls: Seq<Seq<char>>) -> nat
    decreases ls.len(),
{
    if ls.len() == 0 {
        0
    } else {
        count_nonempty(ls.drop_last()) + if ls.last().len() > 0 {
            1nat
        } else {
            0nat
        }
    }
}

// ---------------------------------------------------------------- laws

/// The decision vocabulary words are pairwise distinct.
pub proof fn lemma_words()
    ensures
        "ok"@ != "stale"@,
        "ok"@ != "ineligible"@,
        "ok"@ != "expired"@,
        "ok"@ != "abstain"@,
        "ok"@ != "select"@,
        "ok"@ != "validate"@,
        "ok"@ != "fallback"@,
        "stale"@ != "ineligible"@,
        "stale"@ != "expired"@,
        "stale"@ != "abstain"@,
        "stale"@ != "select"@,
        "stale"@ != "validate"@,
        "stale"@ != "fallback"@,
        "ineligible"@ != "expired"@,
        "ineligible"@ != "abstain"@,
        "ineligible"@ != "select"@,
        "ineligible"@ != "validate"@,
        "ineligible"@ != "fallback"@,
        "expired"@ != "abstain"@,
        "expired"@ != "select"@,
        "expired"@ != "validate"@,
        "expired"@ != "fallback"@,
        "abstain"@ != "select"@,
        "abstain"@ != "validate"@,
        "abstain"@ != "fallback"@,
        "select"@ != "validate"@,
        "select"@ != "fallback"@,
        "validate"@ != "fallback"@,
{
    reveal_strlit("ok");
    assert("ok"@.len() == 2);
    assert("ok"@[0] == 'o');
    reveal_strlit("stale");
    assert("stale"@.len() == 5);
    assert("stale"@[0] == 's');
    reveal_strlit("ineligible");
    assert("ineligible"@.len() == 10);
    assert("ineligible"@[0] == 'i');
    reveal_strlit("expired");
    assert("expired"@.len() == 7);
    assert("expired"@[0] == 'e');
    reveal_strlit("abstain");
    assert("abstain"@.len() == 7);
    assert("abstain"@[0] == 'a');
    reveal_strlit("select");
    assert("select"@.len() == 6);
    assert("select"@[0] == 's');
    reveal_strlit("validate");
    assert("validate"@.len() == 8);
    assert("validate"@[0] == 'v');
    reveal_strlit("fallback");
    assert("fallback"@.len() == 8);
    assert("fallback"@[0] == 'f');
}

proof fn lemma_first_match(p: Seq<Prepared>, id: Seq<char>)
    ensures
        first_match(p, id) < p.len(),
        first_match(p, id) >= 0 ==> p[first_match(p, id)].id@ == id,
        first_match(p, id) < 0 ==> forall|j: int| 0 <= j < p.len() ==> p[j].id@ != id,
    decreases p.len(),
{
    if p.len() > 0 && p[0].id@ != id {
        lemma_first_match(p.drop_first(), id);
        assert forall|j: int| 1 <= j < p.len() implies p[j] == p.drop_first()[j - 1] by {}
    }
}

/// The selector does not grant: a decision validates `ok` on a named id
/// only when the host prepared that id (and, when the selector claimed a
/// digest, the prepared digest is that digest). Expiry wins over every
/// choice, and a fallback is only ever the one eligible id after a stale or
/// ineligible choice; the choice itself stays the result.
pub proof fn selector_does_not_grant(p: Seq<Prepared>, hint: Option<SelectHint>, expired: bool)
    ensures
        ({
            let (result, claimed) = spec_select(p, hint);
            let (validation, fallback, stage) = (
                spec_resolve(p, hint, expired).1,
                spec_resolve(p, hint, expired).2,
                spec_resolve(p, hint, expired).3,
            );
            &&& spec_resolve(p, hint, expired).0 == result
            &&& (validation == "ok"@ && result != abstain()) ==> (exists|k: int|
                0 <= k < p.len() && p[k].id@ == result && (claimed is None || claimed == Some(
                    p[k].digest@,
                )))
            &&& expired ==> validation == "expired"@ && fallback is None && stage == "validate"@
            &&& fallback is Some ==> {
                &&& validation == "stale"@ || validation == "ineligible"@
                &&& p.len() == 1
                &&& fallback == Some(p[0].id@)
                &&& stage == "fallback"@
            }
        }),
{
    lemma_words();
    let (result, claimed) = spec_select(p, hint);
    lemma_first_match(p, result);
}

/// One eligible id is selected; zero or more than one abstain. Without a
/// hint and before expiry the host never falls back: a single eligible row
/// validates `ok` on its own id, anything else abstains at the select stage.
pub proof fn unhinted_selection(p: Seq<Prepared>)
    ensures
        p.len() == 1 ==> spec_resolve(p, None, false) == (
            p[0].id@,
            "ok"@,
            None::<Seq<char>>,
            if p[0].id@ == abstain() {
                "select"@
            } else {
                "validate"@
            },
        ),
        p.len() != 1 ==> spec_resolve(p, None, false) == (
            abstain(),
            "ok"@,
            None::<Seq<char>>,
            "select"@,
        ),
{
    lemma_words();
    if p.len() == 1 {
        lemma_first_match(p, p[0].id@);
        assert(first_match(p, p[0].id@) == 0);
    }
}

/// Every decision the pipeline reaches ends in a stage and a validation
/// that the receipt check accepts.
pub proof fn pipeline_stays_in_the_receipt_vocabulary(
    p: Seq<Prepared>,
    hint: Option<SelectHint>,
    expired: bool,
)
    ensures
        is_stage(spec_resolve(p, hint, expired).3),
        is_validation(spec_resolve(p, hint, expired).1),
{
    lemma_words();
}

/// In a journal whose receipts all pass the check, every receipt is counted
/// in exactly one stage and in exactly one validation.
pub proof fn report_counts_partition(rs: Seq<DecisionReceipt>)
    requires
        forall|i: int| 0 <= i < rs.len() ==> receipt_problem(#[trigger] rs[i]) is None,
    ensures
        count_stage(rs, "select"@) + count_stage(rs, "validate"@) + count_stage(rs, "fallback"@)
            == rs.len(),
        count_validation(rs, "ok"@) + count_validation(rs, "stale"@) + count_validation(
            rs,
            "ineligible"@,
        ) + count_validation(rs, "expired"@) == rs.len(),
    decreases rs.len(),
{
    if rs.len() > 0 {
        let init = rs.drop_last();
        assert forall|i: int| 0 <= i < init.len() implies receipt_problem(#[trigger] init[i])
            is None by {
            assert(init[i] == rs[i]);
        }
        report_counts_partition(init);
        assert(receipt_problem(rs[rs.len() - 1]) is None);
        lemma_words();
    }
}

// ---------------------------------------------------------------- exec

fn new_string(s: &str) -> (out: String)
    ensures
        out@ == s@,
{
    String::from_str(s)
}

fn clone_string(s: &String) -> (out: String)
    ensures
        out@ == s@,
{
    s.clone()
}

fn clone_opt(s: &Option<String>) -> (out: Option<String>)
    ensures
        ov(out) == ov(*s),
{
    match s {
        Some(x) => Some(x.clone()),
        None => None,
    }
}

/// `{state_dir}/decisions/receipts.jsonl`.
pub fn journal_path(state_dir: &str) -> (out: String)
    ensures
        out@ == path_join(path_join(state_dir@, "decisions"@), JOURNAL_FILE@),
{
    let dir = join_path(state_dir, "decisions");
    join_path(dir.as_str(), JOURNAL_FILE)
}

/// One eligible id is selected; zero or more than one abstain. A hint
/// decides when present; its name is not a grant.
pub fn select(prepared: &Vec<Prepared>, hint: Option<&SelectHint>) -> (r: (String, Option<String>))
    ensures
        (r.0@, ov(r.1)) == spec_select(prepared@, match hint {
            Some(h) => Some(*h),
            None => None,
        }),
{
    if let Some(hint) = hint {
        return match &hint.select {
            Some(id) => (clone_string(id), clone_opt(&hint.digest)),
            None => (new_string("abstain"), None),
        };
    }
    if prepared.len() == 1 {
        (clone_string(&prepared[0].id), Some(clone_string(&prepared[0].digest)))
    } else {
        (new_string("abstain"), None)
    }
}

/// Re-validates a choice against the prepared rows.
pub fn revalidate(prepared: &Vec<Prepared>, result: &str, claimed_digest: Option<&str>, expired: bool) -> (r: (
    String,
    Option<String>,
))
    ensures
        (r.0@, ov(r.1)) == spec_revalidate(prepared@, result@, match claimed_digest {
            Some(d) => Some(d@),
            None => None,
        }, expired),
{
    if expired {
        return (new_string("expired"), None);
    }
    let rc = chars_of(result);
    if equals_str(&rc, "abstain") {
        return (new_string("ok"), None);
    }
    let mut found: Option<usize> = None;
    let mut i: usize = 0;
    while i < prepared.len()
        invariant
            i <= prepared.len(),
            rc@ == result@,
            found is None ==> forall|j: int| 0 <= j < i ==> prepared@[j].id@ != result@,
            found matches Some(k) ==> k < prepared.len() && prepared@[k as int].id@ == result@
                && forall|j: int| 0 <= j < k ==> prepared@[j].id@ != result@,
        decreases prepared.len() - i,
    {
        if found.is_none() {
            let id = chars_of(prepared[i].id.as_str());
            if equals_vec(&id, &rc) {
                found = Some(i);
            }
        }
        i += 1;
    }
    proof {
        lemma_first_match(prepared@, result@);
        let k = first_match(prepared@, result@);
        match found {
            Some(f) => {
                if k != f {
                    if k < f {
                    } else {
                        lemma_first_match_is(prepared@, result@, f as int);
                    }
                }
            },
            None => {},
        }
    }
    let validation: &str = match found {
        None => "ineligible",
        Some(k) => match claimed_digest {
            None => "ok",
            Some(d) => {
                let dc = chars_of(d);
                let pc = chars_of(prepared[k].digest.as_str());
                if equals_vec(&dc, &pc) {
                    "ok"
                } else {
                    "stale"
                }
            },
        },
    };
    let vc = chars_of(validation);
    let fallback = if (equals_str(&vc, "stale") || equals_str(&vc, "ineligible")) && prepared.len()
        == 1 {
        Some(clone_string(&prepared[0].id))
    } else {
        None
    };
    (new_string(validation), fallback)
}

proof fn lemma_first_match_is(p: Seq<Prepared>, id: Seq<char>, f: int)
    requires
        0 <= f < p.len(),
        p[f].id@ == id,
        forall|j: int| 0 <= j < f ==> p[j].id@ != id,
    ensures
        first_match(p, id) == f,
    decreases p.len(),
{
    if f > 0 {
        assert forall|j: int| 0 <= j < f - 1 implies p.drop_first()[j].id@ != id by {
            assert(p.drop_first()[j] == p[j + 1]);
        }
        lemma_first_match_is(p.drop_first(), id, f - 1);
    }
}

/// The stage a decision ends in.
pub fn stage_name(result: &str, validation: &str) -> (out: String)
    ensures
        out@ == spec_stage(result@, validation@),
{
    let v = chars_of(validation);
    let r = chars_of(result);
    if equals_str(&v, "stale") || equals_str(&v, "ineligible") {
        new_string("fallback")
    } else if equals_str(&v, "expired") {
        new_string("validate")
    } else if equals_str(&v, "ok") && equals_str(&r, "abstain") {
        new_string("select")
    } else {
        new_string("validate")
    }
}

/// Host prepare / select / revalidate over the prepared rows, without a
/// receipt.
pub fn resolve_selection(prepared: &Vec<Prepared>, hint: Option<&SelectHint>, expired: bool) -> (s:
    Selection)
    ensures
        (s.result@, s.validation@, ov(s.fallback), s.stage@) == spec_resolve(prepared@, match hint {
            Some(h) => Some(*h),
            None => None,
        }, expired),
{
    let (result, claimed) = select(prepared, hint);
    let (validation, fallback) = match &claimed {
        Some(d) => revalidate(prepared, result.as_str(), Some(d.as_str()), expired),
        None => revalidate(prepared, result.as_str(), None, expired),
    };
    let stage = stage_name(result.as_str(), validation.as_str());
    Selection { result, validation, fallback, stage }
}

/// The refuse class of an error text (`refuse:<class>`, else `refuse:other`).
pub fn outcome_stub_from_text(text: &str) -> (out: String)
    ensures
        out@ == outcome_stub(text@),
{
    let t = chars_of(text);
    if !starts_with_str(&t, "refuse:") {
        return new_string("refuse:other");
    }
    proof {
        reveal_strlit("refuse:");
        assert("refuse:"@.len() == 7);
    }
    let rest = slice_chars(&t, 7, t.len());
    assert(rest@ == text@.skip(7));
    let piece = match find_char_from(&rest, ':', 0) {
        Some(k) => {
            assert(rest@.skip(0) == rest@);
            slice_chars(&rest, 0, k)
        },
        None => {
            assert(rest@.skip(0) == rest@);
            assert(rest@.subrange(0, rest@.len() as int) == rest@);
            slice_chars(&rest, 0, rest.len())
        },
    };
    proof {
        assert(rest@.skip(0) == rest@);
        let k = char_index(rest@, ':');
        if k >= 0 {
            assert(rest@.take(k) == rest@.subrange(0, k));
        }
    }
    let class = trim_exec(&piece);
    if class.len() == 0 {
        new_string("refuse:other")
    } else {
        let mut out = chars_of("refuse:");
        extend_chars(&mut out, &class);
        string_of(&out)
    }
}

fn has_word_exec(s: &Vec<char>, w: &Vec<char>) -> (r: bool)
    requires
        w@.len() > 0,
    ensures
        r == has_word(s@, w@),
{
    let mut i: usize = 0;
    while i < s.len()
        invariant
            i <= s.len(),
            forall|j: int|
                #![trigger occurs_at(s@, w@, j)]
                0 <= j < i ==> !(occurs_at(s@, w@, j) && (j == 0 || is_ws(s@[j - 1])) && (j + w@.len()
                    == s@.len() || is_ws(s@[j + w@.len()]))),
        decreases s.len() - i,
    {
        if occurs_at_exec(s, w, i) {
            let before_ok = i == 0 || is_ws_exec(s[i - 1]);
            let end = i + w.len();
            let after_ok = end == s.len() || is_ws_exec(s[end]);
            if before_ok && after_ok {
                assert(occurs_at(s@, w@, i as int));
                return true;
            }
        }
        i += 1;
    }
    proof {
        assert forall|j: int|
            #![trigger occurs_at(s@, w@, j)]
            !(occurs_at(s@, w@, j) && (j == 0 || is_ws(s@[j - 1])) && (j + w@.len() == s@.len()
                || is_ws(s@[j + w@.len()]))) by {
            if 0 <= j < i {
            }
        }
    }
    false
}

/// The receipt check, in order: schema, surface, id and sequence, stage,
/// validation, result, outcome.
pub fn check_receipt(receipt: &DecisionReceipt) -> (r: Result<(), String>)
    ensures
        match r {
            Ok(_) => receipt_problem(*receipt) is None,
            Err(e) => receipt_problem(*receipt) == Some(e@),
        },
{
    let schema = chars_of(receipt.schema.as_str());
    if !equals_str(&schema, RECEIPT_SCHEMA) {
        return Err(new_string("refuse:decision-receipt: schema"));
    }
    let surface = chars_of(receipt.surface.as_str());
    if !(surface.len() == 0 || equals_str(&surface, "authorize") || equals_str(
        &surface,
        "complete",
    )) {
        return Err(new_string("refuse:decision-receipt: surface"));
    }
    if receipt.id.as_str().is_empty() || receipt.seq == 0 {
        return Err(new_string("refuse:decision-receipt: id"));
    }
    let stage = chars_of(receipt.stage.as_str());
    if !(equals_str(&stage, "select") || equals_str(&stage, "validate") || equals_str(
        &stage,
        "fallback",
    )) {
        return Err(new_string("refuse:decision-receipt: stage"));
    }
    let v = chars_of(receipt.validation.as_str());
    if !(equals_str(&v, "ok") || equals_str(&v, "stale") || equals_str(&v, "ineligible")
        || equals_str(&v, "expired")) {
        return Err(new_string("refuse:decision-receipt: validation"));
    }
    if receipt.result.as_str().is_empty() {
        return Err(new_string("refuse:decision-receipt: result"));
    }
    let outcome = chars_of(receipt.outcome.as_str());
    if !equals_str(&outcome, "allow") && !starts_with_str(&outcome, "refuse:") {
        return Err(new_string("refuse:decision-receipt: outcome"));
    }
    let enforced = chars_of("enforced");
    proof {
        reveal_strlit("enforced");
        assert("enforced"@.len() == 8);
    }
    if has_word_exec(&outcome, &enforced) {
        return Err(new_string("refuse:decision-receipt: outcome"));
    }
    Ok(())
}

/// The one-line cite of a receipt.
pub fn cite_line(receipt: &DecisionReceipt) -> (out: String)
    ensures
        out@ == cite_text(*receipt),
{
    let mut out = chars_of("decision receipt: ");
    extend_str(&mut out, receipt.id.as_str());
    extend_str(&mut out, " result=");
    extend_str(&mut out, receipt.result.as_str());
    extend_str(&mut out, " validation=");
    extend_str(&mut out, receipt.validation.as_str());
    match &receipt.fallback {
        Some(id) => {
            extend_str(&mut out, " fallback=");
            extend_str(&mut out, id.as_str());
        },
        None => {},
    }
    string_of(&out)
}


fn opt_equals(o: &Option<String>, id: &Vec<char>) -> (r: bool)
    ensures
        r == (ov(*o) == Some(id@)),
{
    match o {
        Some(x) => {
            let xc = chars_of(x.as_str());
            equals_vec(&xc, id)
        },
        None => false,
    }
}

fn count_fallback_exec(rs: &Vec<DecisionReceipt>, id: &Vec<char>) -> (n: u64)
    ensures
        n == count_fallback(rs@, Some(id@)),
{
    let mut n: u64 = 0;
    for i in 0..rs.len()
        invariant
            n == count_fallback(rs@.take(i as int), Some(id@)),
            n <= i,
    {
        proof {
            assert(rs@.take(i + 1).drop_last() =~= rs@.take(i as int));
        }
        if opt_equals(&rs[i].fallback, id) {
            n += 1;
        }
    }
    assert(rs@.take(rs.len() as int) =~= rs@);
    n
}

fn push_field(out: &mut Vec<char>, label: &str, n: u64)
    ensures
        final(out)@ == old(out)@ + label@ + decimal(n as nat),
{
    extend_str(out, label);
    push_decimal(out, n);
}

/// The decisions report over a journal's receipts.
pub fn render_report(receipts: &Vec<DecisionReceipt>) -> (out: String)
    ensures
        out@ == report_text(receipts@),
{
    let mut select: u64 = 0;
    let mut validate: u64 = 0;
    let mut fallback_stage: u64 = 0;
    let mut ok: u64 = 0;
    let mut stale: u64 = 0;
    let mut ineligible: u64 = 0;
    let mut expired: u64 = 0;
    let mut none: u64 = 0;
    let mut ids: Vec<Vec<char>> = Vec::new();
    for i in 0..receipts.len()
        invariant
            select == count_stage(receipts@.take(i as int), "select"@),
            validate == count_stage(receipts@.take(i as int), "validate"@),
            fallback_stage == count_stage(receipts@.take(i as int), "fallback"@),
            ok == count_validation(receipts@.take(i as int), "ok"@),
            stale == count_validation(receipts@.take(i as int), "stale"@),
            ineligible == count_validation(receipts@.take(i as int), "ineligible"@),
            expired == count_validation(receipts@.take(i as int), "expired"@),
            none == count_fallback(receipts@.take(i as int), None),
            views(ids@) == fallback_ids(receipts@.take(i as int)),
            select <= i && validate <= i && fallback_stage <= i,
            ok <= i && stale <= i && ineligible <= i && expired <= i && none <= i,
    {
        let r = &receipts[i];
        proof {
            assert(receipts@.take(i + 1).drop_last() =~= receipts@.take(i as int));
            assert(receipts@.take(i + 1).last() == *r);
        }
        let st = chars_of(r.stage.as_str());
        if equals_str(&st, "select") {
            select += 1;
        } else if equals_str(&st, "validate") {
            validate += 1;
        } else if equals_str(&st, "fallback") {
            fallback_stage += 1;
        }
        let v = chars_of(r.validation.as_str());
        if equals_str(&v, "ok") {
            ok += 1;
        } else if equals_str(&v, "stale") {
            stale += 1;
        } else if equals_str(&v, "ineligible") {
            ineligible += 1;
        } else if equals_str(&v, "expired") {
            expired += 1;
        }
        proof {
            lemma_words();
        }
        match &r.fallback {
            Some(id) => {
                let ghost before = views(ids@);
                ids.push(chars_of(id.as_str()));
                assert(views(ids@) =~= before.push(id@));
            },
            None => {
                none += 1;
            },
        }
    }
    assert(receipts@.take(receipts.len() as int) =~= receipts@);
    let n = receipts.len() as u64;
    let mut out = chars_of("decision receipts: ");
    push_decimal(&mut out, n);
    push_field(&mut out, "\nstage prepare=", n);
    push_field(&mut out, " select=", select);
    push_field(&mut out, " validate=", validate);
    push_field(&mut out, " fallback=", fallback_stage);
    push_field(&mut out, "\nvalidation ok=", ok);
    push_field(&mut out, " stale=", stale);
    push_field(&mut out, " ineligible=", ineligible);
    push_field(&mut out, " expired=", expired);
    push_field(&mut out, "\nfallback none=", none);
    extend_str(&mut out, "\n");
    let sorted = sorted_unique(&ids);
    proof {
        lemma_is_sorted_set(views(sorted@), views(ids@));
    }
    let ghost head = out@;
    for k in 0..sorted.len()
        invariant
            out@ == head + fallback_lines(receipts@, views(sorted@).take(k as int)),
    {
        let c = count_fallback_exec(receipts, &sorted[k]);
        extend_str(&mut out, "fallback ");
        extend_chars(&mut out, &sorted[k]);
        extend_str(&mut out, "=");
        push_decimal(&mut out, c);
        extend_str(&mut out, "\n");
        proof {
            let t = views(sorted@).take(k + 1);
            assert(t.drop_last() =~= views(sorted@).take(k as int));
            assert(t.last() == sorted@[k as int]@);
        }
    }
    assert(views(sorted@).take(sorted.len() as int) =~= views(sorted@));
    string_of(&out)
}

/// `1 +` the number of non-empty journal lines (`1` for no journal).
pub fn next_seq(journal: Option<&str>) -> (n: u64)
    requires
        journal matches Some(t) ==> t@.len() < u64::MAX,
    ensures
        match journal {
            None => n == 1,
            Some(t) => n == count_nonempty(lines(t@)) + 1,
        },
{
    match journal {
        None => 1,
        Some(t) => {
            let tc = chars_of(t);
            let ls = split_lines(&tc);
            let mut n: u64 = 0;
            for i in 0..ls.len()
                invariant
                    n == count_nonempty(views(ls@).take(i as int)),
                    n <= i,
            {
                proof {
                    assert(views(ls@).take(i + 1).drop_last() =~= views(ls@).take(i as int));
                    assert(views(ls@).take(i + 1).last() == ls@[i as int]@);
                }
                if ls[i].len() > 0 {
                    n += 1;
                }
            }
            assert(views(ls@).take(ls.len() as int) =~= views(ls@));
            proof {
                lemma_lines_len(t@);
            }
            n + 1
        },
    }
}


/// A JSON field of `decision-select.json` as the library sees it.
#[derive(Clone, Debug, PartialEq, Eq)]
pub enum JsonField {
    Missing,
    Null,
    Text(String),
    Other,
}

/// The hint a parsed `decision-select.json` asks for, or the refusal:
/// the schema must be `cell-one.decision-select.v0`; `select` is an id,
/// `abstain`, or null/absent; `digest` is a non-empty text or null/absent.
pub open spec fn hint_from_fields(schema: JsonField, select: JsonField, digest: JsonField) -> Result<
    (Option<Seq<char>>, Option<Seq<char>>),
    Seq<char>,
> {
    if !(schema matches JsonField::Text(s) && s@ == SELECT_SCHEMA@) {
        Err("refuse:decision-select: schema must be "@ + SELECT_SCHEMA@)
    } else {
        let sel: Result<Option<Seq<char>>, ()> = match select {
            JsonField::Missing | JsonField::Null => Ok(None),
            JsonField::Text(t) => if t@ == abstain() {
                Ok(None)
            } else if t@.len() > 0 {
                Ok(Some(t@))
            } else {
                Err(())
            },
            JsonField::Other => Err(()),
        };
        let dig: Result<Option<Seq<char>>, ()> = match digest {
            JsonField::Missing | JsonField::Null => Ok(None),
            JsonField::Text(t) => if t@.len() > 0 {
                Ok(Some(t@))
            } else {
                Err(())
            },
            JsonField::Other => Err(()),
        };
        match (sel, dig) {
            (Err(_), _) => Err("refuse:decision-select: select must be an id, abstain, or null"@),
            (Ok(_), Err(_)) => Err(
                "refuse:decision-select: digest must be a non-empty string or null"@,
            ),
            (Ok(a), Ok(b)) => Ok((a, b)),
        }
    }
}

/// The selector hint read from `decision-select.json`'s fields.
pub fn select_hint_from_fields(schema: &JsonField, select: &JsonField, digest: &JsonField) -> (r:
    Result<SelectHint, String>)
    ensures
        match r {
            Ok(h) => hint_from_fields(*schema, *select, *digest) == Ok::<
                (Option<Seq<char>>, Option<Seq<char>>),
                Seq<char>,
            >((ov(h.select), ov(h.digest))),
            Err(e) => hint_from_fields(*schema, *select, *digest) == Err::<
                (Option<Seq<char>>, Option<Seq<char>>),
                Seq<char>,
            >(e@),
        },
{
    let schema_ok = match schema {
        JsonField::Text(s) => {
            let sc = chars_of(s.as_str());
            equals_str(&sc, SELECT_SCHEMA)
        },
        _ => false,
    };
    if !schema_ok {
        let mut m = chars_of("refuse:decision-select: schema must be ");
        extend_str(&mut m, SELECT_SCHEMA);
        return Err(string_of(&m));
    }
    let sel: Option<String> = match select {
        JsonField::Missing | JsonField::Null => None,
        JsonField::Text(t) => {
            let tc = chars_of(t.as_str());
            if equals_str(&tc, "abstain") {
                None
            } else if tc.len() > 0 {
                Some(clone_string(t))
            } else {
                return Err(new_string("refuse:decision-select: select must be an id, abstain, or null"));
            }
        },
        JsonField::Other => {
            return Err(new_string("refuse:decision-select: select must be an id, abstain, or null"));
        },
    };
    let dig: Option<String> = match digest {
        JsonField::Missing | JsonField::Null => None,
        JsonField::Text(t) => {
            if t.as_str().is_empty() {
                return Err(new_string("refuse:decision-select: digest must be a non-empty string or null"));
            }
            Some(clone_string(t))
        },
        JsonField::Other => {
            return Err(new_string("refuse:decision-select: digest must be a non-empty string or null"));
        },
    };
    Ok(SelectHint { select: sel, digest: dig })
}

/// The receipt id over a receipt's material.
pub fn receipt_id(seq: u64, material: &Vec<char>) -> (out: String)
    ensures
        out@ == receipt_id_text(seq, material@),
        out@.len() == decimal(seq as nat).len() + 11,
{
    let mut hashed: Vec<char> = Vec::new();
    push_decimal(&mut hashed, seq);
    extend_str(&mut hashed, "\n");
    extend_chars(&mut hashed, material);
    let hashed_text = string_of(&hashed);
    let d = sha256_of_text(&hashed_text);
    let mut head: Vec<u8> = Vec::new();
    for i in 0..4usize
        invariant
            d@.len() == 32,
            head@ == d@.take(i as int),
    {
        head.push(d[i]);
        assert(d@.take(i + 1) =~= d@.take(i as int).push(d@[i as int]));
    }
    let hex = hex_lower_exec(&head);
    let mut out = chars_of("r-");
    push_decimal(&mut out, seq);
    extend_str(&mut out, "-");
    extend_chars(&mut out, &hex);
    proof {
        assert(hashed@ =~= decimal(seq as nat) + "\n"@ + material@);
        crate::digest::lemma_hex_len(head@);
        reveal_strlit("r-");
        reveal_strlit("-");
    }
    string_of(&out)
}

fn push_opt(out: &mut Vec<char>, o: Option<&str>)
    ensures
        final(out)@ == old(out)@ + match o {
            Some(a) => a@,
            None => Seq::<char>::empty(),
        },
{
    match o {
        Some(a) => extend_str(out, a),
        None => {
            assert(out@ + Seq::<char>::empty() =~= out@);
        },
    }
}

fn candidate_list(prepared: &Vec<Prepared>) -> (out: (Vec<CandidateSummary>, Vec<char>))
    ensures
        out.0@.map_values(|c: CandidateSummary| c.id@) == prepared_ids(prepared@),
        out.1@ == crate::text::join(prepared_ids(prepared@), ","@),
{
    let mut cands: Vec<CandidateSummary> = Vec::new();
    let mut joined: Vec<char> = Vec::new();
    for i in 0..prepared.len()
        invariant
            cands@.map_values(|c: CandidateSummary| c.id@) == prepared_ids(prepared@).take(i as int),
            joined@ == crate::text::join(prepared_ids(prepared@).take(i as int), ","@),
    {
        let ghost ids = prepared_ids(prepared@);
        let ghost prev = cands@.map_values(|c: CandidateSummary| c.id@);
        let ghost prevj = joined@;
        if i > 0 {
            extend_str(&mut joined, ",");
        }
        extend_str(&mut joined, prepared[i].id.as_str());
        cands.push(CandidateSummary { id: clone_string(&prepared[i].id) });
        proof {
            let t = ids.take(i + 1);
            assert(t.drop_last() =~= ids.take(i as int));
            assert(t.last() == prepared@[i as int].id@);
            assert(cands@.map_values(|c: CandidateSummary| c.id@) =~= t);
            if i == 0 {
                assert(joined@ =~= t[0]);
            } else {
                assert(joined@ =~= crate::text::join(t.drop_last(), ","@) + ","@ + t.last());
            }
        }
    }
    assert(prepared_ids(prepared@).take(prepared.len() as int) =~= prepared_ids(prepared@));
    (cands, joined)
}

/// Builds the receipt for one decision and checks it: the host pipeline's
/// result, validation, fallback, and stage; the candidates are the prepared
/// ids; the id hashes the decision material. `Err` is the check's refusal.
pub fn build_receipt(
    seq: u64,
    hop_id: &str,
    capability: &str,
    agent: Option<&str>,
    surface: &str,
    outcome: &str,
    prepared: &Vec<Prepared>,
    hint: Option<&SelectHint>,
    expired: bool,
) -> (r: Result<DecisionReceipt, String>)
    ensures
        ({
            let h = match hint {
                Some(x) => Some(*x),
                None => None,
            };
            let (result, validation, fallback, stage) = spec_resolve(prepared@, h, expired);
            let agent_v = match agent {
                Some(a) => Some(a@),
                None => None,
            };
            let material = receipt_material(
                hop_id@,
                capability@,
                agent_v,
                prepared_ids(prepared@),
                result,
                validation,
                fallback,
                outcome@,
                stage,
                surface@,
            );
            let id = receipt_id_text(seq, material);
            let problem = fields_problem(
                RECEIPT_SCHEMA@,
                surface@,
                id,
                seq,
                stage,
                validation,
                result,
                outcome@,
            );
            match r {
                Ok(rc) => {
                    &&& problem is None
                    &&& rc.schema@ == RECEIPT_SCHEMA@
                    &&& rc.id@ == id
                    &&& rc.seq == seq
                    &&& rc.hop_id@ == hop_id@
                    &&& rc.capability@ == capability@
                    &&& ov(rc.agent) == agent_v
                    &&& rc.surface@ == surface@
                    &&& rc.stage@ == stage
                    &&& rc.candidates@.map_values(|c: CandidateSummary| c.id@) == prepared_ids(
                        prepared@,
                    )
                    &&& rc.result@ == result
                    &&& rc.validation@ == validation
                    &&& ov(rc.fallback) == fallback
                    &&& rc.outcome@ == outcome@
                },
                Err(e) => problem == Some(e@),
            }
        }),
{
    let sel = resolve_selection(prepared, hint, expired);
    let (candidates, joined) = candidate_list(prepared);
    let mut material = chars_of(hop_id);
    extend_str(&mut material, "\n");
    extend_str(&mut material, capability);
    extend_str(&mut material, "\n");
    push_opt(&mut material, agent);
    extend_str(&mut material, "\n");
    extend_chars(&mut material, &joined);
    extend_str(&mut material, "\n");
    extend_str(&mut material, sel.result.as_str());
    extend_str(&mut material, "\n");
    extend_str(&mut material, sel.validation.as_str());
    extend_str(&mut material, "\n");
    match &sel.fallback {
        Some(f) => push_opt(&mut material, Some(f.as_str())),
        None => push_opt(&mut material, None),
    }
    extend_str(&mut material, "\n");
    extend_str(&mut material, outcome);
    extend_str(&mut material, "\n");
    extend_str(&mut material, sel.stage.as_str());
    if !surface.is_empty() {
        extend_str(&mut material, "\n");
        extend_str(&mut material, surface);
    }
    let id = receipt_id(seq, &material);
    let receipt = DecisionReceipt {
        schema: new_string(RECEIPT_SCHEMA),
        id,
        seq,
        hop_id: new_string(hop_id),
        capability: new_string(capability),
        agent: match agent {
            Some(a) => Some(new_string(a)),
            None => None,
        },
        surface: new_string(surface),
        stage: sel.stage,
        candidates,
        result: sel.result,
        validation: sel.validation,
        fallback: sel.fallback,
        outcome: new_string(outcome),
    };
    match check_receipt(&receipt) {
        Ok(()) => Ok(receipt),
        Err(e) => Err(e),
    }
}

/// Receipts the host builds pass the receipt check whenever the decision
/// is for a real sequence number, a known surface, and an allow or refuse
/// outcome, and every id in play is non-empty: the pipeline never writes a
/// receipt its own reader would refuse.
pub proof fn built_receipts_pass_the_check(
    prepared: Seq<Prepared>,
    hint: Option<SelectHint>,
    expired: bool,
    seq: u64,
    surface: Seq<char>,
    outcome: Seq<char>,
    material: Seq<char>,
)
    requires
        seq > 0,
        is_surface(surface),
        outcome_ok(outcome),
        forall|i: int| 0 <= i < prepared.len() ==> (#[trigger] prepared[i]).id@.len() > 0,
        hint matches Some(h) ==> (h.select matches Some(id) ==> id@.len() > 0),
    ensures
        ({
            let (result, validation, fallback, stage) = spec_resolve(prepared, hint, expired);
            fields_problem(
                RECEIPT_SCHEMA@,
                surface,
                receipt_id_text(seq, material),
                seq,
                stage,
                validation,
                result,
                outcome,
            ) is None
        }),
{
    lemma_words();
    reveal_strlit("abstain");
    reveal_strlit("r-");
    assert(abstain().len() == 7);
    assert(("r-"@ + decimal(seq as nat)).len() >= 2);
    pipeline_stays_in_the_receipt_vocabulary(prepared, hint, expired);
    if prepared.len() == 1 {
        assert(prepared[0].id@.len() > 0);
    }
}

// ---------------------------------------------------------------- prepare

/// The text a binding digest hashes: id, class, driver, and the binding's
/// parameters as canonical JSON, one per line.
pub open spec fn binding_material(id: Seq<char>, class: Seq<char>, driver: Seq<char>, params: Seq<
    char,
>) -> Seq<char> {
    id + "\n"@ + class + "\n"@ + driver + "\n"@ + params
}

/// The digest of a binding: parameter drift changes it.
pub fn binding_digest(id: &str, class: &str, driver: &str, params_json: &str) -> (out: String)
    ensures
        out@ == hex_lower(sha256(encode_utf8(binding_material(id@, class@, driver@, params_json@)))),
        out@.len() == 64,
{
    let mut m = chars_of(id);
    extend_str(&mut m, "\n");
    extend_str(&mut m, class);
    extend_str(&mut m, "\n");
    extend_str(&mut m, driver);
    extend_str(&mut m, "\n");
    extend_str(&mut m, params_json);
    let text = string_of(&m);
    let h = crate::digest::sha256_hex(&text);
    string_of(&h)
}

/// A model binding as the host reads it for one agent.
#[derive(Clone, Debug, PartialEq, Eq)]
pub struct BindingFacts {
    pub id: String,
    pub digest: String,
    pub wired: bool,
    /// The agent's row lists this model.
    pub agent_has_model: bool,
    /// The estate's intentions allow the agent this model.
    pub allowed: bool,
}

pub open spec fn eligible(b: BindingFacts) -> bool {
    b.wired && b.agent_has_model && b.allowed
}

/// The eligible bindings among the first `n`, in order.
pub open spec fn eligible_prefix(bs: Seq<BindingFacts>, n: int) -> Seq<Prepared>
    decreases n,
{
    if n <= 0 {
        Seq::empty()
    } else if eligible(bs[n - 1]) {
        eligible_prefix(bs, n - 1).push(Prepared { id: bs[n - 1].id, digest: bs[n - 1].digest })
    } else {
        eligible_prefix(bs, n - 1)
    }
}

/// The candidates the host prepares: for a named agent that the estate
/// knows, each wired binding the agent lists and may use, in binding order;
/// nothing for an unnamed call or an unknown agent.
pub fn prepare_candidates(named_agent_known: bool, bindings: &Vec<BindingFacts>) -> (out: Vec<
    Prepared,
>)
    ensures
        out@ == if named_agent_known {
            eligible_prefix(bindings@, bindings@.len() as int)
        } else {
            Seq::empty()
        },
{
    let mut out: Vec<Prepared> = Vec::new();
    if !named_agent_known {
        return out;
    }
    for i in 0..bindings.len()
        invariant
            out@ == eligible_prefix(bindings@, i as int),
    {
        let b = &bindings[i];
        if b.wired && b.agent_has_model && b.allowed {
            out.push(Prepared { id: b.id.clone(), digest: b.digest.clone() });
            assert(out@ =~= eligible_prefix(bindings@, i + 1));
        }
    }
    out
}

// ---------------------------------------------------------------- outcomes

/// Why a model driver refused a `complete`, as far as the outcome reads it.
#[derive(Clone, Debug, PartialEq, Eq)]
pub enum DriverRefusal {
    MissingEndpoint,
    MissingCreds,
    MissingFrontierKey,
    NotWired,
    Unknown,
    Denied,
    Refused,
    /// Any other error, by its message.
    Other(String),
}

/// The receipt outcome for a driver refusal.
pub open spec fn driver_outcome(e: DriverRefusal) -> Seq<char> {
    match e {
        DriverRefusal::MissingEndpoint => "refuse:missing-endpoint"@,
        DriverRefusal::MissingCreds => "refuse:missing-creds"@,
        DriverRefusal::MissingFrontierKey => "refuse:missing-creds"@,
        DriverRefusal::NotWired => "refuse:not-wired"@,
        DriverRefusal::Unknown => "refuse:unknown-binding"@,
        DriverRefusal::Denied => "refuse:denied"@,
        DriverRefusal::Refused => "refuse:refused"@,
        DriverRefusal::Other(text) => outcome_stub(text@),
    }
}

/// The outcome recorded when the driver behind `complete` refuses: a
/// named refusal for each known cause, else the stub of the message.
pub fn complete_driver_outcome(err: &DriverRefusal) -> (out: String)
    ensures
        out@ == driver_outcome(*err),
{
    match err {
        DriverRefusal::MissingEndpoint => new_string("refuse:missing-endpoint"),
        DriverRefusal::MissingCreds => new_string("refuse:missing-creds"),
        DriverRefusal::MissingFrontierKey => new_string("refuse:missing-creds"),
        DriverRefusal::NotWired => new_string("refuse:not-wired"),
        DriverRefusal::Unknown => new_string("refuse:unknown-binding"),
        DriverRefusal::Denied => new_string("refuse:denied"),
        DriverRefusal::Refused => new_string("refuse:refused"),
        DriverRefusal::Other(text) => outcome_stub_from_text(text.as_str()),
    }
}

// ---------------------------------------------------------------- laws on the host's answers

/// A chosen binding that the host prepared, with no digest claimed for it
/// and before expiry, re-validates as `ok` with no fallback, and the
/// decision ends at the validate stage (or the select stage for an
/// abstention).
pub proof fn prepared_choice_without_digest_is_ok(p: Seq<Prepared>, result: Seq<char>, i: int)
    requires
        0 <= i < p.len(),
        p[i].id@ == result,
    ensures
        spec_revalidate(p, result, None, false) == ("ok"@, None::<Seq<char>>),
        spec_stage(result, "ok"@) == (if result == "abstain"@ {
            "select"@
        } else {
            "validate"@
        }),
{
    lemma_first_match(p, result);
    reveal_strlit("ok");
    reveal_strlit("stale");
    reveal_strlit("ineligible");
    reveal_strlit("expired");
    assert("ok"@.len() == 2 && "stale"@.len() == 5 && "ineligible"@.len() == 10 && "expired"@.len()
        == 7);
}

/// Before expiry, a prepared choice is `stale` exactly when a digest was
/// claimed and it differs from the digest the host prepared for that id
/// (its first row); a claimed digest equal to it is `ok`.
pub proof fn stale_only_on_a_differing_claim(
    p: Seq<Prepared>,
    result: Seq<char>,
    claimed: Option<Seq<char>>,
    i: int,
)
    requires
        0 <= i < p.len(),
        p[i].id@ == result,
        forall|j: int| 0 <= j < i ==> p[j].id@ != result,
        result != "abstain"@,
    ensures
        spec_revalidate(p, result, claimed, false).0 == "stale"@ <==> (claimed matches Some(d) && d
            != p[i].digest@),
        spec_revalidate(p, result, claimed, false).0 == "ok"@ <==> !(claimed matches Some(d) && d
            != p[i].digest@),
{
    lemma_first_match(p, result);
    lemma_first_match_is(p, result, i);
    reveal_strlit("ok");
    reveal_strlit("stale");
    assert("ok"@ != "stale"@) by {
        assert("ok"@.len() != "stale"@.len());
    }
}

/// A choice the host did not prepare is `ineligible` whatever digest was
/// claimed, falls back to the one eligible id when there is exactly one,
/// and ends at the fallback stage; expiry overrides every choice.
pub proof fn unprepared_choice_is_ineligible(
    p: Seq<Prepared>,
    result: Seq<char>,
    claimed: Option<Seq<char>>,
)
    requires
        forall|j: int| 0 <= j < p.len() ==> p[j].id@ != result,
        result != "abstain"@,
    ensures
        spec_revalidate(p, result, claimed, false) == ("ineligible"@, if p.len() == 1 {
            Some(p[0].id@)
        } else {
            None::<Seq<char>>
        }),
        spec_stage(result, "ineligible"@) == "fallback"@,
        spec_revalidate(p, result, claimed, true) == ("expired"@, None::<Seq<char>>),
{
    lemma_first_match(p, result);
    if first_match(p, result) >= 0 {
        assert(p[first_match(p, result)].id@ == result);
    }
}

/// The receipt check accepts every surface the host writes: none
/// (convey), `authorize` and `complete`. A receipt with the receipt
/// schema, an id and a sequence number, a stage and a validation from the
/// decision vocabulary, a result and the `allow` outcome has no problem,
/// whichever of those surfaces it names.
pub proof fn host_surfaces_pass_the_check(r: DecisionReceipt)
    requires
        r.schema@ == "cell-one.decision-receipt.v0"@,
        r.surface@ == ""@ || r.surface@ == "authorize"@ || r.surface@ == "complete"@,
        r.id@.len() > 0,
        r.seq > 0,
        r.stage@ == "select"@ || r.stage@ == "validate"@ || r.stage@ == "fallback"@,
        r.validation@ == "ok"@ || r.validation@ == "stale"@ || r.validation@ == "ineligible"@
            || r.validation@ == "expired"@,
        r.result@.len() > 0,
        r.outcome@ == "allow"@,
    ensures
        receipt_problem(r) is None,
{
    reveal_strlit("");
    reveal_strlit("allow");
    reveal_strlit("enforced");
    assert(!has_word("allow"@, "enforced"@)) by {
        if has_word("allow"@, "enforced"@) {
            let i = choose|i: int| #![trigger occurs_at("allow"@, "enforced"@, i)]
                occurs_at("allow"@, "enforced"@, i) && (i == 0 || is_ws("allow"@[i - 1])) && (i
                + "enforced"@.len() == "allow"@.len() || is_ws("allow"@[i + "enforced"@.len()]));
            assert(occurs_at("allow"@, "enforced"@, i));
        }
    }
}

/// A refusal's class is the text after `refuse:`, trimmed, when that text
/// holds no further `:` and is not blank; and the class never depends on
/// whether a `:`-separated detail follows it.
pub proof fn refuse_class_is_the_named_code(c: Seq<char>, detail: Seq<char>)
    requires
        forall|j: int| 0 <= j < c.len() ==> c[j] != ':',
        trim(c).len() > 0,
    ensures
        outcome_stub("refuse:"@ + c) == "refuse:"@ + trim(c),
        outcome_stub("refuse:"@ + c + ":"@ + detail) == "refuse:"@ + trim(c),
{
    reveal_strlit("refuse:");
    reveal_strlit(":");
    let a = "refuse:"@ + c;
    assert(a.subrange(0, 7) =~= "refuse:"@);
    assert(a.skip(7) =~= c);
    lemma_char_index_none(c, ':');
    let b = "refuse:"@ + c + ":"@ + detail;
    assert(b.subrange(0, 7) =~= "refuse:"@);
    let rest = b.skip(7);
    assert(rest =~= c + ":"@ + detail);
    assert(rest[c.len() as int] == ':');
    lemma_char_index_is(rest, ':', c.len() as int);
    assert(rest.take(c.len() as int) =~= c);
}

} // verus!
