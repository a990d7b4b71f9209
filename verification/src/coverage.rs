//! Coverage cites: which rows fail closed, which stay notes, and which
//! hop / agent / capability triples a hop-coverage check asks about.
//!
//! A hard cite bails with its own line; deny and deny-default rows stay
//! notes. Each triple is asked about once, in lease order, then in the
//! order of the hop declarations that no lease covers.

use vstd::prelude::*;
use crate::export_repair::sv;
use crate::text::{chars_of, equals_str, equals_vec, extend_str, string_of};

verus! {

/// One coverage row as a citer reports it.
#[derive(Clone, Debug, PartialEq, Eq)]
pub struct CoverageCite {
    /// A hard cite: the row fails closed.
    pub fail: bool,
    pub line: String,
}

/// The printed form of a cite.
pub open spec fn cite_text(c: CoverageCite) -> Seq<char> {
    if c.fail {
        "  FAIL  "@ + c.line@
    } else {
        "  note  "@ + c.line@
    }
}

/// The line of the first hard cite.
pub open spec fn first_hard(cs: Seq<CoverageCite>) -> Option<Seq<char>>
    decreases cs.len(),
{
    if cs.len() == 0 {
        None
    } else {
        match first_hard(cs.drop_last()) {
            Some(l) => Some(l),
            None => if cs.last().fail {
                Some(cs.last().line@)
            } else {
                None
            },
        }
    }
}

/// The printed lines of `cites`, in order: `FAIL` for a hard cite, `note`
/// for the rest.
pub fn cite_lines(cites: &Vec<CoverageCite>) -> (out: Vec<String>)
    ensures
        sv(out@) == cites@.map_values(|c: CoverageCite| cite_text(c)),
{
    let mut out: Vec<String> = Vec::new();
    for i in 0..cites.len()
        invariant
            sv(out@) == cites@.take(i as int).map_values(|c: CoverageCite| cite_text(c)),
    {
        let c = &cites[i];
        let mut m = chars_of(if c.fail { "  FAIL  " } else { "  note  " });
        extend_str(&mut m, c.line.as_str());
        let ghost before = sv(out@);
        out.push(string_of(&m));
        assert(sv(out@) =~= before.push(cite_text(*c)));
        assert(cites@.take(i + 1).map_values(|c: CoverageCite| cite_text(c)) =~= cites@.take(
            i as int,
        ).map_values(|c: CoverageCite| cite_text(c)).push(cite_text(*c)));
    }
    assert(cites@.take(cites.len() as int) =~= cites@);
    out
}

/// The line of the first hard cite, if any.
pub fn first_hard_cite(cites: &Vec<CoverageCite>) -> (r: Option<String>)
    ensures
        match r {
            Some(l) => first_hard(cites@) == Some(l@),
            None => first_hard(cites@) is None,
        },
{
    for i in 0..cites.len()
        invariant
            first_hard(cites@.take(i as int)) is None,
    {
        let ghost t = cites@.take(i + 1);
        proof {
            assert(t.drop_last() =~= cites@.take(i as int));
        }
        if cites[i].fail {
            proof {
                assert(first_hard(t) == Some(cites@[i as int].line@));
                lemma_first_hard_prefix(cites@, i + 1);
            }
            return Some(cites[i].line.clone());
        }
    }
    assert(cites@.take(cites.len() as int) =~= cites@);
    None
}

proof fn lemma_first_hard_prefix(cs: Seq<CoverageCite>, k: int)
    requires
        0 <= k <= cs.len(),
        first_hard(cs.take(k)) is Some,
    ensures
        first_hard(cs) == first_hard(cs.take(k)),
    decreases cs.len(),
{
    if k == cs.len() {
        assert(cs.take(k) =~= cs);
    } else {
        assert(cs.drop_last().take(k) =~= cs.take(k));
        lemma_first_hard_prefix(cs.drop_last(), k);
    }
}

/// Declared tool, MCP, and mount cites: the first hard cite's line is the
/// refusal; deny and deny-default notes do not fail.
pub fn refuse_declared_cites(cites: &Vec<CoverageCite>) -> (r: Result<(), String>)
    ensures
        match r {
            Ok(_) => first_hard(cites@) is None,
            Err(l) => first_hard(cites@) == Some(l@),
        },
{
    match first_hard_cite(cites) {
        Some(l) => Err(l),
        None => Ok(()),
    }
}

// ---------------------------------------------------------------- hops

/// What the hop-coverage check reads of one hop lease.
#[derive(Clone, Debug, PartialEq, Eq)]
pub struct HopLeaseFacts {
    pub hop_id: String,
    /// The lease's kind is a cloud kind (declared, never spawned).
    pub cloud: bool,
    pub granted: bool,
    pub agents: Vec<String>,
    pub capability: String,
}

/// What the hop-coverage check reads of one hop declaration.
#[derive(Clone, Debug, PartialEq, Eq)]
pub struct HopDeclFacts {
    pub id: String,
    pub cloud: bool,
    pub agents: Vec<String>,
    pub capability: String,
}

/// One question for the declared-capability gate.
#[derive(Clone, Debug, PartialEq, Eq)]
pub struct HopSubject {
    pub hop_id: String,
    pub agent: String,
    pub capability: String,
}

pub type Triple = (Seq<char>, Seq<char>, Seq<char>);

pub open spec fn subject_view(s: HopSubject) -> Triple {
    (s.hop_id@, s.agent@, s.capability@)
}

pub open spec fn lease_is_subject(l: HopLeaseFacts) -> bool {
    l.granted && l.agents@.len() > 0 && !l.cloud
}

pub open spec fn decl_is_subject(leases: Seq<HopLeaseFacts>, d: HopDeclFacts) -> bool {
    d.agents@.len() > 0 && !d.cloud && !(exists|k: int|
        0 <= k < leases.len() && (#[trigger] leases[k]).hop_id@ == d.id@)
}

/// The triples of one hop and its first `n` agents.
pub open spec fn agent_triples(hop: Seq<char>, agents: Seq<String>, cap: Seq<char>, n: int) -> Seq<
    Triple,
>
    decreases n,
{
    if n <= 0 {
        Seq::empty()
    } else {
        agent_triples(hop, agents, cap, n - 1).push((hop, agents[n - 1]@, cap))
    }
}

/// The triples the first `n` leases ask about, repeats included.
pub open spec fn lease_triples(ls: Seq<HopLeaseFacts>, n: int) -> Seq<Triple>
    decreases n,
{
    if n <= 0 {
        Seq::empty()
    } else {
        let l = ls[n - 1];
        lease_triples(ls, n - 1) + if lease_is_subject(l) {
            agent_triples(l.hop_id@, l.agents@, l.capability@, l.agents@.len() as int)
        } else {
            Seq::empty()
        }
    }
}

/// The triples the first `n` declarations ask about, repeats included.
pub open spec fn decl_triples(ls: Seq<HopLeaseFacts>, ds: Seq<HopDeclFacts>, n: int) -> Seq<Triple>
    decreases n,
{
    if n <= 0 {
        Seq::empty()
    } else {
        let d = ds[n - 1];
        decl_triples(ls, ds, n - 1) + if decl_is_subject(ls, d) {
            agent_triples(d.id@, d.agents@, d.capability@, d.agents@.len() as int)
        } else {
            Seq::empty()
        }
    }
}

/// `s` with every repeat after the first occurrence dropped.
pub open spec fn first_occurrences(s: Seq<Triple>) -> Seq<Triple>
    decreases s.len(),
{
    if s.len() == 0 {
        Seq::empty()
    } else {
        let d = first_occurrences(s.drop_last());
        if s.drop_last().contains(s.last()) {
            d
        } else {
            d.push(s.last())
        }
    }
}

proof fn lemma_first_occurrences_contains(s: Seq<Triple>)
    ensures
        forall|x: Triple| #[trigger] first_occurrences(s).contains(x) <==> s.contains(x),
    decreases s.len(),
{
    if s.len() > 0 {
        let p = s.drop_last();
        lemma_first_occurrences_contains(p);
        let d = first_occurrences(p);
        assert forall|x: Triple| #[trigger] first_occurrences(s).contains(x) <==> s.contains(x) by {
            if s.contains(x) {
                let w = choose|w: int| 0 <= w < s.len() && s[w] == x;
                if w < s.len() - 1 {
                    assert(p[w] == x);
                    assert(p.contains(x));
                }
            }
            if p.contains(x) {
                let w = choose|w: int| 0 <= w < p.len() && p[w] == x;
                assert(s[w] == x);
            }
            if !p.contains(s.last()) {
                let e = d.push(s.last());
                if e.contains(x) {
                    let w = choose|w: int| 0 <= w < e.len() && e[w] == x;
                    if w < d.len() {
                        assert(d[w] == x);
                    }
                }
                if d.contains(x) {
                    let w = choose|w: int| 0 <= w < d.len() && d[w] == x;
                    assert(e[w] == x);
                }
                if x == s.last() {
                    assert(e[d.len() as int] == x);
                }
            }
        }
    }
}

fn seen_before(seen: &Vec<HopSubject>, hop: &str, agent: &str, cap: &str) -> (r: bool)
    ensures
        r == seen@.map_values(|s: HopSubject| subject_view(s)).contains((hop@, agent@, cap@)),
{
    let ghost v = seen@.map_values(|s: HopSubject| subject_view(s));
    let h = chars_of(hop);
    let a = chars_of(agent);
    let c = chars_of(cap);
    for i in 0..seen.len()
        invariant
            v == seen@.map_values(|s: HopSubject| subject_view(s)),
            h@ == hop@,
            a@ == agent@,
            c@ == cap@,
            forall|j: int| 0 <= j < i ==> v[j] != (hop@, agent@, cap@),
    {
        let s = &seen[i];
        if equals_str(&chars_of(s.hop_id.as_str()), hop) && equals_str(
            &chars_of(s.agent.as_str()),
            agent,
        ) && equals_str(&chars_of(s.capability.as_str()), cap) {
            assert(v[i as int] == (hop@, agent@, cap@));
            return true;
        }
        assert(v[i as int] == subject_view(*s));
    }
    false
}

fn push_subjects(
    out: &mut Vec<HopSubject>,
    hop: &String,
    agents: &Vec<String>,
    cap: &String,
    Ghost(asked): Ghost<Seq<Triple>>,
)
    requires
        old(out)@.map_values(|s: HopSubject| subject_view(s)) == first_occurrences(asked),
    ensures
        final(out)@.map_values(|s: HopSubject| subject_view(s)) == first_occurrences(
            asked + agent_triples(hop@, agents@, cap@, agents@.len() as int),
        ),
{
    for j in 0..agents.len()
        invariant
            out@.map_values(|s: HopSubject| subject_view(s)) == first_occurrences(
                asked + agent_triples(hop@, agents@, cap@, j as int),
            ),
    {
        let ghost prev = asked + agent_triples(hop@, agents@, cap@, j as int);
        let ghost next = asked + agent_triples(hop@, agents@, cap@, j + 1);
        let ghost t = (hop@, agents@[j as int]@, cap@);
        proof {
            assert(next =~= prev.push(t));
            assert(next.drop_last() =~= prev);
            lemma_first_occurrences_contains(prev);
        }
        let ghost before = out@.map_values(|s: HopSubject| subject_view(s));
        if !seen_before(out, hop.as_str(), agents[j].as_str(), cap.as_str()) {
            out.push(HopSubject { hop_id: hop.clone(), agent: agents[j].clone(), capability: cap.clone() });
            assert(out@.map_values(|s: HopSubject| subject_view(s)) =~= before.push(t));
        }
    }
}

/// The hop / agent / capability triples a hop-coverage check asks the
/// declared-capability gate about, each once: first the agents of every
/// granted, non-cloud lease with agents, then those of every non-cloud
/// declaration with agents that no lease covers.
pub fn hop_coverage_subjects(leases: &Vec<HopLeaseFacts>, hops: &Vec<HopDeclFacts>) -> (out: Vec<
    HopSubject,
>)
    ensures
        out@.map_values(|s: HopSubject| subject_view(s)) == first_occurrences(
            lease_triples(leases@, leases@.len() as int) + decl_triples(
                leases@,
                hops@,
                hops@.len() as int,
            ),
        ),
{
    let mut out: Vec<HopSubject> = Vec::new();
    assert(out@.map_values(|s: HopSubject| subject_view(s)) =~= first_occurrences(
        lease_triples(leases@, 0),
    ));
    for i in 0..leases.len()
        invariant
            out@.map_values(|s: HopSubject| subject_view(s)) == first_occurrences(
                lease_triples(leases@, i as int),
            ),
    {
        let l = &leases[i];
        if l.granted && l.agents.len() > 0 && !l.cloud {
            push_subjects(&mut out, &l.hop_id, &l.agents, &l.capability, Ghost(lease_triples(leases@, i as int)));
        } else {
            assert(lease_triples(leases@, i + 1) =~= lease_triples(leases@, i as int));
        }
    }
    let ghost lt = lease_triples(leases@, leases@.len() as int);
    assert(lt + decl_triples(leases@, hops@, 0) =~= lt);
    for i in 0..hops.len()
        invariant
            lt == lease_triples(leases@, leases@.len() as int),
            out@.map_values(|s: HopSubject| subject_view(s)) == first_occurrences(
                lt + decl_triples(leases@, hops@, i as int),
            ),
    {
        let d = &hops[i];
        let mut leased = false;
        let dh = chars_of(d.id.as_str());
        for k in 0..leases.len()
            invariant
                dh@ == d.id@,
                leased <==> exists|q: int| 0 <= q < k && (#[trigger] leases@[q]).hop_id@ == d.id@,
        {
            if equals_vec(&chars_of(leases[k].hop_id.as_str()), &dh) {
                leased = true;
            }
        }
        let ghost prev = lt + decl_triples(leases@, hops@, i as int);
        if d.agents.len() > 0 && !d.cloud && !leased {
            push_subjects(&mut out, &d.id, &d.agents, &d.capability, Ghost(prev));
            assert(lt + decl_triples(leases@, hops@, i + 1) =~= prev + agent_triples(
                d.id@,
                d.agents@,
                d.capability@,
                d.agents@.len() as int,
            ));
        } else {
            assert(lt + decl_triples(leases@, hops@, i + 1) =~= prev);
        }
    }
    out
}

/// What the declared-capability gate answered for one triple it refused.
#[derive(Clone, Debug, PartialEq, Eq)]
pub struct GateRefusal {
    /// `mismatch`, `deny`, or `deny-default`.
    pub word: String,
    pub line: String,
}

pub open spec fn hop_cite_text(g: GateRefusal) -> Seq<char> {
    "refuse:hop-coverage: "@ + g.line@ + " ("@ + g.word@ + ")"@
}

/// The refusals among `gates`, in order.
pub open spec fn refusals(gates: Seq<Option<GateRefusal>>) -> Seq<GateRefusal>
    decreases gates.len(),
{
    if gates.len() == 0 {
        Seq::empty()
    } else {
        match gates.last() {
            Some(g) => refusals(gates.drop_last()).push(g),
            None => refusals(gates.drop_last()),
        }
    }
}

/// Hop-coverage cites from what the declared-capability gate returned for
/// each subject, in order:
/// an allowed triple is quiet; a refused one is cited, and fails only on a
/// capability mismatch.
pub fn hop_coverage_cites(gates: &Vec<Option<GateRefusal>>) -> (out: Vec<CoverageCite>)
    ensures
        out@.len() == refusals(gates@).len(),
        forall|i: int|
            0 <= i < out@.len() ==> (#[trigger] out@[i]).fail == (refusals(gates@)[i].word@
                == "mismatch"@) && out@[i].line@ == hop_cite_text(refusals(gates@)[i]),
{
    let mut out: Vec<CoverageCite> = Vec::new();
    for i in 0..gates.len()
        invariant
            out@.len() == refusals(gates@.take(i as int)).len(),
            forall|k: int|
                0 <= k < out@.len() ==> (#[trigger] out@[k]).fail == (refusals(gates@.take(i as int))[k].word@
                    == "mismatch"@) && out@[k].line@ == hop_cite_text(refusals(gates@.take(i as int))[k]),
    {
        let ghost t = gates@.take(i + 1);
        proof {
            assert(t.drop_last() =~= gates@.take(i as int));
        }
        if let Some(g) = &gates[i] {
            let mut m = chars_of("refuse:hop-coverage: ");
            extend_str(&mut m, g.line.as_str());
            extend_str(&mut m, " (");
            extend_str(&mut m, g.word.as_str());
            extend_str(&mut m, ")");
            let fail = equals_str(&chars_of(g.word.as_str()), "mismatch");
            out.push(CoverageCite { fail, line: string_of(&m) });
        }
    }
    assert(gates@.take(gates.len() as int) =~= gates@);
    out
}

/// Each triple reaches the declared-capability gate at most once.
pub proof fn each_subject_asked_once(asked: Seq<Triple>)
    ensures
        forall|i: int, j: int|
            0 <= i < j < first_occurrences(asked).len() ==> first_occurrences(asked)[i]
                != first_occurrences(asked)[j],
    decreases asked.len(),
{
    if asked.len() > 0 {
        let p = asked.drop_last();
        each_subject_asked_once(p);
        lemma_first_occurrences_contains(p);
        let d = first_occurrences(p);
        if !p.contains(asked.last()) {
            let e = d.push(asked.last());
            assert forall|i: int, j: int| 0 <= i < j < e.len() implies e[i] != e[j] by {
                if j == d.len() {
                    if e[i] == e[j] {
                        assert(d[i] == asked.last());
                        assert(d.contains(asked.last()));
                    }
                } else {
                    assert(e[i] == d[i] && e[j] == d[j]);
                }
            }
        }
    }
}

} // verus!
