//! The pre-merge checks of `doctor --strict` that read fixtures and source
//! trees: the sacred locks, the dual-layer demo, the refuse fixtures, and
//! the vendor needles in floor sources.

use vstd::prelude::*;
use crate::ci::{floor_needle_hits, floor_needles, needle_hits, string_views};
use crate::export_repair::{join_strings, member, chars_list, sv};
use crate::paths::{extension, file_name};
use crate::text::{chars_of, equals_str, extend_chars, extend_str, join, string_of, to_lower, views};

verus! {

// ---------------------------------------------------------------- needles

/// One floor source file: its path under the source root and its text.
#[derive(Clone, Debug, PartialEq, Eq)]
pub struct SourceFile {
    pub rel: String,
    pub text: String,
}

/// The path ends in a `.rs` file name.
pub open spec fn is_rust_source(rel: Seq<char>) -> bool {
    match file_name(rel) {
        Some(n) => extension(n) == Some("rs"@),
        None => false,
    }
}

/// The needle hits of the first `n` files, Rust sources only.
pub open spec fn source_hits(fs: Seq<SourceFile>, n: int) -> Seq<Seq<char>>
    decreases n,
{
    if n <= 0 {
        Seq::empty()
    } else {
        let f = fs[n - 1];
        source_hits(fs, n - 1) + if is_rust_source(f.rel@) {
            needle_hits(f.rel@, to_lower(f.text@), floor_needles())
        } else {
            Seq::empty()
        }
    }
}

fn rust_source_exec(rel: &str) -> (r: bool)
    requires
        rel@.len() < i64::MAX,
    ensures
        r == is_rust_source(rel@),
{
    crate::paths::has_extension(rel, "rs")
}

/// The vendor-needle hits of a floor source tree, file by file in the
/// order given; files that are not `.rs` are skipped.
pub fn scan_needles(files: &Vec<SourceFile>) -> (out: Vec<String>)
    requires
        forall|i: int| 0 <= i < files@.len() ==> (#[trigger] files@[i]).rel@.len() < i64::MAX,
    ensures
        sv(out@) == source_hits(files@, files@.len() as int),
{
    let mut out: Vec<String> = Vec::new();
    for i in 0..files.len()
        invariant
            forall|i: int| 0 <= i < files@.len() ==> (#[trigger] files@[i]).rel@.len() < i64::MAX,
            sv(out@) == source_hits(files@, i as int),
    {
        let f = &files[i];
        assert(f.rel@.len() < i64::MAX);
        if rust_source_exec(f.rel.as_str()) {
            let hits = floor_needle_hits(f.rel.as_str(), f.text.as_str());
            let ghost before = sv(out@);
            assert(sv(hits@) =~= string_views(hits@));
            for k in 0..hits.len()
                invariant
                    sv(out@) == before + sv(hits@).take(k as int),
            {
                let ghost prev = sv(out@);
                out.push(hits[k].clone());
                assert(sv(out@) =~= prev.push(hits@[k as int]@));
                assert(sv(hits@).take(k + 1) =~= sv(hits@).take(k as int).push(hits@[k as int]@));
            }
            assert(sv(hits@).take(hits@.len() as int) =~= sv(hits@));
        } else {
            assert(source_hits(files@, i + 1) =~= source_hits(files@, i as int));
        }
    }
    out
}

// ---------------------------------------------------------------- fixtures

/// The refuse fixtures a checkout must keep.
pub open spec fn refuse_fixtures() -> Seq<Seq<char>> {
    seq![
        "examples/fixtures/refuse-sanctum-as-cyera.yaml"@,
        "examples/fixtures/sacred-omit-locked.yaml"@,
        "examples/fixtures/refuse-sacred-as-agent.yaml"@,
        "examples/fixtures/refuse-missing-sacred.yaml"@,
    ]
}

pub const REFUSE_FIXTURE_COUNT: usize = 4;

pub fn refuse_fixture(i: usize) -> (r: &'static str)
    requires
        i < REFUSE_FIXTURE_COUNT,
    ensures
        r@ == refuse_fixtures()[i as int],
{
    match i {
        0 => "examples/fixtures/refuse-sanctum-as-cyera.yaml",
        1 => "examples/fixtures/sacred-omit-locked.yaml",
        2 => "examples/fixtures/refuse-sacred-as-agent.yaml",
        _ => "examples/fixtures/refuse-missing-sacred.yaml",
    }
}

pub open spec fn missing_fixtures(present: Seq<bool>, n: int) -> Seq<Seq<char>>
    decreases n,
{
    if n <= 0 {
        Seq::empty()
    } else if 0 <= n - 1 < present.len() && present[n - 1] {
        missing_fixtures(present, n - 1)
    } else {
        missing_fixtures(present, n - 1).push("missing "@ + refuse_fixtures()[n - 1])
    }
}

/// `missing <fixture>` for each refuse fixture not present (`present[i]`
/// for the `i`-th).
pub fn refuse_fixture_fails(present: &Vec<bool>) -> (out: Vec<String>)
    ensures
        sv(out@) == missing_fixtures(present@, REFUSE_FIXTURE_COUNT as int),
{
    let mut out: Vec<String> = Vec::new();
    for i in 0..REFUSE_FIXTURE_COUNT
        invariant
            sv(out@) == missing_fixtures(present@, i as int),
    {
        if !(i < present.len() && present[i]) {
            let mut m = chars_of("missing ");
            extend_str(&mut m, refuse_fixture(i));
            let ghost before = sv(out@);
            out.push(string_of(&m));
            assert(sv(out@) =~= before.push(m@));
        }
    }
    out
}

// ---------------------------------------------------------------- sacred

/// A locked sacred id and its normalized form.
#[derive(Clone, Debug, PartialEq, Eq)]
pub struct LockedId {
    pub id: String,
    pub normalized: String,
}

/// The locked ids among the first `n` whose normalized form is not
/// declared.
pub open spec fn missing_locks(declared: Seq<Seq<char>>, locked: Seq<LockedId>, n: int) -> Seq<
    Seq<char>,
>
    decreases n,
{
    if n <= 0 {
        Seq::empty()
    } else if declared.contains(locked[n - 1].normalized@) {
        missing_locks(declared, locked, n - 1)
    } else {
        missing_locks(declared, locked, n - 1).push(locked[n - 1].id@)
    }
}

/// The refusal for a sacred file that does not lock every locked id:
/// `declared` holds the normalized ids the file locks.
pub fn locked_sacred_problem(declared: &Vec<String>, locked: &Vec<LockedId>) -> (r: Option<String>)
    ensures
        match r {
            None => missing_locks(sv(declared@), locked@, locked@.len() as int).len() == 0,
            Some(e) => missing_locks(sv(declared@), locked@, locked@.len() as int).len() > 0 && e@
                == "policy/sacred.yaml missing locked "@ + join(
                missing_locks(sv(declared@), locked@, locked@.len() as int),
                ","@,
            ),
        },
{
    let d = chars_list(declared);
    let mut missing: Vec<String> = Vec::new();
    for i in 0..locked.len()
        invariant
            views(d@) == sv(declared@),
            sv(missing@) == missing_locks(sv(declared@), locked@, i as int),
    {
        let n = chars_of(locked[i].normalized.as_str());
        if !member(&d, &n) {
            let ghost before = sv(missing@);
            missing.push(locked[i].id.clone());
            assert(sv(missing@) =~= before.push(locked@[i as int].id@));
        }
    }
    if missing.len() == 0 {
        return None;
    }
    let mut m = chars_of("policy/sacred.yaml missing locked ");
    let j = join_strings(&missing, missing.len(), ",");
    assert(sv(missing@).take(missing@.len() as int) =~= sv(missing@));
    extend_chars(&mut m, &j);
    Some(string_of(&m))
}

// ---------------------------------------------------------------- demo

/// The class of a model binding.
#[derive(Clone, Copy, Debug, PartialEq, Eq)]
pub enum BindingClass {
    Frontier,
    Local,
}

/// An estate agent as the demo check reads it.
#[derive(Clone, Debug, PartialEq, Eq)]
pub struct DemoAgent {
    /// The normalized agent id.
    pub id: String,
    /// The display name is a sacred name.
    pub display_sacred: bool,
}

/// What the dual-layer demo check reads of the demo estate.
#[derive(Clone, Debug, PartialEq, Eq)]
pub struct DemoFacts {
    pub agents: Vec<DemoAgent>,
    /// The normalized ids of the estate's sacred exclusions.
    pub exclusions: Vec<String>,
    /// The normalized locked sacred ids.
    pub locked: Vec<String>,
    pub bindings: Vec<BindingClass>,
    /// `sanctum` itself is a sacred name.
    pub sanctum_sacred: bool,
}

pub open spec fn demo_ok(f: DemoFacts) -> bool {
    &&& exists|i: int| 0 <= i < f.agents@.len() && (#[trigger] f.agents@[i]).id@ == "sanctum"@
    &&& forall|i: int|
        0 <= i < f.agents@.len() ==> (#[trigger] f.agents@[i]).id@ != "sanctum"@
            || !f.agents@[i].display_sacred
    &&& forall|i: int| 0 <= i < f.locked@.len() ==> sv(f.exclusions@).contains(#[trigger] f.locked@[i]@)
    &&& f.bindings@.contains(BindingClass::Frontier)
    &&& f.bindings@.contains(BindingClass::Local)
    &&& !f.sanctum_sacred
}

pub open spec fn demo_text() -> Seq<char> {
    "examples/fixtures/dual-layer-demo.yaml must keep Sanctum first-class and declare locked exclusions"@
}

/// The dual-layer demo keeps Sanctum a first-class agent that is not
/// sacred, declares every locked exclusion, and binds both a frontier and
/// a local model; otherwise the refusal.
pub fn dual_layer_demo_problem(facts: &DemoFacts) -> (r: Option<String>)
    ensures
        r is None <==> demo_ok(*facts),
        r matches Some(e) ==> e@ == demo_text(),
{
    let mut has_sanctum = false;
    let mut clean = true;
    for i in 0..facts.agents.len()
        invariant
            has_sanctum <==> exists|k: int| 0 <= k < i && (#[trigger] facts.agents@[k]).id@ == "sanctum"@,
            clean <==> forall|k: int|
                0 <= k < i ==> (#[trigger] facts.agents@[k]).id@ != "sanctum"@
                    || !facts.agents@[k].display_sacred,
    {
        let a = &facts.agents[i];
        if equals_str(&chars_of(a.id.as_str()), "sanctum") {
            has_sanctum = true;
            if a.display_sacred {
                clean = false;
            }
        }
    }
    let ex = chars_list(&facts.exclusions);
    let mut locks = true;
    for i in 0..facts.locked.len()
        invariant
            views(ex@) == sv(facts.exclusions@),
            locks <==> forall|k: int| 0 <= k < i ==> sv(facts.exclusions@).contains(#[trigger] facts.locked@[k]@),
    {
        if !member(&ex, &chars_of(facts.locked[i].as_str())) {
            locks = false;
        }
    }
    let mut frontier = false;
    let mut local = false;
    for i in 0..facts.bindings.len()
        invariant
            frontier <==> facts.bindings@.take(i as int).contains(BindingClass::Frontier),
            local <==> facts.bindings@.take(i as int).contains(BindingClass::Local),
    {
        let ghost t1 = facts.bindings@.take(i + 1);
        let ghost t0 = facts.bindings@.take(i as int);
        proof {
            assert(t1 =~= t0.push(facts.bindings@[i as int]));
        }
        match facts.bindings[i] {
            BindingClass::Frontier => {
                frontier = true;
                assert(t1[i as int] == BindingClass::Frontier);
            },
            BindingClass::Local => {
                local = true;
                assert(t1[i as int] == BindingClass::Local);
            },
        }
        proof {
            if t0.contains(BindingClass::Frontier) {
                let w = choose|w: int| 0 <= w < t0.len() && t0[w] == BindingClass::Frontier;
                assert(t1[w] == BindingClass::Frontier);
            }
            if t0.contains(BindingClass::Local) {
                let w = choose|w: int| 0 <= w < t0.len() && t0[w] == BindingClass::Local;
                assert(t1[w] == BindingClass::Local);
            }
            if t1.contains(BindingClass::Frontier) && facts.bindings@[i as int] != BindingClass::Frontier {
                let w = choose|w: int| 0 <= w < t1.len() && t1[w] == BindingClass::Frontier;
                assert(t0[w] == BindingClass::Frontier);
            }
            if t1.contains(BindingClass::Local) && facts.bindings@[i as int] != BindingClass::Local {
                let w = choose|w: int| 0 <= w < t1.len() && t1[w] == BindingClass::Local;
                assert(t0[w] == BindingClass::Local);
            }
        }
    }
    assert(facts.bindings@.take(facts.bindings@.len() as int) =~= facts.bindings@);
    if has_sanctum && clean && locks && frontier && local && !facts.sanctum_sacred {
        None
    } else {
        Some(
            string_of(
                &chars_of(
                    "examples/fixtures/dual-layer-demo.yaml must keep Sanctum first-class and declare locked exclusions",
                ),
            ),
        )
    }
}

} // verus!
