//! Pre-merge operator checks on repository text: the compile-only hosted CI
//! workflow, the make aliases, the parked Day-90 document, the example
//! estate hash lock, and vendor needles in the floor sources.
//!
//! Each check takes the text that the operator's files hold and returns the
//! failure line it records, or nothing.

use vstd::prelude::*;
use crate::text::{
    chars_of, contains, contains_str, decimal, ends_with, ends_with_exec, equals_vec, extend_chars,
    extend_str, is_ws, join, lemma_lines_cons, lines, push_decimal, sorted_unique, split_lines,
    starts_with, starts_with_exec, string_of, strictly_sorted, strip_cr, to_lower, to_lower_exec,
    trim, trim_exec, trim_start, trim_start_exec, views,
};

verus! {

/// The hash the example estate must keep.
pub const HASH_LOCK: &'static str = "sha256:dcd7164f04c83f514185e77d2d4f6c23cae6dbb27a9b5da96a28ba1f3c724930";

/// The one hosted workflow allowed.
pub const ALLOWED_WORKFLOW: &'static str = "ci.yml";

// ---------------------------------------------------------------- spec

/// A line whose first non-blank character is `#`.
pub open spec fn is_comment_line(l: Seq<char>) -> bool {
    trim_start(l).len() > 0 && trim_start(l)[0] == '#'
}

/// The lines of `ls` that are not comment lines, in order.
pub open spec fn code_lines(ls: Seq<Seq<char>>) -> Seq<Seq<char>>
    decreases ls.len(),
{
    if ls.len() == 0 {
        seq![]
    } else if is_comment_line(ls.last()) {
        code_lines(ls.drop_last())
    } else {
        code_lines(ls.drop_last()).push(ls.last())
    }
}

/// `text` with its comment lines removed, the rest joined by `\n`.
pub open spec fn stripped(text: Seq<char>) -> Seq<char> {
    join(code_lines(lines(text)), seq!['\n'])
}

/// Some line of `ls`, trimmed, starts with `push:`.
pub open spec fn has_push_trigger(ls: Seq<Seq<char>>) -> bool {
    exists|i: int| 0 <= i < ls.len() && starts_with(trim(ls[i]), "push:"@)
}

/// What is wrong with a hosted CI workflow body, checked in this order:
/// the compile step is missing, `cargo test` runs, `pull_request` is
/// missing, a `push:` trigger is present. `None` when the body is
/// compile-only. Comment lines never count.
pub open spec fn ci_problem(text: Seq<char>) -> Option<Seq<char>> {
    let body = stripped(text);
    if !contains(body, "cargo check --workspace --locked"@) {
        Some("ci.yml must run cargo check --workspace --locked"@)
    } else if contains(body, "cargo test"@) {
        Some("ci.yml must not run cargo test"@)
    } else if !contains(body, "pull_request"@) {
        Some("ci.yml must be pull_request only"@)
    } else if has_push_trigger(lines(body)) {
        Some("ci.yml must not trigger on push"@)
    } else {
        None
    }
}

/// The texts of a vector of strings.
pub open spec fn string_views(v: Seq<String>) -> Seq<Seq<char>> {
    v.map_values(|s: String| s@)
}

/// A file name of a hosted workflow.
pub open spec fn is_workflow_name(n: Seq<char>) -> bool {
    ends_with(n, ".yml"@) || ends_with(n, ".yaml"@)
}

/// A workflow other than the allowed one.
pub open spec fn is_extra_workflow(n: Seq<char>) -> bool {
    is_workflow_name(n) && n != ALLOWED_WORKFLOW@
}

/// `make gate-90` is the thin alias over smoke and the checklist.
pub open spec fn gate90_alias_ok(makefile: Seq<char>, script: Seq<char>) -> bool {
    &&& contains(makefile, "gate-90"@)
    &&& contains(makefile, "scripts/day90-gate.sh"@)
    &&& contains(script, "smoke.sh"@)
    &&& (contains(script, "GATE-90"@) || contains(script, "checklist"@))
}

/// `make feed-loop` walks the scrubbed fixture loop.
pub open spec fn feed_loop_ok(
    makefile: Seq<char>,
    script: Seq<char>,
    script_is_file: bool,
    doc_is_file: bool,
) -> bool {
    &&& contains(makefile, "feed-loop"@)
    &&& contains(makefile, "scripts/feed-loop.sh"@)
    &&& script_is_file
    &&& doc_is_file
    &&& contains(script, "source_drivers"@)
    &&& contains(script, "unset XAI_API_KEY"@)
}

/// The Day-90+ document parks live Mac, GPU, and cloud spawn.
pub open spec fn day90_parked(text: Seq<char>, is_file: bool) -> bool {
    &&& is_file
    &&& contains(text, "MLX"@)
    &&& contains(text, "stub"@)
    &&& (contains(text, "GPU"@) || contains(text, "rented"@))
    &&& contains(text, "cloud"@)
    &&& contains(text, "Mac specialist"@)
    &&& (contains(text, "park"@) || contains(text, "until Jason"@))
}

/// The vendor and SKU needles that floor sources must not name.
pub open spec fn floor_needles() -> Seq<Seq<char>> {
    seq!["xai"@, "grok"@, "5090"@, "cyera"@]
}

/// One hit line per needle of `needles` that the lowercased source holds.
pub open spec fn needle_hits(rel: Seq<char>, lower: Seq<char>, needles: Seq<Seq<char>>) -> Seq<
    Seq<char>,
>
    decreases needles.len(),
{
    if needles.len() == 0 {
        seq![]
    } else if contains(lower, needles.last()) {
        needle_hits(rel, lower, needles.drop_last()).push(rel + " contains "@ + needles.last())
    } else {
        needle_hits(rel, lower, needles.drop_last())
    }
}

// ---------------------------------------------------------------- laws

proof fn lemma_code_lines_prepend_comment(c: Seq<char>, ls: Seq<Seq<char>>)
    requires
        is_comment_line(c),
    ensures
        code_lines(seq![c] + ls) == code_lines(ls),
    decreases ls.len(),
{
    if ls.len() == 0 {
        assert(seq![c] + ls =~= seq![c]);
        assert(seq![c].drop_last() =~= Seq::<Seq<char>>::empty());
        assert(seq![c].last() == c);
        assert(code_lines(seq![c]) == code_lines(seq![c].drop_last()));
    } else {
        let whole = seq![c] + ls;
        assert(whole.drop_last() =~= seq![c] + ls.drop_last());
        assert(whole.last() == ls.last());
        lemma_code_lines_prepend_comment(c, ls.drop_last());
        if is_comment_line(ls.last()) {
            assert(code_lines(whole) == code_lines(whole.drop_last()));
        } else {
            assert(code_lines(whole) == code_lines(whole.drop_last()).push(whole.last()));
        }
    }
}

proof fn lemma_trim_start_comment_drop_cr(c: Seq<char>)
    requires
        is_comment_line(c),
        c.len() > 0,
        c.last() == '\r',
    ensures
        is_comment_line(c.drop_last()),
    decreases c.len(),
{
    if is_ws(c[0]) {
        let d = c.drop_first();
        assert(trim_start(c) == trim_start(d));
        assert(d.len() > 0);
        assert(d.last() == '\r');
        lemma_trim_start_comment_drop_cr(d);
        assert(c.drop_last().drop_first() =~= d.drop_last());
        assert(c.drop_last()[0] == c[0]);
    } else {
        assert(trim_start(c) == c);
        assert(c[0] == '#');
        assert(c.len() >= 2);
        assert(c.drop_last()[0] == '#');
    }
}

/// Comment lines are ignored: putting a comment line (one whose first
/// non-blank character is `#`, mentioning `cargo test`, `push:`, or
/// anything else) in front of a workflow never changes its verdict.
pub proof fn comment_line_is_ignored(c: Seq<char>, t: Seq<char>)
    requires
        forall|j: int| 0 <= j < c.len() ==> c[j] != '\n',
        is_comment_line(c),
    ensures
        ci_problem(c + seq!['\n'] + t) == ci_problem(t),
{
    lemma_lines_cons(c, t);
    if c.len() > 0 && c.last() == '\r' {
        lemma_trim_start_comment_drop_cr(c);
    }
    assert(is_comment_line(strip_cr(c)));
    lemma_code_lines_prepend_comment(strip_cr(c), lines(t));
    assert(stripped(c + seq!['\n'] + t) == stripped(t));
}

// ---------------------------------------------------------------- exec

/// `text` without its comment lines.
pub fn strip_hash_comments(text: &str) -> (out: String)
    ensures
        out@ == stripped(text@),
{
    let cs = chars_of(text);
    let out = strip_hash_comment_chars(&cs);
    string_of(&out)
}

fn is_comment_line_exec(l: &Vec<char>) -> (r: bool)
    ensures
        r == is_comment_line(l@),
{
    let t = trim_start_exec(l);
    t.len() > 0 && t[0] == '#'
}

fn strip_hash_comment_chars(text: &Vec<char>) -> (out: Vec<char>)
    ensures
        out@ == stripped(text@),
{
    let ls = split_lines(text);
    let mut out: Vec<char> = Vec::new();
    let mut kept: usize = 0;
    let ghost mut kept_lines: Seq<Seq<char>> = seq![];
    for i in 0..ls.len()
        invariant
            kept_lines == code_lines(views(ls@).take(i as int)),
            kept == kept_lines.len(),
            kept <= i,
            out@ == join(kept_lines, seq!['\n']),
    {
        let ghost all = views(ls@);
        proof {
            assert(all.take(i + 1).drop_last() =~= all.take(i as int));
            assert(all.take(i + 1).last() == ls@[i as int]@);
        }
        if !is_comment_line_exec(&ls[i]) {
            if kept > 0 {
                out.push('\n');
            }
            extend_chars(&mut out, &ls[i]);
            proof {
                let nk = kept_lines.push(ls@[i as int]@);
                assert(nk.drop_last() =~= kept_lines);
                if kept == 0 {
                    assert(out@ =~= ls@[i as int]@);
                } else {
                    assert(out@ =~= join(kept_lines, seq!['\n']) + seq!['\n'] + ls@[i as int]@);
                }
                kept_lines = nk;
            }
            kept += 1;
        }
    }
    assert(views(ls@).take(ls.len() as int) =~= views(ls@));
    out
}

fn has_push_trigger_exec(ls: &Vec<Vec<char>>) -> (r: bool)
    ensures
        r == has_push_trigger(views(ls@)),
{
    let push = chars_of("push:");
    for i in 0..ls.len()
        invariant
            push@ == "push:"@,
            forall|j: int| 0 <= j < i ==> !starts_with(trim(views(ls@)[j]), "push:"@),
    {
        let t = trim_exec(&ls[i]);
        if starts_with_exec(&t, &push) {
            assert(views(ls@)[i as int] == ls@[i as int]@);
            return true;
        }
    }
    false
}

/// The compile-only CI body check: `Ok` when the body (comments ignored)
/// runs the workspace check, no `cargo test`, on `pull_request` only and
/// never on `push`; else the first problem found.
pub fn compile_only_ci(text: &str) -> (r: Result<(), String>)
    ensures
        match r {
            Ok(_) => ci_problem(text@) is None,
            Err(e) => ci_problem(text@) == Some(e@),
        },
{
    let cs = chars_of(text);
    let body = strip_hash_comment_chars(&cs);
    if !contains_str(&body, "cargo check --workspace --locked") {
        return Err(String::from_str("ci.yml must run cargo check --workspace --locked"));
    }
    if contains_str(&body, "cargo test") {
        return Err(String::from_str("ci.yml must not run cargo test"));
    }
    if !contains_str(&body, "pull_request") {
        return Err(String::from_str("ci.yml must be pull_request only"));
    }
    let ls = split_lines(&body);
    if has_push_trigger_exec(&ls) {
        return Err(String::from_str("ci.yml must not trigger on push"));
    }
    Ok(())
}

/// The hosted CI file check: a missing `ci.yml` is its own failure line;
/// a present one fails with the body problem.
pub fn ci_yml_problem(text: Option<&str>) -> (r: Option<String>)
    ensures
        match text {
            None => r matches Some(m) && m@ == "missing compile-only ci.yml"@,
            Some(t) => match ci_problem(t@) {
                None => r is None,
                Some(p) => r matches Some(m) && m@ == p,
            },
        },
{
    match text {
        None => Some(String::from_str("missing compile-only ci.yml")),
        Some(t) => match compile_only_ci(t) {
            Ok(()) => None,
            Err(e) => Some(e),
        },
    }
}

/// What the hosted workflows directory holds, as the doctor sees it.
#[derive(Clone, Debug, PartialEq, Eq)]
pub enum HostedCiStatus {
    CompileOnly,
    Missing,
    Extra(Vec<String>),
}

fn strings_of(v: &Vec<Vec<char>>) -> (out: Vec<String>)
    ensures
        string_views(out@) == views(v@),
{
    let mut out: Vec<String> = Vec::new();
    for i in 0..v.len()
        invariant
            string_views(out@) == views(v@).take(i as int),
    {
        let s = string_of(&v[i]);
        assert(s@ == views(v@)[i as int]);
        let ghost before = string_views(out@);
        out.push(s);
        assert(string_views(out@) =~= before.push(views(v@)[i as int]));
        assert(string_views(out@) =~= views(v@).take(i + 1));
    }
    assert(views(v@).take(v.len() as int) =~= views(v@));
    out
}

/// The hosted CI verdict over the file names in `.github/workflows`:
/// every `.yml`/`.yaml` name other than `ci.yml` is an extra workflow
/// (listed sorted); with none, `ci.yml` present is compile-only and absent
/// is missing.
pub fn hosted_ci_status(entries: &Vec<String>) -> (r: HostedCiStatus)
    ensures
        match r {
            HostedCiStatus::Extra(extra) => {
                &&& extra@.len() > 0
                &&& strictly_sorted(string_views(extra@))
                &&& forall|n: Seq<char>|
                    string_views(extra@).contains(n) <==> (string_views(entries@).contains(n)
                        && is_extra_workflow(n))
            },
            HostedCiStatus::CompileOnly => {
                &&& forall|n: Seq<char>|
                    string_views(entries@).contains(n) ==> !is_extra_workflow(n)
                &&& string_views(entries@).contains(ALLOWED_WORKFLOW@)
            },
            HostedCiStatus::Missing => {
                &&& forall|n: Seq<char>|
                    string_views(entries@).contains(n) ==> !is_extra_workflow(n)
                &&& !string_views(entries@).contains(ALLOWED_WORKFLOW@)
            },
        },
{
    let allowed = chars_of(ALLOWED_WORKFLOW);
    let yml = chars_of(".yml");
    let yaml = chars_of(".yaml");
    let mut extra: Vec<Vec<char>> = Vec::new();
    let mut has_allowed = false;
    let ghost sv = string_views(entries@);
    let mut i: usize = 0;
    while i < entries.len()
        invariant
            i <= entries.len(),
            sv == string_views(entries@),
            allowed@ == ALLOWED_WORKFLOW@,
            yml@ == ".yml"@,
            yaml@ == ".yaml"@,
            forall|n: Seq<char>|
                #![trigger views(extra@).contains(n)]
                #![trigger is_extra_workflow(n)]
                views(extra@).contains(n) <==> ((exists|j: int| 0 <= j < i && #[trigger] sv[j] == n)
                    && is_extra_workflow(n)),
            has_allowed == (exists|j: int| 0 <= j < i && #[trigger] sv[j] == ALLOWED_WORKFLOW@),
        decreases entries.len() - i,
    {
        let name = chars_of(entries[i].as_str());
        assert(sv[i as int] == name@);
        let workflow = ends_with_exec(&name, &yml) || ends_with_exec(&name, &yaml);
        let is_allowed = equals_vec(&name, &allowed);
        let ghost before = views(extra@);
        if workflow && !is_allowed {
            extra.push(name);
            assert(views(extra@) =~= before.push(sv[i as int]));
        }
        proof {
            assert forall|n: Seq<char>|
                #![trigger views(extra@).contains(n)]
                #![trigger is_extra_workflow(n)]
                views(extra@).contains(n) <==> ((exists|j: int| 0 <= j < i + 1 && #[trigger] sv[j]
                    == n) && is_extra_workflow(n)) by {
                if views(extra@).contains(n) && !before.contains(n) {
                    let w = choose|w: int| 0 <= w < views(extra@).len() && views(extra@)[w] == n;
                    assert(w == before.len());
                    assert(sv[i as int] == n);
                }
                if before.contains(n) {
                    let w = choose|w: int| 0 <= w < before.len() && before[w] == n;
                    assert(views(extra@)[w] == n);
                }
                if (exists|j: int| 0 <= j < i + 1 && #[trigger] sv[j] == n) && is_extra_workflow(n) {
                    let j = choose|j: int| 0 <= j < i + 1 && #[trigger] sv[j] == n;
                    if j == i {
                        assert(views(extra@)[views(extra@).len() - 1] == n);
                    } else {
                        assert(exists|j2: int| 0 <= j2 < i && #[trigger] sv[j2] == n);
                        assert(before.contains(n));
                        let w = choose|w: int| 0 <= w < before.len() && before[w] == n;
                        assert(views(extra@)[w] == n);
                    }
                }
                if views(extra@).contains(n) {
                    if before.contains(n) {
                        let j = choose|j: int| 0 <= j < i && #[trigger] sv[j] == n;
                        assert(sv[j] == n);
                    } else {
                        assert(sv[i as int] == n);
                    }
                }
            }
        }
        if is_allowed {
            has_allowed = true;
        }
        i += 1;
    }
    proof {
        assert forall|n: Seq<char>|
            views(extra@).contains(n) <==> (sv.contains(n) && is_extra_workflow(n)) by {
            if views(extra@).contains(n) || is_extra_workflow(n) {
            }
            if sv.contains(n) {
                let j = choose|j: int| 0 <= j < sv.len() && sv[j] == n;
                assert(sv[j] == n);
            }
        }
        if sv.contains(ALLOWED_WORKFLOW@) {
            let j = choose|j: int| 0 <= j < sv.len() && sv[j] == ALLOWED_WORKFLOW@;
            assert(sv[j] == ALLOWED_WORKFLOW@);
        }
    }
    if extra.len() > 0 {
        let sorted = sorted_unique(&extra);
        proof {
            assert(views(extra@).contains(views(extra@)[0]));
            assert(views(sorted@).contains(views(extra@)[0]));
        }
        let out = strings_of(&sorted);
        return HostedCiStatus::Extra(out);
    }
    proof {
        assert forall|n: Seq<char>|
            string_views(entries@).contains(n) implies !is_extra_workflow(n) by {
            if is_extra_workflow(n) {
                assert(views(extra@).contains(n));
            }
        }
    }
    if has_allowed {
        HostedCiStatus::CompileOnly
    } else {
        HostedCiStatus::Missing
    }
}

/// The `make gate-90` alias check over the Makefile and gate script text.
pub fn check_gate90_alias(makefile: &str, script: &str) -> (r: Option<String>)
    ensures
        gate90_alias_ok(makefile@, script@) ==> r is None,
        !gate90_alias_ok(makefile@, script@) ==> (r matches Some(m) && m@
            == "make gate-90 must be a thin alias (smoke + checklist)"@),
{
    let m = chars_of(makefile);
    let s = chars_of(script);
    let ok = contains_str(&m, "gate-90") && contains_str(&m, "scripts/day90-gate.sh")
        && contains_str(&s, "smoke.sh") && (contains_str(&s, "GATE-90") || contains_str(
        &s,
        "checklist",
    ));
    if ok {
        None
    } else {
        Some(String::from_str("make gate-90 must be a thin alias (smoke + checklist)"))
    }
}

/// The `make feed-loop` fixture walk check.
pub fn check_feed_loop(
    makefile: &str,
    script: &str,
    script_is_file: bool,
    doc_is_file: bool,
) -> (r: Option<String>)
    ensures
        feed_loop_ok(makefile@, script@, script_is_file, doc_is_file) ==> r is None,
        !feed_loop_ok(makefile@, script@, script_is_file, doc_is_file) ==> (r matches Some(m)
            && m@ == "make feed-loop fixture walk missing (script + docs + Makefile)"@),
{
    let m = chars_of(makefile);
    let s = chars_of(script);
    let ok = contains_str(&m, "feed-loop") && contains_str(&m, "scripts/feed-loop.sh")
        && script_is_file && doc_is_file && contains_str(&s, "source_drivers") && contains_str(
        &s,
        "unset XAI_API_KEY",
    );
    if ok {
        None
    } else {
        Some(String::from_str("make feed-loop fixture walk missing (script + docs + Makefile)"))
    }
}

/// The Day-90+ parking check on `docs/DAY90-PLUS.md`.
pub fn check_day90_plus(text: &str, is_file: bool) -> (r: Option<String>)
    ensures
        day90_parked(text@, is_file) ==> r is None,
        !day90_parked(text@, is_file) ==> (r matches Some(m) && m@
            == "docs/DAY90-PLUS.md must honestly park live Mac / GPU / cloud-spawn"@),
{
    let t = chars_of(text);
    let parked = contains_str(&t, "MLX") && contains_str(&t, "stub") && (contains_str(&t, "GPU")
        || contains_str(&t, "rented")) && contains_str(&t, "cloud") && contains_str(
        &t,
        "Mac specialist",
    ) && (contains_str(&t, "park") || contains_str(&t, "until Jason"));
    if is_file && parked {
        None
    } else {
        Some(String::from_str("docs/DAY90-PLUS.md must honestly park live Mac / GPU / cloud-spawn"))
    }
}

/// The example estate keeps its hash lock.
pub fn check_estate_hash_lock(text: &str) -> (r: Option<String>)
    ensures
        contains(text@, HASH_LOCK@) ==> r is None,
        !contains(text@, HASH_LOCK@) ==> (r matches Some(m) && m@ == "examples/estate.yaml must keep "@
            + HASH_LOCK@),
{
    let t = chars_of(text);
    if contains_str(&t, HASH_LOCK) {
        None
    } else {
        let mut m = chars_of("examples/estate.yaml must keep ");
        extend_str(&mut m, HASH_LOCK);
        Some(string_of(&m))
    }
}

/// Hit lines for the vendor needles in one floor source file (`rel` is its
/// path under the source root): needles are matched on the ASCII-lowercased
/// text, one line per needle found, in needle order.
pub fn floor_needle_hits(rel: &str, source: &str) -> (out: Vec<String>)
    ensures
        string_views(out@) == needle_hits(rel@, to_lower(source@), floor_needles()),
{
    let src = chars_of(source);
    let lower = to_lower_exec(&src);
    let needles: [&str; 4] = ["xai", "grok", "5090", "cyera"];
    let mut out: Vec<String> = Vec::new();
    for k in 0..4usize
        invariant
            needles@ == seq!["xai", "grok", "5090", "cyera"],
            lower@ == to_lower(source@),
            string_views(out@) == needle_hits(rel@, lower@, floor_needles().take(k as int)),
    {
        let needle = needles[k];
        proof {
            assert(floor_needles().take(k + 1).drop_last() =~= floor_needles().take(k as int));
            assert(floor_needles().take(k + 1).last() == needle@);
        }
        if contains_str(&lower, needle) {
            let mut line = chars_of(rel);
            extend_str(&mut line, " contains ");
            extend_str(&mut line, needle);
            let s = string_of(&line);
            let ghost before = string_views(out@);
            out.push(s);
            assert(string_views(out@) =~= before.push(rel@ + " contains "@ + needle@));
        }
    }
    assert(floor_needles().take(4) =~= floor_needles());
    out
}

/// The outcome of `doctor --strict`: `Ok` with no failure lines, else the count.
pub fn strict_verdict(fails: &Vec<String>) -> (r: Result<(), String>)
    ensures
        fails@.len() == 0 ==> r is Ok,
        fails@.len() > 0 ==> (r matches Err(e) && e@ == "doctor --strict failed ("@ + decimal(
            fails@.len() as nat,
        ) + " check(s))"@),
{
    if fails.len() == 0 {
        return Ok(());
    }
    let mut m = chars_of("doctor --strict failed (");
    push_decimal(&mut m, fails.len() as u64);
    extend_str(&mut m, " check(s))");
    Err(string_of(&m))
}

} // verus!
