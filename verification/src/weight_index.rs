//! The weight map of a sharded export after a repair: which shard holds
//! each tensor, and the byte total the index records.
//!
//! Reading shard headers is I/O; this module decides what the rewritten
//! index says once the caller has read them.

use vstd::prelude::*;
use crate::export_repair::{chars_list, member, sv, REPAIR_SHARD};
use crate::export_repair::strings_list;
use crate::text::{
    chars_of, decimal, ends_with, ends_with_str, equals_str, extend_str, lemma_lex_irreflexive,
    lemma_lex_total, lemma_lex_transitive, lex_lt, lex_lt_exec, push_decimal, sorted_unique,
    string_of, strictly_sorted, views,
};

verus! {

/// One line of a weight map: a tensor and the shard file that holds it.
/// A file entry that is not a JSON string is carried as the empty name.
#[derive(Clone, Debug, PartialEq, Eq)]
pub struct WeightEntry {
    pub tensor: String,
    pub file: String,
}

/// The tensor names of `es`, in order.
pub open spec fn tensor_keys(es: Seq<WeightEntry>) -> Seq<Seq<char>> {
    es.map_values(|e: WeightEntry| e.tensor@)
}

/// The file the last entry for `k` names.
pub open spec fn file_of(es: Seq<WeightEntry>, k: Seq<char>) -> Option<Seq<char>>
    decreases es.len(),
{
    if es.len() == 0 {
        None
    } else if es.last().tensor@ == k {
        Some(es.last().file@)
    } else {
        file_of(es.drop_last(), k)
    }
}

/// The file the last entry for `k` outside the repair shard names: what a
/// rewrite keeps of the old map.
pub open spec fn kept_file(es: Seq<WeightEntry>, k: Seq<char>) -> Option<Seq<char>>
    decreases es.len(),
{
    if es.len() == 0 {
        None
    } else if es.last().tensor@ == k && es.last().file@ != REPAIR_SHARD@ {
        Some(es.last().file@)
    } else {
        kept_file(es.drop_last(), k)
    }
}

/// The first entry outside the repair shard whose tensor the repair adds.
pub open spec fn first_overwrite(es: Seq<WeightEntry>, added: Seq<Seq<char>>) -> Option<
    Seq<char>,
>
    decreases es.len(),
{
    if es.len() == 0 {
        None
    } else {
        match first_overwrite(es.drop_last(), added) {
            Some(n) => Some(n),
            None => if es.last().file@ != REPAIR_SHARD@ && added.contains(es.last().tensor@) {
                Some(es.last().tensor@)
            } else {
                None
            },
        }
    }
}

/// Where the rewritten map puts `k`: the repair shard for an added tensor,
/// else what the old map kept.
pub open spec fn merged_file(es: Seq<WeightEntry>, added: Seq<Seq<char>>, k: Seq<char>) -> Option<
    Seq<char>,
> {
    if added.contains(k) {
        Some(REPAIR_SHARD@)
    } else {
        kept_file(es, k)
    }
}

pub open spec fn overwrite_text(name: Seq<char>) -> Seq<char> {
    "refuse:classify-journey: export-repair refused to overwrite tensor "@ + name
}

proof fn lemma_file_of_at(es: Seq<WeightEntry>, k: Seq<char>, i: int)
    requires
        0 <= i < es.len(),
        es[i].tensor@ == k,
        forall|j: int| i < j < es.len() ==> (#[trigger] es[j]).tensor@ != k,
    ensures
        file_of(es, k) == Some(es[i].file@),
    decreases es.len(),
{
    if i < es.len() - 1 {
        assert(es.last() == es[es.len() - 1]);
        lemma_file_of_at(es.drop_last(), k, i);
    }
}

proof fn lemma_file_of_none(es: Seq<WeightEntry>, k: Seq<char>)
    requires
        forall|j: int| 0 <= j < es.len() ==> (#[trigger] es[j]).tensor@ != k,
    ensures
        file_of(es, k) is None,
    decreases es.len(),
{
    if es.len() > 0 {
        assert(es.last() == es[es.len() - 1]);
        lemma_file_of_none(es.drop_last(), k);
    }
}

/// In a strictly sorted map, `file_of` finds the one entry for `k`.
proof fn lemma_file_of_sorted(es: Seq<WeightEntry>, k: Seq<char>)
    requires
        strictly_sorted(tensor_keys(es)),
    ensures
        forall|i: int| 0 <= i < es.len() && (#[trigger] es[i]).tensor@ == k ==> file_of(es, k) == Some(es[i].file@),
        (forall|i: int| 0 <= i < es.len() ==> (#[trigger] es[i]).tensor@ != k) ==> file_of(es, k) is None,
{
    assert forall|i: int| 0 <= i < es.len() && (#[trigger] es[i]).tensor@ == k implies file_of(es, k) == Some(es[i].file@) by {
        assert forall|j: int| i < j < es.len() implies (#[trigger] es[j]).tensor@ != k by {
            assert(tensor_keys(es)[i] == es[i].tensor@);
            assert(tensor_keys(es)[j] == es[j].tensor@);
            assert(lex_lt(es[i].tensor@, es[j].tensor@));
            if es[j].tensor@ == k {
                lemma_lex_irreflexive(k);
            }
        }
        lemma_file_of_at(es, k, i);
    }
    if forall|i: int| 0 <= i < es.len() ==> (#[trigger] es[i]).tensor@ != k {
        lemma_file_of_none(es, k);
    }
}

/// Puts `tensor -> file` into a strictly sorted map, replacing any entry
/// for `tensor`.
fn sorted_put(out: &mut Vec<WeightEntry>, tensor: String, file: String)
    requires
        strictly_sorted(tensor_keys(old(out)@)),
    ensures
        strictly_sorted(tensor_keys(final(out)@)),
        forall|k: Seq<char>|
            #[trigger] file_of(final(out)@, k) == if k == tensor@ {
                Some(file@)
            } else {
                file_of(old(out)@, k)
            },
{
    let ghost before = out@;
    let ghost bk = tensor_keys(before);
    let t = chars_of(tensor.as_str());
    let mut k: usize = 0;
    while k < out.len() && lex_lt_exec(&chars_of(out[k].tensor.as_str()), &t)
        invariant
            k <= out.len(),
            out@ == before,
            bk == tensor_keys(before),
            t@ == tensor@,
            forall|j: int| 0 <= j < k ==> lex_lt(#[trigger] bk[j], t@),
        decreases out.len() - k,
    {
        assert(bk[k as int] == out@[k as int].tensor@);
        k += 1;
    }
    let same = k < out.len() && equals_str(&chars_of(out[k].tensor.as_str()), tensor.as_str());
    proof {
        if k < out.len() {
            assert(bk[k as int] == out@[k as int].tensor@);
            if !same {
                lemma_lex_total(t@, bk[k as int]);
            }
        }
    }
    let ghost kk = k as int;
    let entry = WeightEntry { tensor, file };
    if same {
        out.set(k, entry);
        proof {
            let after = out@;
            let ak = tensor_keys(after);
            assert(ak =~= bk);
            lemma_file_of_sorted(before, tensor@);
            lemma_file_of_sorted(after, tensor@);
            assert forall|q: Seq<char>| #[trigger] file_of(after, q) == if q == tensor@ {
                Some(file@)
            } else {
                file_of(before, q)
            } by {
                lemma_file_of_sorted(before, q);
                lemma_file_of_sorted(after, q);
                if q == tensor@ {
                    assert(after[kk].tensor@ == q);
                } else {
                    if exists|i: int| 0 <= i < before.len() && before[i].tensor@ == q {
                        let i = choose|i: int| 0 <= i < before.len() && before[i].tensor@ == q;
                        assert(i != kk);
                        assert(after[i] == before[i]);
                    } else {
                        assert forall|i: int| 0 <= i < after.len() implies (#[trigger] after[i]).tensor@ != q by {
                            if i != kk {
                                assert(after[i] == before[i]);
                            }
                        }
                    }
                }
            }
        }
    } else {
        out.insert(k, entry);
        proof {
            let after = out@;
            let ak = tensor_keys(after);
            assert(after =~= before.take(kk).push(entry) + before.skip(kk));
            assert(ak =~= bk.take(kk).push(tensor@) + bk.skip(kk));
            assert forall|i: int, j: int| 0 <= i < j < ak.len() implies lex_lt(ak[i], ak[j]) by {
                if i < kk && j == kk {
                } else if i < kk && j > kk {
                    if j - 1 > kk {
                        lemma_lex_transitive(tensor@, bk[kk], bk[j - 1]);
                    }
                    lemma_lex_transitive(bk[i], tensor@, bk[j - 1]);
                } else if i == kk && j > kk {
                    if j - 1 > kk {
                        lemma_lex_transitive(tensor@, bk[kk], bk[j - 1]);
                    }
                } else if i > kk {
                    assert(ak[i] == bk[i - 1] && ak[j] == bk[j - 1]);
                }
            }
            assert forall|q: Seq<char>| #[trigger] file_of(after, q) == if q == tensor@ {
                Some(file@)
            } else {
                file_of(before, q)
            } by {
                lemma_file_of_sorted(before, q);
                lemma_file_of_sorted(after, q);
                if q == tensor@ {
                    assert(after[kk].tensor@ == q);
                } else {
                    if exists|i: int| 0 <= i < before.len() && before[i].tensor@ == q {
                        let i = choose|i: int| 0 <= i < before.len() && before[i].tensor@ == q;
                        if i < kk {
                            assert(after[i] == before[i]);
                        } else {
                            assert(after[i + 1] == before[i]);
                        }
                    } else {
                        assert forall|i: int| 0 <= i < after.len() implies (#[trigger] after[i]).tensor@ != q by {
                            if i < kk {
                                assert(after[i] == before[i]);
                            } else if i > kk {
                                assert(after[i] == before[i - 1]);
                            }
                        }
                    }
                }
            }
        }
    }
}

/// The weight map a repair writes: the old entries outside the repair
/// shard, then each added tensor pointed at the repair shard, in tensor
/// order. With `from_index` (the old map came from an index file rather
/// than from the shard headers) an old entry outside the repair shard for
/// an added tensor is refused.
pub fn merge_weight_map(existing: &Vec<WeightEntry>, added: &Vec<String>, from_index: bool) -> (r:
    Result<Vec<WeightEntry>, String>)
    ensures
        r is Err <==> from_index && first_overwrite(existing@, sv(added@)) is Some,
        match r {
            Ok(out) => strictly_sorted(tensor_keys(out@)) && forall|k: Seq<char>|
                #[trigger] file_of(out@, k) == merged_file(existing@, sv(added@), k),
            Err(e) => e@ == overwrite_text(first_overwrite(existing@, sv(added@))->0),
        },
{
    let names = chars_list(added);
    let ghost a = sv(added@);
    let mut out: Vec<WeightEntry> = Vec::new();
    for i in 0..existing.len()
        invariant
            crate::text::views(names@) == a,
            a == sv(added@),
            strictly_sorted(tensor_keys(out@)),
            from_index ==> first_overwrite(existing@.take(i as int), a) is None,
            forall|k: Seq<char>|
                #[trigger] file_of(out@, k) == kept_file(existing@.take(i as int), k),
    {
        let e = &existing[i];
        let ghost t = existing@.take(i + 1);
        proof {
            assert(t.drop_last() =~= existing@.take(i as int));
            assert(t.last() == *e);
        }
        if equals_str(&chars_of(e.file.as_str()), REPAIR_SHARD) {
            proof {
                assert forall|k: Seq<char>| #[trigger] file_of(out@, k) == kept_file(t, k) by {
                    assert(kept_file(t, k) == kept_file(t.drop_last(), k));
                }
            }
        } else {
            let n = chars_of(e.tensor.as_str());
            if from_index && member(&names, &n) {
                let mut m = chars_of(
                    "refuse:classify-journey: export-repair refused to overwrite tensor ",
                );
                extend_str(&mut m, e.tensor.as_str());
                proof {
                    assert(first_overwrite(t, a) == Some(e.tensor@));
                    lemma_overwrite_prefix(existing@, a, i + 1);
                }
                return Err(string_of(&m));
            }
            let ghost before = out@;
            sorted_put(&mut out, e.tensor.clone(), e.file.clone());
            proof {
                assert forall|k: Seq<char>| #[trigger] file_of(out@, k) == kept_file(t, k) by {
                    assert(file_of(out@, k) == if k == e.tensor@ {
                        Some(e.file@)
                    } else {
                        file_of(before, k)
                    });
                }
            }
        }
    }
    proof {
        assert(existing@.take(existing@.len() as int) =~= existing@);
    }
    for j in 0..added.len()
        invariant
            a == sv(added@),
            strictly_sorted(tensor_keys(out@)),
            forall|k: Seq<char>|
                #[trigger] file_of(out@, k) == if a.take(j as int).contains(k) {
                    Some(REPAIR_SHARD@)
                } else {
                    kept_file(existing@, k)
                },
    {
        let ghost before = out@;
        let repair = String::from_str(REPAIR_SHARD);
        proof {
            reveal_strlit("model-export-repair.safetensors");
        }
        sorted_put(&mut out, added[j].clone(), repair);
        proof {
            assert(a.take(j + 1) =~= a.take(j as int).push(added@[j as int]@));
            assert forall|k: Seq<char>| #[trigger] file_of(out@, k) == if a.take(j + 1).contains(k) {
                Some(REPAIR_SHARD@)
            } else {
                kept_file(existing@, k)
            } by {
                assert(file_of(out@, k) == if k == added@[j as int]@ {
                    Some(REPAIR_SHARD@)
                } else {
                    file_of(before, k)
                });
                let t1 = a.take(j + 1);
                let t0 = a.take(j as int);
                if k == added@[j as int]@ {
                    assert(t1[j as int] == k);
                } else if t1.contains(k) {
                    let w = choose|w: int| 0 <= w < t1.len() && t1[w] == k;
                    assert(t0[w] == k);
                } else if t0.contains(k) {
                    let w = choose|w: int| 0 <= w < t0.len() && t0[w] == k;
                    assert(t1[w] == k);
                }
            }
        }
    }
    proof {
        assert(a.take(added@.len() as int) =~= a);
        if from_index {
            assert(first_overwrite(existing@, a) is None);
        }
    }
    Ok(out)
}

proof fn lemma_overwrite_prefix(es: Seq<WeightEntry>, added: Seq<Seq<char>>, k: int)
    requires
        0 <= k <= es.len(),
        first_overwrite(es.take(k), added) is Some,
    ensures
        first_overwrite(es, added) == first_overwrite(es.take(k), added),
    decreases es.len(),
{
    if k == es.len() {
        assert(es.take(k) =~= es);
    } else {
        assert(es.drop_last().take(k) =~= es.take(k));
        lemma_overwrite_prefix(es.drop_last(), added, k);
    }
}

proof fn lemma_no_overwrite(es: Seq<WeightEntry>, added: Seq<Seq<char>>)
    requires
        forall|i: int|
            0 <= i < es.len() && added.contains((#[trigger] es[i]).tensor@) ==> es[i].file@
                == REPAIR_SHARD@,
    ensures
        first_overwrite(es, added) is None,
    decreases es.len(),
{
    if es.len() > 0 {
        assert(es.last() == es[es.len() - 1]);
        let d = es.drop_last();
        assert forall|i: int|
            0 <= i < d.len() && added.contains((#[trigger] d[i]).tensor@) implies d[i].file@
                == REPAIR_SHARD@ by {
            assert(d[i] == es[i]);
        }
        lemma_no_overwrite(d, added);
    }
}

proof fn lemma_kept_file_sorted(es: Seq<WeightEntry>, k: Seq<char>)
    requires
        strictly_sorted(tensor_keys(es)),
    ensures
        kept_file(es, k) == match file_of(es, k) {
            Some(f) => if f == REPAIR_SHARD@ {
                None
            } else {
                Some(f)
            },
            None => None,
        },
    decreases es.len(),
{
    if es.len() > 0 {
        let d = es.drop_last();
        assert(tensor_keys(d) =~= tensor_keys(es).drop_last());
        lemma_kept_file_sorted(d, k);
        if es.last().tensor@ == k {
            assert forall|i: int| 0 <= i < d.len() implies (#[trigger] d[i]).tensor@ != k by {
                assert(tensor_keys(es)[i] == d[i].tensor@);
                assert(tensor_keys(es)[es.len() - 1] == es.last().tensor@);
                assert(lex_lt(d[i].tensor@, es.last().tensor@));
                if d[i].tensor@ == k {
                    lemma_lex_irreflexive(k);
                }
            }
            lemma_file_of_none(d, k);
            lemma_kept_none(d, k);
        }
    }
}

proof fn lemma_kept_none(es: Seq<WeightEntry>, k: Seq<char>)
    requires
        forall|j: int| 0 <= j < es.len() ==> (#[trigger] es[j]).tensor@ != k,
    ensures
        kept_file(es, k) is None,
    decreases es.len(),
{
    if es.len() > 0 {
        assert(es.last() == es[es.len() - 1]);
        lemma_kept_none(es.drop_last(), k);
    }
}

/// Rewriting a weight map that a repair wrote, with the same added
/// tensors, is accepted and yields the same map: a repair can be rerun.
pub proof fn rewrite_is_stable(
    existing: Seq<WeightEntry>,
    added: Seq<Seq<char>>,
    written: Seq<WeightEntry>,
)
    requires
        strictly_sorted(tensor_keys(written)),
        forall|k: Seq<char>| #[trigger] file_of(written, k) == merged_file(existing, added, k),
    ensures
        first_overwrite(written, added) is None,
        forall|k: Seq<char>| #[trigger] merged_file(written, added, k) == file_of(written, k),
{
    assert forall|i: int|
        0 <= i < written.len() && added.contains((#[trigger] written[i]).tensor@) implies written[i].file@
            == REPAIR_SHARD@ by {
        lemma_file_of_sorted(written, written[i].tensor@);
        assert(file_of(written, written[i].tensor@) == merged_file(existing, added, written[i].tensor@));
    }
    lemma_no_overwrite(written, added);
    assert forall|k: Seq<char>| #[trigger] merged_file(written, added, k) == file_of(written, k) by {
        lemma_kept_file_sorted(written, k);
        assert(file_of(written, k) == merged_file(existing, added, k));
        if !added.contains(k) {
            lemma_kept_never_repair(existing, k);
        }
    }
}

proof fn lemma_kept_never_repair(es: Seq<WeightEntry>, k: Seq<char>)
    ensures
        kept_file(es, k) != Some(REPAIR_SHARD@),
    decreases es.len(),
{
    if es.len() > 0 {
        lemma_kept_never_repair(es.drop_last(), k);
    }
}

// ---------------------------------------------------------------- sizes

/// What the shard header named by a weight-map entry says of its tensor.
#[derive(Clone, Debug, PartialEq, Eq)]
pub enum HeaderSpan {
    /// The tensor's `data_offsets`.
    Found { start: u64, end: u64 },
    /// The header was read and does not list the tensor.
    Missing,
    /// The header could not be read; the refusal reading it gave.
    Unreadable(String),
}

/// A weight-map entry with what its shard header says of it.
#[derive(Clone, Debug, PartialEq, Eq)]
pub struct SizedEntry {
    pub tensor: String,
    pub file: String,
    pub span: HeaderSpan,
}

/// The bytes the well-formed spans of `es` cover.
pub open spec fn span_total(es: Seq<SizedEntry>) -> nat
    decreases es.len(),
{
    if es.len() == 0 {
        0
    } else {
        span_total(es.drop_last()) + match es.last().span {
            HeaderSpan::Found { start, end } => if start <= end {
                (end - start) as nat
            } else {
                0
            },
            _ => 0,
        }
    }
}

/// The index's `total_size`: the sum of the spans in entry order, or the
/// first refusal.
pub open spec fn size_result(es: Seq<SizedEntry>) -> Result<nat, Seq<char>>
    decreases es.len(),
{
    if es.len() == 0 {
        Ok(0)
    } else {
        let pre = "refuse:classify-journey: export-repair tensor "@;
        let e = es.last();
        match size_result(es.drop_last()) {
            Err(m) => Err(m),
            Ok(t) => match e.span {
                HeaderSpan::Unreadable(m) => Err(m@),
                HeaderSpan::Missing => Err(pre + e.tensor@ + " is missing from "@ + e.file@),
                HeaderSpan::Found { start, end } => if start > end {
                    Err(pre + e.tensor@ + " has inverted data_offsets"@)
                } else {
                    Ok(t + (end - start) as nat)
                },
            },
        }
    }
}

proof fn lemma_size_bound(es: Seq<SizedEntry>)
    ensures
        size_result(es) matches Ok(t) ==> t == span_total(es),
    decreases es.len(),
{
    if es.len() > 0 {
        lemma_size_bound(es.drop_last());
    }
}

proof fn lemma_size_prefix(es: Seq<SizedEntry>, k: int)
    requires
        0 <= k <= es.len(),
        size_result(es.take(k)) is Err,
    ensures
        size_result(es) == size_result(es.take(k)),
    decreases es.len(),
{
    if k == es.len() {
        assert(es.take(k) =~= es);
    } else {
        assert(es.drop_last().take(k) =~= es.take(k));
        lemma_size_prefix(es.drop_last(), k);
    }
}

proof fn lemma_span_total_mono(es: Seq<SizedEntry>, k: int)
    requires
        0 <= k <= es.len(),
    ensures
        span_total(es.take(k)) <= span_total(es),
    decreases es.len(),
{
    if k < es.len() {
        assert(es.drop_last().take(k) =~= es.take(k));
        lemma_span_total_mono(es.drop_last(), k);
    } else {
        assert(es.take(k) =~= es);
    }
}

/// The byte total an index records for its weight map, refusing a tensor
/// whose header cannot be read, lacks it, or inverts its offsets.
pub fn index_total_size(entries: &Vec<SizedEntry>) -> (r: Result<u64, String>)
    requires
        span_total(entries@) <= u64::MAX,
    ensures
        match r {
            Ok(t) => size_result(entries@) == Ok::<nat, Seq<char>>(t as nat),
            Err(m) => size_result(entries@) == Err::<nat, Seq<char>>(m@),
        },
{
    let mut total: u64 = 0;
    for i in 0..entries.len()
        invariant
            span_total(entries@) <= u64::MAX,
            size_result(entries@.take(i as int)) == Ok::<nat, Seq<char>>(total as nat),
    {
        let e = &entries[i];
        let ghost t = entries@.take(i + 1);
        proof {
            assert(t.drop_last() =~= entries@.take(i as int));
            assert(t.last() == *e);
        }
        match &e.span {
            HeaderSpan::Unreadable(m) => {
                proof {
                    lemma_size_prefix(entries@, i + 1);
                }
                return Err(m.clone());
            },
            HeaderSpan::Missing => {
                let mut m = chars_of("refuse:classify-journey: export-repair tensor ");
                extend_str(&mut m, e.tensor.as_str());
                extend_str(&mut m, " is missing from ");
                extend_str(&mut m, e.file.as_str());
                proof {
                    lemma_size_prefix(entries@, i + 1);
                }
                return Err(string_of(&m));
            },
            HeaderSpan::Found { start, end } => {
                if *start > *end {
                    let mut m = chars_of("refuse:classify-journey: export-repair tensor ");
                    extend_str(&mut m, e.tensor.as_str());
                    extend_str(&mut m, " has inverted data_offsets");
                    proof {
                        lemma_size_prefix(entries@, i + 1);
                    }
                    return Err(string_of(&m));
                }
                proof {
                    lemma_size_bound(t);
                    lemma_span_total_mono(entries@, i + 1);
                }
                total = total + (*end - *start);
            },
        }
    }
    proof {
        assert(entries@.take(entries@.len() as int) =~= entries@);
    }
    Ok(total)
}

/// Whether the well-formed spans of `entries` sum within `u64`: the
/// condition `index_total_size` needs.
pub fn span_total_fits(entries: &Vec<SizedEntry>) -> (r: bool)
    ensures
        r == (span_total(entries@) <= u64::MAX),
{
    let mut total: u64 = 0;
    for i in 0..entries.len()
        invariant
            total as nat == span_total(entries@.take(i as int)),
    {
        let ghost t = entries@.take(i + 1);
        proof {
            assert(t.drop_last() =~= entries@.take(i as int));
        }
        let add: u64 = match &entries[i].span {
            HeaderSpan::Found { start, end } => if *start <= *end {
                *end - *start
            } else {
                0
            },
            _ => 0,
        };
        match total.checked_add(add) {
            Some(n) => {
                total = n;
            },
            None => {
                proof {
                    lemma_span_total_mono(entries@, i + 1);
                }
                return false;
            },
        }
    }
    assert(entries@.take(entries@.len() as int) =~= entries@);
    true
}

// ---------------------------------------------------------------- reads

/// One tensor larger than this is refused before its buffer is allocated.
pub const MAX_TENSOR_BYTES: u64 = 4294967296;

/// Where a tensor's bytes lie in its shard: the file offset and length, or
/// the refusal.
pub open spec fn read_range(header_len: u64, start: u64, end: u64, shard: Seq<char>) -> Result<
    (nat, nat),
    Seq<char>,
> {
    let pre = "refuse:classify-journey: export-repair "@;
    if start > end {
        Err(pre + "bad data_offsets"@)
    } else if end - start > MAX_TENSOR_BYTES {
        Err(pre + "tensor in "@ + shard + " claims "@ + decimal((end - start) as nat) + " bytes"@)
    } else if 8 + header_len + start > u64::MAX {
        Err(pre + "seek offset overflow"@)
    } else {
        Ok(((8 + header_len + start) as nat, (end - start) as nat))
    }
}

/// The file offset and byte length of a tensor's data, checked before any
/// read.
pub fn tensor_read_range(header_len: u64, start: u64, end: u64, shard: &str) -> (r: Result<
    (u64, u64),
    String,
>)
    ensures
        match r {
            Ok((o, n)) => read_range(header_len, start, end, shard@) == Ok::<(nat, nat), Seq<char>>(
                (o as nat, n as nat),
            ),
            Err(m) => read_range(header_len, start, end, shard@) == Err::<(nat, nat), Seq<char>>(
                m@,
            ),
        },
{
    let pre = "refuse:classify-journey: export-repair ";
    let len = match end.checked_sub(start) {
        Some(n) => n,
        None => {
            let mut m = chars_of(pre);
            extend_str(&mut m, "bad data_offsets");
            return Err(string_of(&m));
        },
    };
    if len > MAX_TENSOR_BYTES {
        let mut m = chars_of(pre);
        extend_str(&mut m, "tensor in ");
        extend_str(&mut m, shard);
        extend_str(&mut m, " claims ");
        push_decimal(&mut m, len);
        extend_str(&mut m, " bytes");
        return Err(string_of(&m));
    }
    let offset = match 8u64.checked_add(header_len) {
        Some(a) => a.checked_add(start),
        None => None,
    };
    match offset {
        Some(o) => Ok((o, len)),
        None => {
            let mut m = chars_of(pre);
            extend_str(&mut m, "seek offset overflow");
            Err(string_of(&m))
        },
    }
}

// ---------------------------------------------------------------- shards

/// The shard files an index names: its file entries, sorted, each once.
pub fn index_shard_names(files: &Vec<String>) -> (out: Vec<String>)
    ensures
        strictly_sorted(sv(out@)),
        forall|x: Seq<char>|
            #![trigger sv(out@).contains(x)]
            #![trigger sv(files@).contains(x)]
            sv(out@).contains(x) <==> sv(files@).contains(x),
{
    let cs = chars_list(files);
    let sorted = sorted_unique(&cs);
    strings_list(&sorted)
}

/// The shard files of a directory without an index: its `.safetensors`
/// files, sorted.
pub fn listed_shard_names(files: &Vec<String>) -> (out: Vec<String>)
    ensures
        strictly_sorted(sv(out@)),
        forall|x: Seq<char>|
            #![trigger sv(out@).contains(x)]
            sv(out@).contains(x) <==> sv(files@).contains(x) && ends_with(x, ".safetensors"@),
{
    let mut keep: Vec<Vec<char>> = Vec::new();
    let ghost f = sv(files@);
    for i in 0..files.len()
        invariant
            f == sv(files@),
            forall|x: Seq<char>|
                #![trigger views(keep@).contains(x)]
                views(keep@).contains(x) <==> f.take(i as int).contains(x) && ends_with(
                    x,
                    ".safetensors"@,
                ),
    {
        let c = chars_of(files[i].as_str());
        let ghost before = views(keep@);
        let ghost t1 = f.take(i + 1);
        let ghost t0 = f.take(i as int);
        proof {
            assert(t1 =~= t0.push(c@));
        }
        if ends_with_str(&c, ".safetensors") {
            keep.push(c);
            proof {
                assert(views(keep@) =~= before.push(c@));
                assert forall|x: Seq<char>|
                    #![trigger views(keep@).contains(x)]
                    views(keep@).contains(x) <==> t1.contains(x) && ends_with(x, ".safetensors"@) by {
                    if views(keep@).contains(x) && x != c@ {
                        let w = choose|w: int| 0 <= w < views(keep@).len() && views(keep@)[w] == x;
                        assert(before[w] == x);
                    }
                    if t1.contains(x) && x != c@ {
                        let w = choose|w: int| 0 <= w < t1.len() && t1[w] == x;
                        assert(t0[w] == x);
                    }
                    if x == c@ {
                        assert(views(keep@)[before.len() as int] == x);
                        assert(t1[i as int] == x);
                    }
                    if before.contains(x) {
                        let w = choose|w: int| 0 <= w < before.len() && before[w] == x;
                        assert(views(keep@)[w] == x);
                    }
                    if t0.contains(x) {
                        let w = choose|w: int| 0 <= w < t0.len() && t0[w] == x;
                        assert(t1[w] == x);
                    }
                }
            }
        } else {
            proof {
                assert forall|x: Seq<char>|
                    #![trigger views(keep@).contains(x)]
                    views(keep@).contains(x) <==> t1.contains(x) && ends_with(x, ".safetensors"@) by {
                    if t1.contains(x) && x != c@ {
                        let w = choose|w: int| 0 <= w < t1.len() && t1[w] == x;
                        assert(t0[w] == x);
                    }
                    if t0.contains(x) {
                        let w = choose|w: int| 0 <= w < t0.len() && t0[w] == x;
                        assert(t1[w] == x);
                    }
                }
            }
        }
    }
    proof {
        assert(f.take(files@.len() as int) =~= f);
    }
    let sorted = sorted_unique(&keep);
    strings_list(&sorted)
}

} // verus!
