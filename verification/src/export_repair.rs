//! Repair of a merge-export that dropped tensors and tokenizer files.
//!
//! Qwen3.5 stores one MTP block: `text_config.mtp_num_hidden_layers` and
//! weights named `mtp.*`. A merge-export may keep the config key and drop
//! those tensors. The repair names the base tensors the merged export lacks
//! and the tokenizer / processor files it lacks, refuses a gap that is not
//! an MTP patch, refuses to copy a tied `lm_head`, and refuses when the
//! config still declares layers that no tensor carries.

use vstd::prelude::*;
use vstd::utf8::encode_utf8;
use crate::digest::{sha256, sha256_hex};
use crate::text::{
    chars_of, contains, contains_str, decimal, ends_with, ends_with_str, equals_str, extend_chars,
    extend_str, hex_lower, join, occurs_at, occurs_at_exec, push_decimal, sorted_unique,
    starts_with, starts_with_str, string_of, strictly_sorted, to_lower, to_lower_exec, views,
};

verus! {

pub const REPAIR_SHARD: &'static str = "model-export-repair.safetensors";

pub const INDEX_NAME: &'static str = "model.safetensors.index.json";

/// What a repair copies (or would copy): tensor names and file names.
#[derive(Clone, Debug, PartialEq, Eq)]
pub struct RepairReport {
    pub tensors: Vec<String>,
    pub files: Vec<String>,
}

pub open spec fn sv(v: Seq<String>) -> Seq<Seq<char>> {
    v.map_values(|s: String| s@)
}

// ---------------------------------------------------------------- spec

/// The one-line summary of a report.
pub open spec fn summary_text(tensors: nat, files: nat) -> Seq<char> {
    if tensors == 0 && files == 0 {
        "export-repair: nothing missing"@
    } else {
        "export-repair: copied "@ + decimal(tensors) + " tensor(s) and "@ + decimal(files)
            + " file(s)"@
    }
}

/// A tokenizer or processor file that travels beside the weights. Weight
/// shards, the shard index, and `config.json` are never sidecars. Names
/// compare ASCII-case-insensitively.
pub open spec fn sidecar(name: Seq<char>) -> bool {
    let lower = to_lower(name);
    !(ends_with(lower, ".safetensors"@) || lower == INDEX_NAME@ || lower == "config.json"@) && (
    contains(lower, "tokenizer"@) || contains(lower, "processor"@) || lower == "vocab.json"@
        || lower == "merges.txt"@ || lower == "special_tokens_map.json"@ || lower
        == "added_tokens.json"@ || lower == "chat_template.jinja"@)
}

/// A tensor of the MTP block.
pub open spec fn mtp_name(name: Seq<char>) -> bool {
    starts_with(name, "mtp."@) || starts_with(name, "model.mtp."@) || starts_with(
        name,
        "model.language_model.mtp."@,
    )
}

pub open spec fn all_mtp(names: Seq<Seq<char>>) -> bool {
    forall|i: int| 0 <= i < names.len() ==> mtp_name(#[trigger] names[i])
}

/// `a * b`, saturated at `usize::MAX`.
pub open spec fn sat_mul(a: int, b: int) -> int {
    if a * b > usize::MAX {
        usize::MAX as int
    } else {
        a * b
    }
}

/// A gap the repair accepts: nothing, all-MTP, or at most 32 names that
/// are at most 2% of a non-empty base catalog.
pub open spec fn plausible_gap(missing: Seq<Seq<char>>, base_count: nat) -> bool {
    missing.len() == 0 || all_mtp(missing) || (!(missing.len() > 32) && !(base_count == 0
        || sat_mul(missing.len() as int, 100) > sat_mul(base_count as int, 2)))
}

/// Some dot-separated segment of `name` starts with `lm_head`.
pub open spec fn lm_head_name(name: Seq<char>) -> bool {
    exists|i: int|
        #![trigger occurs_at(name, "lm_head"@, i)]
        occurs_at(name, "lm_head"@, i) && (i == 0 || name[i - 1] == '.')
}

/// Index of the first occurrence of `p` in `s` at or after `i`, or -1.
pub open spec fn find_from(s: Seq<char>, p: Seq<char>, i: int) -> int
    decreases s.len() + 1 - i,
{
    if i < 0 || i + p.len() > s.len() {
        -1
    } else if occurs_at(s, p, i) {
        i
    } else {
        find_from(s, p, i + 1)
    }
}

pub open spec fn is_digit(c: char) -> bool {
    '0' <= c && c <= '9'
}

/// The number of leading ASCII digits of `s`.
pub open spec fn digit_run(s: Seq<char>) -> nat
    decreases s.len(),
{
    if s.len() > 0 && is_digit(s[0]) {
        1 + digit_run(s.drop_first())
    } else {
        0
    }
}

/// The value of a string of ASCII digits.
pub open spec fn digits_value(ds: Seq<char>) -> nat
    decreases ds.len(),
{
    if ds.len() == 0 {
        0
    } else {
        digits_value(ds.drop_last()) * 10 + ((ds.last() as int) - ('0' as int)) as nat
    }
}

/// The layer number in `...layers.<digits>.` at the first `.layers.`:
/// the digits must be non-empty, followed by `.`, and fit a `u64`.
pub open spec fn layer_number(name: Seq<char>) -> Option<u64> {
    let k = find_from(name, ".layers."@, 0);
    if k < 0 {
        None
    } else {
        let rest = name.skip(k + 8);
        let d = digit_run(rest);
        if d == 0 || d >= rest.len() || rest[d as int] != '.' {
            None
        } else if digits_value(rest.take(d as int)) > u64::MAX {
            None
        } else {
            Some(digits_value(rest.take(d as int)) as u64)
        }
    }
}

/// A name inside an MTP block (`mtp.` at the front or `.mtp.` inside).
pub open spec fn in_mtp_block(name: Seq<char>) -> bool {
    starts_with(name, "mtp."@) || contains(name, ".mtp."@)
}

/// A trunk tensor of layer `index`.
pub open spec fn trunk_layer_of(name: Seq<char>, index: u64) -> bool {
    !in_mtp_block(name) && layer_number(name) == Some(index)
}

/// An MTP tensor of layer `index`.
pub open spec fn mtp_layer_of(name: Seq<char>, index: u64) -> bool {
    in_mtp_block(name) && layer_number(name) == Some(index)
}

/// Base names the merged catalog lacks.
pub open spec fn is_missing_tensor(base: Seq<Seq<char>>, merged: Seq<Seq<char>>, n: Seq<char>) -> bool {
    base.contains(n) && !merged.contains(n)
}

/// Base sidecar files the merged directory lacks.
pub open spec fn is_missing_file(
    base_files: Seq<Seq<char>>,
    merged_files: Seq<Seq<char>>,
    n: Seq<char>,
) -> bool {
    base_files.contains(n) && sidecar(n) && !merged_files.contains(n)
}

// ---------------------------------------------------------------- laws

/// Repair is idempotent on names: once the merged export holds the tensors
/// and files a preview reported, a second preview over the same base finds
/// nothing missing. This is the no-op the repair promises on a rerun.
pub proof fn repaired_export_previews_empty(
    base: Seq<Seq<char>>,
    merged: Seq<Seq<char>>,
    reported: Seq<Seq<char>>,
    base_files: Seq<Seq<char>>,
    merged_files: Seq<Seq<char>>,
    copied: Seq<Seq<char>>,
)
    requires
        forall|n: Seq<char>| #[trigger] reported.contains(n) <==> is_missing_tensor(base, merged, n),
        forall|n: Seq<char>|
            #[trigger] copied.contains(n) <==> is_missing_file(base_files, merged_files, n),
    ensures
        forall|n: Seq<char>| !is_missing_tensor(base, merged + reported, n),
        forall|n: Seq<char>| !is_missing_file(base_files, merged_files + copied, n),
{
    assert forall|n: Seq<char>| !is_missing_tensor(base, merged + reported, n) by {
        if base.contains(n) && !merged.contains(n) {
            assert(reported.contains(n));
            let k = choose|k: int| 0 <= k < reported.len() && reported[k] == n;
            assert((merged + reported)[merged.len() + k] == n);
        }
        if merged.contains(n) {
            let k = choose|k: int| 0 <= k < merged.len() && merged[k] == n;
            assert((merged + reported)[k] == n);
        }
    }
    assert forall|n: Seq<char>| !is_missing_file(base_files, merged_files + copied, n) by {
        if is_missing_file(base_files, merged_files, n) {
            assert(copied.contains(n));
            let k = choose|k: int| 0 <= k < copied.len() && copied[k] == n;
            assert((merged_files + copied)[merged_files.len() + k] == n);
        }
        if merged_files.contains(n) {
            let k = choose|k: int| 0 <= k < merged_files.len() && merged_files[k] == n;
            assert((merged_files + copied)[k] == n);
        }
    }
}

/// Trunk and MTP layers never overlap: no tensor name counts as both.
pub proof fn trunk_and_mtp_layers_are_disjoint(name: Seq<char>, i: u64, j: u64)
    ensures
        !(trunk_layer_of(name, i) && mtp_layer_of(name, j)),
{
}

/// An all-MTP gap of any size is a plausible repair.
pub proof fn mtp_gap_is_always_plausible(missing: Seq<Seq<char>>, base_count: nat)
    requires
        all_mtp(missing),
    ensures
        plausible_gap(missing, base_count),
{
}

/// Every standard tokenizer or processor file is a sidecar, whatever the
/// case of its name: `vocab.json`, `merges.txt`,
/// `special_tokens_map.json`, `added_tokens.json`, `chat_template.jinja`,
/// and the `tokenizer*`, `preprocessor*` and `processor*` JSON files and
/// `tokenizer*.model`. So when the base has one and the merged export
/// does not, the preview reports it missing.
pub proof fn tokenizer_files_are_sidecars(name: Seq<char>, base_files: Seq<Seq<char>>, merged_files: Seq<Seq<char>>)
    requires
        ({
            let l = to_lower(name);
            l == "vocab.json"@ || l == "merges.txt"@ || l == "special_tokens_map.json"@ || l
                == "added_tokens.json"@ || l == "chat_template.jinja"@ || (starts_with(
                l,
                "tokenizer"@,
            ) && (ends_with(l, ".json"@) || ends_with(l, ".model"@))) || ((starts_with(
                l,
                "preprocessor"@,
            ) || starts_with(l, "processor"@)) && ends_with(l, ".json"@))
        }),
    ensures
        sidecar(name),
        base_files.contains(name) && !merged_files.contains(name) ==> is_missing_file(
            base_files,
            merged_files,
            name,
        ),
{
    let l = to_lower(name);
    reveal_strlit("vocab.json");
    reveal_strlit("merges.txt");
    reveal_strlit("special_tokens_map.json");
    reveal_strlit("added_tokens.json");
    reveal_strlit("chat_template.jinja");
    reveal_strlit("tokenizer");
    reveal_strlit("preprocessor");
    reveal_strlit("processor");
    reveal_strlit(".json");
    reveal_strlit(".model");
    reveal_strlit(".safetensors");
    reveal_strlit("model.safetensors.index.json");
    reveal_strlit("config.json");
    assert(INDEX_NAME@ == "model.safetensors.index.json"@);
    if ends_with(l, ".safetensors"@) {
        let t = l.subrange(l.len() - 12, l.len() as int);
        assert(t == ".safetensors"@);
        assert(t[11] == 's');
        assert(l[l.len() - 1] == t[11]);
        assert(l.len() >= 12);
        if l == "special_tokens_map.json"@ || l == "added_tokens.json"@ || l
            == "chat_template.jinja"@ {
        } else if starts_with(l, "tokenizer"@) || starts_with(l, "preprocessor"@) || starts_with(
            l,
            "processor"@,
        ) {
            if ends_with(l, ".json"@) {
                let u = l.subrange(l.len() - 5, l.len() as int);
                assert(u == ".json"@);
                assert(u[4] == 'n');
                assert(l[l.len() - 1] == u[4]);
            } else if ends_with(l, ".model"@) {
                let u = l.subrange(l.len() - 6, l.len() as int);
                assert(u == ".model"@);
                assert(u[5] == 'l');
                assert(l[l.len() - 1] == u[5]);
            }
        }
    }
    assert("model.safetensors.index.json"@[0] == 'm' && "config.json"@[0] == 'c');
    assert("model.safetensors.index.json"@.len() == 28 && "config.json"@.len() == 11);
    if starts_with(l, "tokenizer"@) || starts_with(l, "preprocessor"@) || starts_with(
        l,
        "processor"@,
    ) {
        assert(l[0] == 't' || l[0] == 'p') by {
            if starts_with(l, "tokenizer"@) {
                assert(l.subrange(0, 9)[0] == l[0]);
            } else if starts_with(l, "preprocessor"@) {
                assert(l.subrange(0, 12)[0] == l[0]);
            } else {
                assert(l.subrange(0, 9)[0] == l[0]);
            }
        }
        assert(l != "model.safetensors.index.json"@);
        assert(l != "config.json"@);
    } else {
        assert(l.len() == 10 || l.len() == 23 || l.len() == 17 || l.len() == 19);
    }
    if starts_with(l, "tokenizer"@) {
        assert(l.subrange(0, 9)[0] == 't');
        assert(occurs_at(l, "tokenizer"@, 0));
    }
    if starts_with(l, "processor"@) {
        assert(l.subrange(0, 9)[0] == 'p');
        assert(occurs_at(l, "processor"@, 0));
    }
    if starts_with(l, "preprocessor"@) {
        let h = l.subrange(0, 12);
        assert(h == "preprocessor"@);
        assert forall|j: int| 0 <= j < 9 implies l.subrange(3, 12)[j] == "processor"@[j] by {
            assert(l.subrange(3, 12)[j] == h[j + 3]);
        }
        assert(l.subrange(3, 12) =~= "processor"@);
        assert(occurs_at(l, "processor"@, 3));
    }
}

/// A gap made only of MTP tensors, the names under `mtp.`, `model.mtp.`
/// or `model.language_model.mtp.`, is always a plausible repair, however
/// large it is against the base catalog.
pub proof fn prefixed_mtp_gap_is_plausible(missing: Seq<Seq<char>>, base_count: nat)
    requires
        forall|i: int|
            0 <= i < missing.len() ==> starts_with(#[trigger] missing[i], "mtp."@) || starts_with(
                missing[i],
                "model.mtp."@,
            ) || starts_with(missing[i], "model.language_model.mtp."@),
    ensures
        plausible_gap(missing, base_count),
{
    assert(all_mtp(missing));
}

// ---------------------------------------------------------------- exec

fn new_string(s: &str) -> (out: String)
    ensures
        out@ == s@,
{
    String::from_str(s)
}

impl RepairReport {
    /// The one-line summary.
    pub fn summary(&self) -> (out: String)
        ensures
            out@ == summary_text(self.tensors@.len(), self.files@.len()),
    {
        if self.tensors.len() == 0 && self.files.len() == 0 {
            return new_string("export-repair: nothing missing");
        }
        let mut out = chars_of("export-repair: copied ");
        push_decimal(&mut out, self.tensors.len() as u64);
        extend_str(&mut out, " tensor(s) and ");
        push_decimal(&mut out, self.files.len() as u64);
        extend_str(&mut out, " file(s)");
        string_of(&out)
    }
}

/// Whether `name` is a sidecar file.
pub fn is_sidecar(name: &str) -> (r: bool)
    ensures
        r == sidecar(name@),
{
    let n = chars_of(name);
    let lower = to_lower_exec(&n);
    if ends_with_str(&lower, ".safetensors") || equals_str(&lower, INDEX_NAME) || equals_str(
        &lower,
        "config.json",
    ) {
        return false;
    }
    contains_str(&lower, "tokenizer") || contains_str(&lower, "processor") || equals_str(
        &lower,
        "vocab.json",
    ) || equals_str(&lower, "merges.txt") || equals_str(&lower, "special_tokens_map.json")
        || equals_str(&lower, "added_tokens.json") || equals_str(&lower, "chat_template.jinja")
}

/// Whether `name` is an MTP tensor.
pub fn mtp_prefixed(name: &str) -> (r: bool)
    ensures
        r == mtp_name(name@),
{
    let n = chars_of(name);
    starts_with_str(&n, "mtp.") || starts_with_str(&n, "model.mtp.") || starts_with_str(
        &n,
        "model.language_model.mtp.",
    )
}

fn sat_mul_exec(a: usize, b: usize) -> (r: usize)
    ensures
        r == sat_mul(a as int, b as int),
{
    match a.checked_mul(b) {
        Some(v) => v,
        None => usize::MAX,
    }
}

pub(crate) fn join_strings(v: &Vec<String>, n: usize, sep: &str) -> (out: Vec<char>)
    requires
        n <= v@.len(),
    ensures
        out@ == join(sv(v@).take(n as int), sep@),
{
    let mut out: Vec<char> = Vec::new();
    for i in 0..n
        invariant
            n <= v@.len(),
            out@ == join(sv(v@).take(i as int), sep@),
    {
        let ghost t = sv(v@).take(i + 1);
        if i > 0 {
            extend_str(&mut out, sep);
        }
        extend_str(&mut out, v[i].as_str());
        proof {
            assert(t.drop_last() =~= sv(v@).take(i as int));
            assert(t.last() == v@[i as int]@);
            if i == 0 {
                assert(out@ =~= t[0]);
            }
        }
    }
    out
}

/// The refusal text for an implausible gap.
pub open spec fn implausible_text(missing: Seq<Seq<char>>, base_count: nat) -> Seq<char> {
    "refuse:classify-journey: export-repair missing "@ + decimal(missing.len())
        + " tensors is not an MTP patch (allow every name starting with mtp., model.mtp., or model.language_model.mtp.; otherwise at most 32 tensors and 2% of "@
        + decimal(base_count) + " base tensors). Sample: "@ + join(
        missing.take(if missing.len() < 10 {
            missing.len() as int
        } else {
            10
        }),
        ", "@,
    )
}

/// Accepts an all-MTP gap; any other gap must stay within 32 tensors and
/// 2% of the base catalog.
pub fn refuse_implausible(missing: &Vec<String>, base_count: usize) -> (r: Result<(), String>)
    ensures
        r is Ok <==> plausible_gap(sv(missing@), base_count as nat),
        r matches Err(e) ==> e@ == implausible_text(sv(missing@), base_count as nat),
{
    let mut all = true;
    let mut i: usize = 0;
    while i < missing.len()
        invariant
            i <= missing.len(),
            all == forall|j: int| 0 <= j < i ==> mtp_name(#[trigger] sv(missing@)[j]),
        decreases missing.len() - i,
    {
        let m = mtp_prefixed(missing[i].as_str());
        proof {
            assert(sv(missing@)[i as int] == missing@[i as int]@);
            if all && !m {
                assert(!mtp_name(sv(missing@)[i as int]));
            }
        }
        all = all && m;
        i += 1;
    }
    if missing.len() == 0 || all {
        return Ok(());
    }
    let over_count = missing.len() > 32;
    let over_ratio = base_count == 0 || sat_mul_exec(missing.len(), 100) > sat_mul_exec(
        base_count,
        2,
    );
    if !over_count && !over_ratio {
        return Ok(());
    }
    let take = if missing.len() < 10 {
        missing.len()
    } else {
        10
    };
    let sample = join_strings(missing, take, ", ");
    let mut m = chars_of("refuse:classify-journey: export-repair missing ");
    push_decimal(&mut m, missing.len() as u64);
    extend_str(
        &mut m,
        " tensors is not an MTP patch (allow every name starting with mtp., model.mtp., or model.language_model.mtp.; otherwise at most 32 tensors and 2% of ",
    );
    push_decimal(&mut m, base_count as u64);
    extend_str(&mut m, " base tensors). Sample: ");
    extend_chars(&mut m, &sample);
    Err(string_of(&m))
}

/// Whether some dot-separated segment of `name` starts with `lm_head`.
pub fn is_lm_head(name: &str) -> (r: bool)
    ensures
        r == lm_head_name(name@),
{
    let n = chars_of(name);
    let p = chars_of("lm_head");
    let mut i: usize = 0;
    while i < n.len()
        invariant
            i <= n.len(),
            p@ == "lm_head"@,
            n@ == name@,
            forall|j: int|
                #![trigger occurs_at(n@, "lm_head"@, j)]
                0 <= j < i ==> !(occurs_at(n@, "lm_head"@, j) && (j == 0 || n@[j - 1] == '.')),
        decreases n.len() - i,
    {
        if (i == 0 || n[i - 1] == '.') && occurs_at_exec(&n, &p, i) {
            assert(occurs_at(name@, "lm_head"@, i as int) && (i == 0 || name@[i - 1] == '.'));
            assert(lm_head_name(name@));
            return true;
        }
        i += 1;
    }
    proof {
        reveal_strlit("lm_head");
        assert forall|j: int|
            #![trigger occurs_at(n@, "lm_head"@, j)]
            !(occurs_at(n@, "lm_head"@, j) && (j == 0 || n@[j - 1] == '.')) by {
            if 0 <= j < i {
            }
        }
    }
    false
}

fn find_from_exec(s: &Vec<char>, p: &Vec<char>) -> (r: Option<usize>)
    ensures
        match r {
            Some(k) => find_from(s@, p@, 0) == k as int,
            None => find_from(s@, p@, 0) == -1,
        },
{
    let mut i: usize = 0;
    proof {
        lemma_find_from_shift(s@, p@, 0);
    }
    while i < s.len() && p.len() <= s.len() - i
        invariant
            i <= s.len(),
            find_from(s@, p@, 0) == find_from(s@, p@, i as int),
        decreases s.len() - i,
    {
        if occurs_at_exec(s, p, i) {
            return Some(i);
        }
        i += 1;
    }
    if p.len() == 0 && i == s.len() {
        assert(occurs_at(s@, p@, i as int)) by {
            assert(s@.subrange(i as int, i as int) =~= p@);
        }
        return Some(i);
    }
    None
}

proof fn lemma_find_from_shift(s: Seq<char>, p: Seq<char>, i: int)
    ensures
        true,
{
}

fn digit_value(c: char) -> (r: u64)
    requires
        is_digit(c),
    ensures
        r as int == (c as int) - ('0' as int),
        r < 10,
{
    (c as u32 - '0' as u32) as u64
}

proof fn lemma_digit_run(s: Seq<char>)
    ensures
        digit_run(s) <= s.len(),
        forall|j: int| 0 <= j < digit_run(s) ==> is_digit(#[trigger] s[j]),
        digit_run(s) < s.len() ==> !is_digit(s[digit_run(s) as int]),
    decreases s.len(),
{
    if s.len() > 0 && is_digit(s[0]) {
        lemma_digit_run(s.drop_first());
        assert forall|j: int| 0 <= j < digit_run(s) implies is_digit(#[trigger] s[j]) by {
            if j > 0 {
                assert(s[j] == s.drop_first()[j - 1]);
            }
        }
    }
}

proof fn lemma_digit_run_is(s: Seq<char>, d: int)
    requires
        0 <= d <= s.len(),
        forall|j: int| 0 <= j < d ==> is_digit(#[trigger] s[j]),
        d < s.len() ==> !is_digit(s[d]),
    ensures
        digit_run(s) == d,
    decreases d,
{
    if d > 0 {
        assert forall|j: int| 0 <= j < d - 1 implies is_digit(#[trigger] s.drop_first()[j]) by {
            assert(s.drop_first()[j] == s[j + 1]);
        }
        if d - 1 < s.drop_first().len() {
            assert(s.drop_first()[d - 1] == s[d]);
        }
        lemma_digit_run_is(s.drop_first(), d - 1);
    }
}

/// The layer number of a tensor name (see `layer_number`).
pub fn layer_index(name: &str) -> (r: Option<u64>)
    ensures
        r == layer_number(name@),
{
    let n = chars_of(name);
    let marker = chars_of(".layers.");
    proof {
        reveal_strlit(".layers.");
        assert(".layers."@.len() == 8);
    }
    let k = match find_from_exec(&n, &marker) {
        Some(k) => k,
        None => return None,
    };
    proof {
        lemma_find_from_bounds(n@, marker@, 0);
        assert(find_from(n@, marker@, 0) == k as int);
        assert(k + marker@.len() <= n@.len());
        assert(marker@.len() == 8);
        assert(k + 8 <= n.len());
    }
    let start = k + 8;
    let ghost rest = n@.skip(start as int);
    let mut d: usize = 0;
    let mut value: u64 = 0;
    let mut overflow = false;
    while start + d < n.len() && '0' <= n[start + d] && n[start + d] <= '9'
        invariant
            start <= n.len(),
            rest == n@.skip(start as int),
            start + d <= n.len(),
            forall|j: int| 0 <= j < d ==> is_digit(#[trigger] rest[j]),
            !overflow ==> value as nat == digits_value(rest.take(d as int)),
            overflow ==> digits_value(rest.take(d as int)) > u64::MAX,
        decreases n.len() - start - d,
    {
        let c = n[start + d];
        let dv = digit_value(c);
        proof {
            assert(rest[d as int] == c);
            let t = rest.take(d + 1);
            assert(t.drop_last() =~= rest.take(d as int));
            assert(t.last() == c);
            assert(digits_value(t) == digits_value(rest.take(d as int)) * 10 + dv);
        }
        if !overflow {
            match value.checked_mul(10) {
                Some(v10) => match v10.checked_add(dv) {
                    Some(v) => {
                        value = v;
                    },
                    None => {
                        overflow = true;
                    },
                },
                None => {
                    overflow = true;
                    proof {
                        assert(digits_value(rest.take(d as int)) * 10 >= (u64::MAX as int) + 1)
                            by (nonlinear_arith)
                            requires
                                digits_value(rest.take(d as int)) * 10 > u64::MAX,
                        ;
                    }
                },
            }
        } else {
            proof {
                assert(digits_value(rest.take(d as int)) * 10 + dv > u64::MAX) by (nonlinear_arith)
                    requires
                        digits_value(rest.take(d as int)) > u64::MAX,
                ;
            }
        }
        d += 1;
    }
    proof {
        if start + d < n.len() {
            assert(rest[d as int] == n@[start + d]);
        }
        lemma_digit_run_is(rest, d as int);
    }
    if d == 0 || start + d >= n.len() || n[start + d] != '.' {
        proof {
            if start + d < n.len() {
                assert(rest[d as int] == n@[start + d]);
            }
        }
        return None;
    }
    assert(rest[d as int] == n@[start + d]);
    if overflow {
        return None;
    }
    Some(value)
}

proof fn lemma_find_from_bounds(s: Seq<char>, p: Seq<char>, i: int)
    ensures
        find_from(s, p, i) >= 0 ==> find_from(s, p, i) + p.len() <= s.len() && occurs_at(
            s,
            p,
            find_from(s, p, i),
        ),
    decreases s.len() + 1 - i,
{
    if !(i < 0 || i + p.len() > s.len()) && !occurs_at(s, p, i) {
        lemma_find_from_bounds(s, p, i + 1);
    }
}

fn in_mtp_block_exec(n: &Vec<char>) -> (r: bool)
    ensures
        r == in_mtp_block(n@),
{
    starts_with_str(n, "mtp.") || contains_str(n, ".mtp.")
}

/// Whether `name` is a trunk tensor of layer `index`.
pub fn trunk_layer(name: &str, index: u64) -> (r: bool)
    ensures
        r == trunk_layer_of(name@, index),
{
    let n = chars_of(name);
    if in_mtp_block_exec(&n) {
        return false;
    }
    layer_index(name) == Some(index)
}

/// Whether `name` is an MTP tensor of layer `index`.
pub fn mtp_layer(name: &str, index: u64) -> (r: bool)
    ensures
        r == mtp_layer_of(name@, index),
{
    let n = chars_of(name);
    in_mtp_block_exec(&n) && layer_index(name) == Some(index)
}

pub(crate) fn chars_list(v: &Vec<String>) -> (out: Vec<Vec<char>>)
    ensures
        views(out@) == sv(v@),
{
    let mut out: Vec<Vec<char>> = Vec::new();
    for i in 0..v.len()
        invariant
            views(out@) == sv(v@).take(i as int),
    {
        let c = chars_of(v[i].as_str());
        let ghost before = views(out@);
        assert(c@ == sv(v@)[i as int]);
        out.push(c);
        assert(sv(v@).take(i + 1) =~= sv(v@).take(i as int).push(c@));
        assert(views(out@) =~= before.push(c@));
    }
    assert(sv(v@).take(v.len() as int) =~= sv(v@));
    out
}

pub(crate) fn strings_list(v: &Vec<Vec<char>>) -> (out: Vec<String>)
    ensures
        sv(out@) == views(v@),
{
    let mut out: Vec<String> = Vec::new();
    for i in 0..v.len()
        invariant
            sv(out@) == views(v@).take(i as int),
    {
        let s = string_of(&v[i]);
        let ghost before = sv(out@);
        assert(s@ == views(v@)[i as int]);
        out.push(s);
        assert(views(v@).take(i + 1) =~= views(v@).take(i as int).push(s@));
        assert(sv(out@) =~= before.push(s@));
    }
    assert(views(v@).take(v.len() as int) =~= views(v@));
    out
}

pub(crate) fn member(v: &Vec<Vec<char>>, x: &Vec<char>) -> (r: bool)
    ensures
        r == views(v@).contains(x@),
{
    for i in 0..v.len()
        invariant
            forall|j: int| 0 <= j < i ==> views(v@)[j] != x@,
    {
        if crate::text::equals_vec(&v[i], x) {
            assert(views(v@)[i as int] == x@);
            return true;
        }
    }
    false
}

/// The names a repair would copy, without writing: base tensors missing
/// from the merged catalog and base sidecar files missing from the merged
/// directory, each sorted. Nothing when the merged directory is absent.
pub fn preview_repair(
    merged_is_dir: bool,
    base_tensors: &Vec<String>,
    merged_tensors: &Vec<String>,
    base_files: &Vec<String>,
    merged_files: &Vec<String>,
) -> (r: RepairReport)
    ensures
        !merged_is_dir ==> r.tensors@.len() == 0 && r.files@.len() == 0,
        merged_is_dir ==> {
            &&& strictly_sorted(sv(r.tensors@))
            &&& forall|n: Seq<char>| #[trigger]
                sv(r.tensors@).contains(n) <==> is_missing_tensor(
                    sv(base_tensors@),
                    sv(merged_tensors@),
                    n,
                )
            &&& strictly_sorted(sv(r.files@))
            &&& forall|n: Seq<char>| #[trigger]
                sv(r.files@).contains(n) <==> is_missing_file(
                    sv(base_files@),
                    sv(merged_files@),
                    n,
                )
        },
{
    if !merged_is_dir {
        return RepairReport { tensors: Vec::new(), files: Vec::new() };
    }
    let base = chars_list(base_tensors);
    let merged = chars_list(merged_tensors);
    let mut missing: Vec<Vec<char>> = Vec::new();
    for i in 0..base.len()
        invariant
            views(base@) == sv(base_tensors@),
            views(merged@) == sv(merged_tensors@),
            forall|n: Seq<char>| #[trigger]
                views(missing@).contains(n) <==> (views(base@).take(i as int).contains(n)
                    && !views(merged@).contains(n)),
    {
        let ghost before = views(missing@);
        let ghost b = views(base@);
        let found = member(&merged, &base[i]);
        if !found {
            missing.push(crate::text::slice_chars(&base[i], 0, base[i].len()));
            assert(base@[i as int]@.subrange(0, base@[i as int]@.len() as int) =~= base@[i as int]@);
            assert(views(missing@) =~= before.push(b[i as int]));
        }
        proof {
            let t1 = b.take(i + 1);
            let t0 = b.take(i as int);
            assert(t1 =~= t0.push(b[i as int]));
            assert forall|n: Seq<char>| #[trigger]
                views(missing@).contains(n) <==> (t1.contains(n) && !views(
                    merged@,
                ).contains(n)) by {
                if views(missing@).contains(n) && !before.contains(n) {
                    let w = choose|w: int| 0 <= w < views(missing@).len() && views(missing@)[w] == n;
                    assert(w == before.len());
                    assert(t1[i as int] == n);
                }
                if before.contains(n) {
                    let w = choose|w: int| 0 <= w < before.len() && before[w] == n;
                    assert(views(missing@)[w] == n);
                    let u = choose|u: int| 0 <= u < i && t0[u] == n;
                    assert(t1[u] == n);
                }
                if t1.contains(n) && !views(merged@).contains(n) {
                    let u = choose|u: int| 0 <= u < i + 1 && t1[u] == n;
                    if u < i {
                        assert(t0[u] == n);
                        assert(before.contains(n));
                        let w = choose|w: int| 0 <= w < before.len() && before[w] == n;
                        assert(views(missing@)[w] == n);
                    } else {
                        assert(views(missing@)[views(missing@).len() - 1] == n);
                    }
                }
            }
        }
    }
    assert(views(base@).take(base.len() as int) =~= views(base@));
    let sorted = sorted_unique(&missing);
    let tensors = strings_list(&sorted);

    let bfiles = chars_list(base_files);
    let mfiles = chars_list(merged_files);
    let mut want: Vec<Vec<char>> = Vec::new();
    assert(views(bfiles@).len() == bfiles@.len());
    assert(sv(base_files@).len() == base_files@.len());
    for i in 0..bfiles.len()
        invariant
            views(bfiles@) == sv(base_files@),
            views(mfiles@) == sv(merged_files@),
            bfiles@.len() == base_files@.len(),
            forall|n: Seq<char>| #[trigger]
                views(want@).contains(n) <==> (views(bfiles@).take(i as int).contains(n) && sidecar(
                    n,
                ) && !views(mfiles@).contains(n)),
    {
        let ghost before = views(want@);
        let ghost b = views(bfiles@);
        let side = is_sidecar(base_files[i].as_str());
        assert(base_files@[i as int]@ == b[i as int]);
        let present = member(&mfiles, &bfiles[i]);
        if side && !present {
            want.push(crate::text::slice_chars(&bfiles[i], 0, bfiles[i].len()));
            assert(bfiles@[i as int]@.subrange(0, bfiles@[i as int]@.len() as int) =~= bfiles@[i as int]@);
            assert(views(want@) =~= before.push(b[i as int]));
        }
        proof {
            let t1 = b.take(i + 1);
            let t0 = b.take(i as int);
            assert(t1 =~= t0.push(b[i as int]));
            assert forall|n: Seq<char>| #[trigger]
                views(want@).contains(n) <==> (t1.contains(n) && sidecar(n) && !views(
                    mfiles@,
                ).contains(n)) by {
                if views(want@).contains(n) && !before.contains(n) {
                    let w = choose|w: int| 0 <= w < views(want@).len() && views(want@)[w] == n;
                    assert(w == before.len());
                    assert(t1[i as int] == n);
                }
                if before.contains(n) {
                    let w = choose|w: int| 0 <= w < before.len() && before[w] == n;
                    assert(views(want@)[w] == n);
                    let u = choose|u: int| 0 <= u < i && t0[u] == n;
                    assert(t1[u] == n);
                }
                if t1.contains(n) && sidecar(n) && !views(mfiles@).contains(n) {
                    let u = choose|u: int| 0 <= u < i + 1 && t1[u] == n;
                    if u < i {
                        assert(t0[u] == n);
                        assert(before.contains(n));
                        let w = choose|w: int| 0 <= w < before.len() && before[w] == n;
                        assert(views(want@)[w] == n);
                    } else {
                        assert(views(want@)[views(want@).len() - 1] == n);
                    }
                }
            }
        }
    }
    assert(views(bfiles@).take(bfiles.len() as int) =~= views(bfiles@));
    let sorted_files = sorted_unique(&want);
    let files = strings_list(&sorted_files);
    RepairReport { tensors, files }
}

/// The fingerprint text of a repair: `export-repair`, the pipeline, and the
/// copied names (tensors, then files), one per line.
pub open spec fn fingerprint_material(pipeline: Seq<char>, report: RepairReport) -> Seq<char> {
    "export-repair\n"@ + pipeline + "\n"@ + join(sv(report.tensors@) + sv(report.files@), "\n"@)
}

/// The SHA-256 fingerprint of a repair, in lowercase hex.
pub fn repair_fingerprint(pipeline: &str, report: &RepairReport) -> (out: String)
    ensures
        out@ == hex_lower(sha256(encode_utf8(fingerprint_material(pipeline@, *report)))),
        out@.len() == 64,
{
    let mut names: Vec<String> = Vec::new();
    for i in 0..report.tensors.len()
        invariant
            sv(names@) == sv(report.tensors@).take(i as int),
    {
        let ghost before = sv(names@);
        let x = new_string(report.tensors[i].as_str());
        assert(x@ == sv(report.tensors@)[i as int]);
        names.push(x);
        assert(sv(report.tensors@).take(i + 1) =~= sv(report.tensors@).take(i as int).push(x@));
        assert(sv(names@) =~= before.push(x@));
    }
    assert(sv(report.tensors@).take(report.tensors.len() as int) =~= sv(report.tensors@));
    for i in 0..report.files.len()
        invariant
            sv(names@) == sv(report.tensors@) + sv(report.files@).take(i as int),
    {
        let ghost before = sv(names@);
        let x = new_string(report.files[i].as_str());
        assert(x@ == sv(report.files@)[i as int]);
        names.push(x);
        assert(sv(report.files@).take(i + 1) =~= sv(report.files@).take(i as int).push(x@));
        assert(sv(names@) =~= before.push(x@));
    }
    assert(sv(report.files@).take(report.files.len() as int) =~= sv(report.files@));
    let body = join_strings(&names, names.len(), "\n");
    assert(sv(names@).take(names.len() as int) =~= sv(names@));
    let mut text = chars_of("export-repair\n");
    extend_str(&mut text, pipeline);
    extend_str(&mut text, "\n");
    extend_chars(&mut text, &body);
    let s = string_of(&text);
    let h = sha256_hex(&s);
    string_of(&h)
}


// ---------------------------------------------------------------- headers

/// The largest JSON header a shard may declare.
pub const MAX_HEADER_LEN: u64 = 100_000_000;

/// The little-endian value of `b`.
pub open spec fn le_value(b: Seq<u8>) -> nat
    decreases b.len(),
{
    if b.len() == 0 {
        0
    } else {
        b[0] as nat + 256 * le_value(b.drop_first())
    }
}

pub open spec fn pow256(n: nat) -> nat
    decreases n,
{
    if n == 0 {
        1
    } else {
        256 * pow256((n - 1) as nat)
    }
}

proof fn lemma_le_value_bound(b: Seq<u8>)
    ensures
        le_value(b) < pow256(b.len()),
    decreases b.len(),
{
    if b.len() > 0 {
        lemma_le_value_bound(b.drop_first());
        let v = le_value(b.drop_first());
        let p = pow256(b.drop_first().len());
        assert(b[0] as nat + 256 * v < 256 * p) by (nonlinear_arith)
            requires
                v < p,
                b[0] < 256,
        ;
    }
}

/// The header length a shard's first eight bytes declare, refused above
/// 100 MB before any buffer is sized.
pub fn header_len(prefix: &Vec<u8>, path: &str) -> (r: Result<u64, String>)
    requires
        prefix@.len() == 8,
    ensures
        match r {
            Ok(v) => v as nat == le_value(prefix@) && le_value(prefix@) <= MAX_HEADER_LEN,
            Err(e) => le_value(prefix@) > MAX_HEADER_LEN && e@
                == "refuse:classify-journey: export-repair "@ + path@ + " header is too large"@,
        },
{
    let mut v: u64 = 0;
    let mut i: usize = 8;
    proof {
        assert(prefix@.skip(8) =~= Seq::<u8>::empty());
    }
    while i > 0
        invariant
            i <= 8,
            prefix@.len() == 8,
            v as nat == le_value(prefix@.skip(i as int)),
            (v as nat) < pow256((8 - i) as nat),
        decreases i,
    {
        let b = prefix[i - 1];
        proof {
            let t = prefix@.skip(i - 1);
            assert(t.drop_first() =~= prefix@.skip(i as int));
            assert(t[0] == b);
            assert(pow256((8 - i + 1) as nat) == 256 * pow256((8 - i) as nat));
            assert(pow256(7) == 0x100000000000000) by {
                reveal_with_fuel(pow256, 8);
            }
            assert((8 - i) as nat <= 7);
            lemma_pow_mono((8 - i) as nat, 7);
            assert((b as nat) + 256 * (v as nat) < 256 * pow256((8 - i) as nat)) by (
            nonlinear_arith)
                requires
                    (v as nat) < pow256((8 - i) as nat),
                    b < 256,
            ;
            assert(256 * pow256((8 - i) as nat) <= 256 * 0x100000000000000) by (nonlinear_arith)
                requires
                    pow256((8 - i) as nat) <= 0x100000000000000,
            ;
        }
        v = (b as u64) + 256 * v;
        i -= 1;
    }
    assert(prefix@.skip(0) =~= prefix@);
    if v > MAX_HEADER_LEN {
        let mut m = chars_of("refuse:classify-journey: export-repair ");
        extend_str(&mut m, path);
        extend_str(&mut m, " header is too large");
        return Err(string_of(&m));
    }
    Ok(v)
}

proof fn lemma_pow_mono(a: nat, b: nat)
    requires
        a <= b,
    ensures
        pow256(a) <= pow256(b),
    decreases b,
{
    if a < b {
        lemma_pow_mono(a, (b - 1) as nat);
    }
}

/// One tensor of one shard header, in catalog order.
#[derive(Clone, Debug, PartialEq, Eq)]
pub struct CatalogEntry {
    pub name: String,
    /// The shard's path, as printed.
    pub shard: String,
    /// The shard's JSON header length.
    pub header_len: u64,
    /// The shard file's length in bytes.
    pub file_len: u64,
    pub start: u64,
    pub end: u64,
}

pub open spec fn entry_names(es: Seq<CatalogEntry>) -> Seq<Seq<char>> {
    es.map_values(|e: CatalogEntry| e.name@)
}

/// What is wrong with the next catalog entry, given the names before it.
pub open spec fn entry_problem(dir: Seq<char>, prior: Seq<Seq<char>>, e: CatalogEntry) -> Option<
    Seq<char>,
> {
    let pre = "refuse:classify-journey: export-repair "@;
    if prior.contains(e.name@) {
        Some(pre + "duplicate tensor "@ + e.name@ + " in "@ + dir)
    } else if e.start > e.end {
        Some(pre + "tensor "@ + e.name@ + " in "@ + e.shard@ + " has inverted data_offsets"@)
    } else if 8 + e.header_len + e.end > u64::MAX {
        Some(pre + "tensor "@ + e.name@ + " offset overflow"@)
    } else if 8 + e.header_len + e.end > e.file_len {
        Some(pre + "tensor "@ + e.name@ + " in "@ + e.shard@ + " extends past the file"@)
    } else {
        None
    }
}

/// The first catalog problem in entry order: a name seen in an earlier
/// shard, inverted offsets, an offset past `u64`, or data past the file.
pub open spec fn catalog_problem(dir: Seq<char>, es: Seq<CatalogEntry>) -> Option<Seq<char>>
    decreases es.len(),
{
    if es.len() == 0 {
        None
    } else {
        match catalog_problem(dir, es.drop_last()) {
            Some(p) => Some(p),
            None => entry_problem(dir, entry_names(es.drop_last()), es.last()),
        }
    }
}

/// A catalog that passes the check is sound: every tensor's offsets are in
/// order and its data lies inside its shard file, and no tensor name
/// comes from two entries.
pub proof fn accepted_catalog_is_sound(dir: Seq<char>, es: Seq<CatalogEntry>)
    requires
        catalog_problem(dir, es) is None,
    ensures
        forall|i: int|
            0 <= i < es.len() ==> (#[trigger] es[i]).start <= es[i].end && 8 + es[i].header_len
                + es[i].end <= es[i].file_len,
        forall|i: int, j: int| 0 <= i < j < es.len() ==> (#[trigger] es[i]).name@ != (#[trigger] es[j]).name@,
    decreases es.len(),
{
    if es.len() > 0 {
        let init = es.drop_last();
        accepted_catalog_is_sound(dir, init);
        let last = es.last();
        assert(entry_problem(dir, entry_names(init), last) is None);
        assert forall|i: int, j: int| 0 <= i < j < es.len() implies (#[trigger] es[i]).name@ != (#[trigger] es[j]).name@ by {
            if j == es.len() - 1 {
                assert(entry_names(init)[i] == es[i].name@);
                assert(entry_names(init).contains(es[i].name@));
            } else {
                assert(init[i] == es[i] && init[j] == es[j]);
            }
        }
        assert forall|i: int|
            0 <= i < es.len() implies (#[trigger] es[i]).start <= es[i].end && 8 + es[i].header_len
                + es[i].end <= es[i].file_len by {
            if i < es.len() - 1 {
                assert(init[i] == es[i]);
            }
        }
    }
}

proof fn lemma_catalog_prefix(dir: Seq<char>, es: Seq<CatalogEntry>, k: int)
    requires
        0 <= k <= es.len(),
        catalog_problem(dir, es.take(k)) is Some,
    ensures
        catalog_problem(dir, es) == catalog_problem(dir, es.take(k)),
    decreases es.len(),
{
    if k == es.len() {
        assert(es.take(k) =~= es);
    } else {
        assert(es.drop_last().take(k) =~= es.take(k));
        lemma_catalog_prefix(dir, es.drop_last(), k);
    }
}

/// The catalog check over every shard header of `dir`.
pub fn check_catalog(dir: &str, entries: &Vec<CatalogEntry>) -> (r: Result<(), String>)
    ensures
        match r {
            Ok(_) => catalog_problem(dir@, entries@) is None,
            Err(e) => catalog_problem(dir@, entries@) == Some(e@),
        },
{
    let mut seen: Vec<Vec<char>> = Vec::new();
    for i in 0..entries.len()
        invariant
            catalog_problem(dir@, entries@.take(i as int)) is None,
            views(seen@) == entry_names(entries@.take(i as int)),
    {
        let e = &entries[i];
        proof {
            let t = entries@.take(i + 1);
            assert(t.drop_last() =~= entries@.take(i as int));
            assert(t.last() == *e);
        }
        let name = chars_of(e.name.as_str());
        let pre = "refuse:classify-journey: export-repair ";
        if member(&seen, &name) {
            let mut m = chars_of(pre);
            extend_str(&mut m, "duplicate tensor ");
            extend_chars(&mut m, &name);
            extend_str(&mut m, " in ");
            extend_str(&mut m, dir);
            proof {
                lemma_catalog_prefix(dir@, entries@, i + 1);
            }
            return Err(string_of(&m));
        }
        if e.start > e.end {
            let mut m = chars_of(pre);
            extend_str(&mut m, "tensor ");
            extend_chars(&mut m, &name);
            extend_str(&mut m, " in ");
            extend_str(&mut m, e.shard.as_str());
            extend_str(&mut m, " has inverted data_offsets");
            proof {
                lemma_catalog_prefix(dir@, entries@, i + 1);
            }
            return Err(string_of(&m));
        }
        let end_pos = match 8u64.checked_add(e.header_len) {
            Some(a) => a.checked_add(e.end),
            None => None,
        };
        match end_pos {
            None => {
                let mut m = chars_of(pre);
                extend_str(&mut m, "tensor ");
                extend_chars(&mut m, &name);
                extend_str(&mut m, " offset overflow");
                proof {
                lemma_catalog_prefix(dir@, entries@, i + 1);
            }
            return Err(string_of(&m));
            },
            Some(p) => {
                if p > e.file_len {
                    let mut m = chars_of(pre);
                    extend_str(&mut m, "tensor ");
                    extend_chars(&mut m, &name);
                    extend_str(&mut m, " in ");
                    extend_str(&mut m, e.shard.as_str());
                    extend_str(&mut m, " extends past the file");
                    proof {
                lemma_catalog_prefix(dir@, entries@, i + 1);
            }
            return Err(string_of(&m));
                }
            },
        }
        let ghost before = views(seen@);
        seen.push(name);
        proof {
            assert(views(seen@) =~= before.push(e.name@));
            assert(entry_names(entries@.take(i + 1)) =~= entry_names(entries@.take(i as int)).push(
                e.name@,
            ));
        }
    }
    assert(entries@.take(entries.len() as int) =~= entries@);
    Ok(())
}

// ---------------------------------------------------------------- config

/// What `config.json` declares, as the repair reads it: the top-level
/// values, and whether a `text_config` key is present with its values.
/// An absent or non-numeric count is `None`; an absent or non-boolean flag
/// is `None`.
#[derive(Clone, Debug, PartialEq, Eq)]
pub struct ConfigFacts {
    pub text_config: bool,
    pub text_layers: Option<u64>,
    pub text_mtp: Option<u64>,
    pub text_tie: Option<bool>,
    pub root_layers: Option<u64>,
    pub root_mtp: Option<u64>,
    pub root_tie: Option<bool>,
}

pub open spec fn or_opt(a: Option<u64>, b: Option<u64>) -> Option<u64> {
    match a {
        Some(x) => Some(x),
        None => b,
    }
}

/// `num_hidden_layers` and `mtp_num_hidden_layers`: `text_config` first
/// (when present), then the top level.
pub open spec fn declared(c: ConfigFacts) -> (Option<u64>, Option<u64>) {
    if c.text_config {
        (or_opt(c.text_layers, c.root_layers), or_opt(c.text_mtp, c.root_mtp))
    } else {
        (c.root_layers, c.root_mtp)
    }
}

/// The declared layer counts.
pub fn declared_counts(c: &ConfigFacts) -> (r: (Option<u64>, Option<u64>))
    ensures
        r == declared(*c),
{
    if c.text_config {
        let layers = match c.text_layers {
            Some(x) => Some(x),
            None => c.root_layers,
        };
        let mtp = match c.text_mtp {
            Some(x) => Some(x),
            None => c.root_mtp,
        };
        (layers, mtp)
    } else {
        (c.root_layers, c.root_mtp)
    }
}

/// Some tensor of `names` is a trunk tensor of layer `i`.
pub open spec fn trunk_covered(names: Seq<Seq<char>>, i: int) -> bool {
    exists|k: int| 0 <= k < names.len() && trunk_layer_of(names[k], i as u64)
}

/// Some tensor of `names` is an MTP tensor of layer `i`.
pub open spec fn mtp_covered(names: Seq<Seq<char>>, i: int) -> bool {
    exists|k: int| 0 <= k < names.len() && mtp_layer_of(names[k], i as u64)
}

/// The first trunk layer in `from..count` that no tensor carries.
pub open spec fn first_trunk_gap(names: Seq<Seq<char>>, from: int, count: int) -> Option<int>
    decreases count - from,
{
    if from >= count {
        None
    } else if !trunk_covered(names, from) {
        Some(from)
    } else {
        first_trunk_gap(names, from + 1, count)
    }
}

/// The first MTP layer in `from..count` that no tensor carries.
pub open spec fn first_mtp_gap(names: Seq<Seq<char>>, from: int, count: int) -> Option<int>
    decreases count - from,
{
    if from >= count {
        None
    } else if !mtp_covered(names, from) {
        Some(from)
    } else {
        first_mtp_gap(names, from + 1, count)
    }
}

/// Why a repaired export still does not match its config: no config, a
/// trunk layer without a tensor, or a declared MTP layer without one.
pub open spec fn config_problem(merged: Seq<char>, c: Option<ConfigFacts>, names: Seq<Seq<char>>) -> Option<
    Seq<char>,
> {
    let pre = "refuse:classify-journey: export-repair "@;
    match c {
        None => Some(pre + merged + " has no config.json"@),
        Some(f) => {
            let (layers, mtp) = declared(f);
            let trunk_gap = match layers {
                Some(l) => first_trunk_gap(names, 0, l as int),
                None => None,
            };
            let mtp_gap = match mtp {
                Some(m) => first_mtp_gap(names, 0, m as int),
                None => None,
            };
            match trunk_gap {
                Some(i) => Some(pre + "cannot repair config num_hidden_layers="@ + decimal(
                    layers->0 as nat,
                ) + ": no tensor for layer "@ + decimal(i as nat) + " in "@ + merged),
                None => match mtp_gap {
                    Some(i) => Some(pre + "cannot repair config mtp_num_hidden_layers="@
                        + decimal(mtp->0 as nat) + ": mtp.layers."@ + decimal(i as nat)
                        + " is missing from the base snapshot and the merged export"@),
                    None => None,
                },
            }
        },
    }
}

fn layer_tables(names: &Vec<String>) -> (out: (Vec<Option<u64>>, Vec<Option<u64>>))
    ensures
        out.0@.len() == names@.len(),
        out.1@.len() == names@.len(),
        forall|k: int|
            0 <= k < names@.len() ==> (#[trigger] out.0@[k] == if in_mtp_block(names@[k]@) {
                None
            } else {
                layer_number(names@[k]@)
            }),
        forall|k: int|
            0 <= k < names@.len() ==> (#[trigger] out.1@[k] == if in_mtp_block(names@[k]@) {
                layer_number(names@[k]@)
            } else {
                None
            }),
{
    let mut trunk: Vec<Option<u64>> = Vec::new();
    let mut mtp: Vec<Option<u64>> = Vec::new();
    for i in 0..names.len()
        invariant
            trunk@.len() == i,
            mtp@.len() == i,
            forall|k: int|
                0 <= k < i ==> (#[trigger] trunk@[k] == if in_mtp_block(names@[k]@) {
                    None
                } else {
                    layer_number(names@[k]@)
                }),
            forall|k: int|
                0 <= k < i ==> (#[trigger] mtp@[k] == if in_mtp_block(names@[k]@) {
                    layer_number(names@[k]@)
                } else {
                    None
                }),
    {
        let n = chars_of(names[i].as_str());
        let block = in_mtp_block_exec(&n);
        let li = layer_index(names[i].as_str());
        if block {
            trunk.push(None);
            mtp.push(li);
        } else {
            trunk.push(li);
            mtp.push(None);
        }
    }
    (trunk, mtp)
}

fn covered_in(table: &Vec<Option<u64>>, i: u64) -> (r: bool)
    ensures
        r == exists|k: int| 0 <= k < table@.len() && table@[k] == Some(i),
{
    for k in 0..table.len()
        invariant
            forall|j: int| 0 <= j < k ==> table@[j] != Some(i),
    {
        if table[k] == Some(i) {
            return true;
        }
    }
    false
}

/// Refuses when `config.json` is missing or still declares layers that no
/// tensor of the repaired export carries.
pub fn verify_config_matches_tensors(
    merged: &str,
    config: Option<&ConfigFacts>,
    names: &Vec<String>,
) -> (r: Result<(), String>)
    ensures
        match r {
            Ok(_) => config_problem(merged@, match config {
                Some(c) => Some(*c),
                None => None,
            }, sv(names@)) is None,
            Err(e) => config_problem(merged@, match config {
                Some(c) => Some(*c),
                None => None,
            }, sv(names@)) == Some(e@),
        },
{
    let pre = "refuse:classify-journey: export-repair ";
    let facts = match config {
        None => {
            let mut m = chars_of(pre);
            extend_str(&mut m, merged);
            extend_str(&mut m, " has no config.json");
            return Err(string_of(&m));
        },
        Some(f) => f,
    };
    let (layers, mtp) = declared_counts(facts);
    let (trunk, mtps) = layer_tables(names);
    let ghost ns = sv(names@);
    let ghost cfg = match config {
        Some(c) => Some(*c),
        None => None,
    };
    assert(cfg == Some(*facts));
    if let Some(l) = layers {
        let mut index: u64 = 0;
        while index < l
            invariant
                ns == sv(names@),
                cfg == Some(*facts),
                cfg == match config {
                    Some(c) => Some(*c),
                    None => None,
                },
                declared(*facts) == (layers, mtp),
                layers == Some(l),
                pre@ == "refuse:classify-journey: export-repair "@,
                trunk@.len() == names@.len(),
                forall|k: int|
                    0 <= k < names@.len() ==> (#[trigger] trunk@[k] == if in_mtp_block(names@[k]@) {
                        None
                    } else {
                        layer_number(names@[k]@)
                    }),
                first_trunk_gap(ns, 0, l as int) == first_trunk_gap(ns, index as int, l as int),
                index <= l,
            decreases l - index,
        {
            let hit = covered_in(&trunk, index);
            proof {
                assert(hit == trunk_covered(ns, index as int)) by {
                    if hit {
                        let k = choose|k: int| 0 <= k < trunk@.len() && trunk@[k] == Some(index);
                        assert(ns[k] == names@[k]@);
                        assert(trunk_layer_of(ns[k], index));
                    }
                    if trunk_covered(ns, index as int) {
                        let k = choose|k: int|
                            0 <= k < ns.len() && trunk_layer_of(ns[k], (index as int) as u64);
                        assert(ns[k] == names@[k]@);
                        assert(trunk@[k] == Some(index));
                    }
                }
            }
            if !hit {
                let mut m = chars_of(pre);
                extend_str(&mut m, "cannot repair config num_hidden_layers=");
                push_decimal(&mut m, l);
                extend_str(&mut m, ": no tensor for layer ");
                push_decimal(&mut m, index);
                extend_str(&mut m, " in ");
                extend_str(&mut m, merged);
                proof {
                    assert(first_trunk_gap(ns, index as int, l as int) == Some(index as int));
                    assert(first_trunk_gap(ns, 0, l as int) == Some(index as int));
                    assert(declared(*facts) == (layers, mtp));
                    assert(m@ == "refuse:classify-journey: export-repair "@
                        + "cannot repair config num_hidden_layers="@ + decimal(l as nat)
                        + ": no tensor for layer "@ + decimal(index as nat) + " in "@ + merged@);
                    assert(config_problem(merged@, cfg, ns) == Some(m@));
                }
                return Err(string_of(&m));
            }
            index += 1;
        }
    }
    if let Some(m_count) = mtp {
        if m_count > 0 {
            let mut index: u64 = 0;
            while index < m_count
                invariant
                    ns == sv(names@),
                    cfg == Some(*facts),
                    cfg == match config {
                        Some(c) => Some(*c),
                        None => None,
                    },
                    declared(*facts) == (layers, mtp),
                    mtp == Some(m_count),
                    first_trunk_gap(ns, 0, match layers { Some(l) => l as int, None => 0 }) is None,
                    pre@ == "refuse:classify-journey: export-repair "@,
                    mtps@.len() == names@.len(),
                    forall|k: int|
                        0 <= k < names@.len() ==> (#[trigger] mtps@[k] == if in_mtp_block(
                            names@[k]@,
                        ) {
                            layer_number(names@[k]@)
                        } else {
                            None
                        }),
                    first_mtp_gap(ns, 0, m_count as int) == first_mtp_gap(
                        ns,
                        index as int,
                        m_count as int,
                    ),
                    index <= m_count,
                decreases m_count - index,
            {
                let hit = covered_in(&mtps, index);
                proof {
                    assert(hit == mtp_covered(ns, index as int)) by {
                        if hit {
                            let k = choose|k: int| 0 <= k < mtps@.len() && mtps@[k] == Some(index);
                            assert(ns[k] == names@[k]@);
                            assert(mtp_layer_of(ns[k], index));
                        }
                        if mtp_covered(ns, index as int) {
                            let k = choose|k: int|
                                0 <= k < ns.len() && mtp_layer_of(ns[k], (index as int) as u64);
                            assert(ns[k] == names@[k]@);
                            assert(mtps@[k] == Some(index));
                        }
                    }
                }
                if !hit {
                    let mut m = chars_of(pre);
                    extend_str(&mut m, "cannot repair config mtp_num_hidden_layers=");
                    push_decimal(&mut m, m_count);
                    extend_str(&mut m, ": mtp.layers.");
                    push_decimal(&mut m, index);
                    extend_str(&mut m, " is missing from the base snapshot and the merged export");
                    return Err(string_of(&m));
                }
                index += 1;
            }
        }
    }
    Ok(())
}

/// The tie flag on `config.json`: top level, or in `text_config`.
pub open spec fn tied(c: ConfigFacts) -> bool {
    c.root_tie == Some(true) || (c.text_config && c.text_tie == Some(true))
}

/// Refuses to copy `lm_head` tensors into an export whose config ties the
/// word embeddings. The config is read leniently: an unreadable config
/// states no flag.
pub fn refuse_tied_lm_head(config_path: &str, names: &Vec<String>, config: &ConfigFacts) -> (r:
    Result<(), String>)
    ensures
        r is Ok <==> !((exists|k: int| 0 <= k < names@.len() && lm_head_name(names@[k]@)) && tied(
            *config,
        )),
        r matches Err(e) ==> e@
            == "refuse:classify-journey: export-repair refuses to copy lm_head tensors because "@
            + config_path@ + " has tie_word_embeddings true"@,
{
    let mut any = false;
    for k in 0..names.len()
        invariant
            any == exists|j: int| 0 <= j < k && lm_head_name(names@[j]@),
    {
        if is_lm_head(names[k].as_str()) {
            any = true;
        }
    }
    if !any {
        return Ok(());
    }
    let flag = config.root_tie == Some(true) || (config.text_config && config.text_tie == Some(
        true,
    ));
    if flag {
        let mut m = chars_of(
            "refuse:classify-journey: export-repair refuses to copy lm_head tensors because ",
        );
        extend_str(&mut m, config_path);
        extend_str(&mut m, " has tie_word_embeddings true");
        return Err(string_of(&m));
    }
    Ok(())
}

// ---------------------------------------------------------------- plan

/// What a repair writes once its refusals have passed.
#[derive(Clone, Debug, PartialEq, Eq)]
pub struct RepairPlan {
    /// Copy the missing tensors into the repair shard and rewrite the index.
    pub write_shard: bool,
    /// The sidecar files to copy, in order.
    pub files: Vec<String>,
}

pub open spec fn any_lm_head(names: Seq<String>) -> bool {
    exists|k: int| 0 <= k < names.len() && lm_head_name(names[k]@)
}

/// Why a repair refuses before it writes, in the order it checks: either
/// directory missing, a tied `lm_head`, or an implausible gap.
pub open spec fn repair_refusal(
    base: Seq<char>,
    merged: Seq<char>,
    base_is_dir: bool,
    merged_is_dir: bool,
    report: RepairReport,
    config: ConfigFacts,
    base_count: nat,
) -> Option<Seq<char>> {
    let pre = "refuse:classify-journey: export-repair "@;
    if !base_is_dir {
        Some(pre + "base snapshot "@ + base + " is not a directory"@)
    } else if !merged_is_dir {
        Some(pre + "merged dir "@ + merged + " is not a directory"@)
    } else if any_lm_head(report.tensors@) && tied(config) {
        Some("refuse:classify-journey: export-repair refuses to copy lm_head tensors because "@ + crate::paths::path_join(
            merged,
            "config.json"@,
        ) + " has tie_word_embeddings true"@)
    } else if !plausible_gap(sv(report.tensors@), base_count) {
        Some(implausible_text(sv(report.tensors@), base_count))
    } else {
        None
    }
}

/// The decisions of a repair between its preview and its writes: refuse a
/// missing directory, a tied `lm_head`, or a gap that is not an MTP patch;
/// otherwise write the shard when tensors are missing and copy the missing
/// sidecar files. `config` is what `config.json` says, read leniently.
pub fn plan_repair(
    base: &str,
    merged: &str,
    base_is_dir: bool,
    merged_is_dir: bool,
    report: &RepairReport,
    config: &ConfigFacts,
    base_count: usize,
) -> (r: Result<RepairPlan, String>)
    ensures
        match r {
            Ok(p) => repair_refusal(
                base@,
                merged@,
                base_is_dir,
                merged_is_dir,
                *report,
                *config,
                base_count as nat,
            ) is None && p.write_shard == (report.tensors@.len() > 0) && sv(p.files@) == sv(
                report.files@,
            ),
            Err(e) => repair_refusal(
                base@,
                merged@,
                base_is_dir,
                merged_is_dir,
                *report,
                *config,
                base_count as nat,
            ) == Some(e@),
        },
{
    let pre = "refuse:classify-journey: export-repair ";
    if !base_is_dir {
        let mut m = chars_of(pre);
        extend_str(&mut m, "base snapshot ");
        extend_str(&mut m, base);
        extend_str(&mut m, " is not a directory");
        return Err(string_of(&m));
    }
    if !merged_is_dir {
        let mut m = chars_of(pre);
        extend_str(&mut m, "merged dir ");
        extend_str(&mut m, merged);
        extend_str(&mut m, " is not a directory");
        return Err(string_of(&m));
    }
    let config_path = crate::paths::join_path(merged, "config.json");
    match refuse_tied_lm_head(config_path.as_str(), &report.tensors, config) {
        Err(e) => {
            proof {
                let k = choose|k: int|
                    0 <= k < report.tensors@.len() && lm_head_name(report.tensors@[k]@);
                assert(any_lm_head(report.tensors@));
            }
            return Err(e);
        },
        Ok(_) => {},
    }
    match refuse_implausible(&report.tensors, base_count) {
        Err(e) => {
            return Err(e);
        },
        Ok(_) => {},
    }
    let files = strings_list(&chars_list(&report.files));
    Ok(RepairPlan { write_shard: report.tensors.len() > 0, files })
}

} // verus!
