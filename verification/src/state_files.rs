//! The state-file fingerprint a dry run compares before and after, and the
//! stamp written into plans.

use vstd::prelude::*;
use crate::export_repair::sv;
use crate::text::{chars_of, decimal, extend_str, push_decimal, string_of};

verus! {

/// The state files a dry run must leave untouched, in listing order.
pub open spec fn state_file_names() -> Seq<Seq<char>> {
    seq![
        "placement-actual.json"@,
        "actual-state.json"@,
        "desired-snapshot.yaml"@,
        "lifecycle.json"@,
        "lifecycle.jsonl"@,
        "apply-audit.jsonl"@,
        "sessions.jsonl"@,
        "reconcile.json"@,
        "reconcile.md"@,
        "catalog.json"@,
        "model-actual.json"@,
        "conveyor-mesh.json"@,
        "conveyor-hops.json"@,
        "conveyor-leases.json"@,
    ]
}

/// How many state files the fingerprint covers.
pub const STATE_FILE_COUNT: usize = 14;

/// The `i`-th state file name.
pub fn state_file_name(i: usize) -> (r: &'static str)
    requires
        i < STATE_FILE_COUNT,
    ensures
        r@ == state_file_names()[i as int],
{
    match i {
        0 => "placement-actual.json",
        1 => "actual-state.json",
        2 => "desired-snapshot.yaml",
        3 => "lifecycle.json",
        4 => "lifecycle.jsonl",
        5 => "apply-audit.jsonl",
        6 => "sessions.jsonl",
        7 => "reconcile.json",
        8 => "reconcile.md",
        9 => "catalog.json",
        10 => "model-actual.json",
        11 => "conveyor-mesh.json",
        12 => "conveyor-hops.json",
        _ => "conveyor-leases.json",
    }
}

/// The size the caller found for the `i`-th state file: `None` when it is
/// not a regular file (or no size was given for it).
pub open spec fn size_at(sizes: Seq<Option<u64>>, i: int) -> Option<u64> {
    if 0 <= i < sizes.len() {
        sizes[i]
    } else {
        None
    }
}

/// `name:size` for each of the first `n` state files that is present.
pub open spec fn snapshot_lines(sizes: Seq<Option<u64>>, n: int) -> Seq<Seq<char>>
    decreases n,
{
    if n <= 0 {
        Seq::empty()
    } else {
        let prev = snapshot_lines(sizes, n - 1);
        match size_at(sizes, n - 1) {
            Some(len) => prev.push(state_file_names()[n - 1] + ":"@ + decimal(len as nat)),
            None => prev,
        }
    }
}

/// The fingerprint of a state directory: `name:size` for each state file
/// present, in listing order. `sizes[i]` is the size of the `i`-th state
/// file when it is a regular file.
pub fn snapshot_state_files(sizes: &Vec<Option<u64>>) -> (out: Vec<String>)
    ensures
        sv(out@) == snapshot_lines(sizes@, STATE_FILE_COUNT as int),
{
    let mut out: Vec<String> = Vec::new();
    for i in 0..STATE_FILE_COUNT
        invariant
            sv(out@) == snapshot_lines(sizes@, i as int),
    {
        let size = if i < sizes.len() {
            sizes[i]
        } else {
            None
        };
        let ghost before = sv(out@);
        if let Some(len) = size {
            let mut line = chars_of(state_file_name(i));
            extend_str(&mut line, ":");
            push_decimal(&mut line, len);
            out.push(string_of(&line));
            assert(sv(out@) =~= before.push(line@));
        }
    }
    out
}

/// The plan stamp for `secs` seconds since the Unix epoch.
pub fn chrono_stamp(secs: u64) -> (out: String)
    ensures
        out@ == "unix:"@ + decimal(secs as nat),
{
    let mut m = chars_of("unix:");
    push_decimal(&mut m, secs);
    string_of(&m)
}

} // verus!
