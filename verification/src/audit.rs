//! The local audit export: what its manifest says and how the honesty
//! snapshot beside it is assembled. Nothing here uploads or writes.

use vstd::prelude::*;

use crate::text::{chars_of, decimal, extend_str, push_decimal, string_of};

verus! {

pub const AUDIT_HONESTY_FILE: &'static str = "honesty.md";

/// What the manifest reports of the export.
#[derive(Clone, Debug, PartialEq, Eq)]
pub struct AuditSummary {
    pub estate_name: String,
    pub estate_file: String,
    pub estate_hash: String,
    pub in_sync: bool,
    pub refuses: u64,
    /// The paths copied into the export, in copy order.
    pub copied: Vec<String>,
    /// The expected files that were not there.
    pub missing: Vec<String>,
}

/// `  <item>` per item, or `(none)`.
pub open spec fn item_block(items: Seq<String>) -> Seq<char> {
    if items.len() == 0 {
        "(none)\n"@
    } else {
        item_lines(items, items.len() as int)
    }
}

pub open spec fn item_lines(items: Seq<String>, n: int) -> Seq<char>
    decreases n,
{
    if n <= 0 {
        Seq::empty()
    } else {
        item_lines(items, n - 1) + "  "@ + items[n - 1]@ + "\n"@
    }
}

pub open spec fn bool_word(b: bool) -> Seq<char> {
    if b {
        "true"@
    } else {
        "false"@
    }
}

pub open spec fn manifest_text(a: AuditSummary) -> Seq<char> {
    "Cell One audit export (local only)\n"@ + "===================================\n"@
        + "Not a remote upload. Not a gateway dump. Review on this box.\n\n"@ + "estate: "@
        + a.estate_name@ + "\n"@ + "estate_file: "@ + a.estate_file@ + "\n"@ + "estate_hash: "@
        + a.estate_hash@ + "\n"@ + "reconcile_in_sync: "@ + bool_word(a.in_sync) + "\n"@
        + "refuses: "@ + decimal(a.refuses as nat) + "\n"@ + "honesty: "@ + AUDIT_HONESTY_FILE@
        + "\n\n"@ + "Copied\n------\n"@ + item_block(a.copied@)
        + "\nMissing (ok if never applied)\n----------------------------\n"@ + item_block(
        a.missing@,
    )
}

fn push_items(m: &mut Vec<char>, items: &Vec<String>)
    ensures
        final(m)@ == old(m)@ + item_block(items@),
{
    if items.len() == 0 {
        extend_str(m, "(none)\n");
        return;
    }
    let ghost start = m@;
    for i in 0..items.len()
        invariant
            m@ == start + item_lines(items@, i as int),
    {
        extend_str(m, "  ");
        extend_str(m, items[i].as_str());
        extend_str(m, "\n");
        assert(m@ =~= start + item_lines(items@, i + 1));
    }
}

/// `MANIFEST.md` of a local audit export.
pub fn render_audit_manifest(a: &AuditSummary) -> (out: String)
    ensures
        out@ == manifest_text(*a),
{
    let mut m = chars_of("Cell One audit export (local only)\n");
    extend_str(&mut m, "===================================\n");
    extend_str(&mut m, "Not a remote upload. Not a gateway dump. Review on this box.\n\n");
    extend_str(&mut m, "estate: ");
    extend_str(&mut m, a.estate_name.as_str());
    extend_str(&mut m, "\n");
    extend_str(&mut m, "estate_file: ");
    extend_str(&mut m, a.estate_file.as_str());
    extend_str(&mut m, "\n");
    extend_str(&mut m, "estate_hash: ");
    extend_str(&mut m, a.estate_hash.as_str());
    extend_str(&mut m, "\n");
    extend_str(&mut m, "reconcile_in_sync: ");
    extend_str(&mut m, if a.in_sync { "true" } else { "false" });
    extend_str(&mut m, "\n");
    extend_str(&mut m, "refuses: ");
    push_decimal(&mut m, a.refuses);
    extend_str(&mut m, "\n");
    extend_str(&mut m, "honesty: ");
    extend_str(&mut m, AUDIT_HONESTY_FILE);
    extend_str(&mut m, "\n\n");
    extend_str(&mut m, "Copied\n------\n");
    push_items(&mut m, &a.copied);
    extend_str(&mut m, "\nMissing (ok if never applied)\n----------------------------\n");
    push_items(&mut m, &a.missing);
    let out = string_of(&m);
    assert(out@ =~= manifest_text(*a));
    out
}

/// The honesty snapshot: the Agents section, the hop-coverage cites, then
/// the Authority section when it could be read.
pub fn honesty_text(agents: &str, cites: &str, authority: Option<&str>) -> (out: String)
    ensures
        out@ == agents@ + "\n"@ + cites@ + match authority {
            Some(a) => a@ + "\n"@,
            None => Seq::empty(),
        },
{
    let mut m = chars_of(agents);
    extend_str(&mut m, "\n");
    extend_str(&mut m, cites);
    if let Some(a) = authority {
        extend_str(&mut m, a);
        extend_str(&mut m, "\n");
    }
    let out = string_of(&m);
    assert(out@ =~= agents@ + "\n"@ + cites@ + match authority {
        Some(a) => a@ + "\n"@,
        None => Seq::empty(),
    });
    out
}

} // verus!
