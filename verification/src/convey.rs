//! Refusals on `convey hop` and `convey call` before any lease stub, and
//! how each refusal is stamped in the feed audit.

use vstd::prelude::*;
use crate::text::{chars_of, extend_str, string_of};

verus! {

/// How a proxy refusal is stamped in the feed: its feed kind and object
/// class.
#[derive(Clone, Debug, PartialEq, Eq)]
pub struct ProxyStamp {
    pub feed_kind: String,
    pub object_class: String,
}

/// A resolved agent intention is `proxy.agent` / `agent`; hop coverage and
/// an unresolved capability stay `proxy.hop` / `proxy`.
pub fn proxy_stamp(agent_intention: bool) -> (r: ProxyStamp)
    ensures
        r.feed_kind@ == if agent_intention {
            "proxy.agent"@
        } else {
            "proxy.hop"@
        },
        r.object_class@ == if agent_intention {
            "agent"@
        } else {
            "proxy"@
        },
{
    if agent_intention {
        ProxyStamp {
            feed_kind: string_of(&chars_of("proxy.agent")),
            object_class: string_of(&chars_of("agent")),
        }
    } else {
        ProxyStamp {
            feed_kind: string_of(&chars_of("proxy.hop")),
            object_class: string_of(&chars_of("proxy")),
        }
    }
}

/// The note a proxy audit row carries.
pub fn proxy_note(hop_id: &str, capability: &str, line: &str) -> (out: String)
    ensures
        out@ == "hop="@ + hop_id@ + " capability="@ + capability@ + " "@ + line@,
{
    let mut m = chars_of("hop=");
    extend_str(&mut m, hop_id);
    extend_str(&mut m, " capability=");
    extend_str(&mut m, capability);
    extend_str(&mut m, " ");
    extend_str(&mut m, line);
    string_of(&m)
}

/// A convey refusal: the reason recorded in the feed and the text it fails
/// with.
#[derive(Clone, Debug, PartialEq, Eq)]
pub struct ConveyRefusal {
    pub audit_line: String,
    pub message: String,
}

pub open spec fn why_text(exists: bool) -> Seq<char> {
    if exists {
        "not a file"@
    } else {
        "missing"@
    }
}

/// Coverage is mandatory: an estate path that is not a file is refused,
/// never read as a grant. `exists` says whether something is at the path.
pub fn missing_estate_refusal(path: &str, exists: bool) -> (r: ConveyRefusal)
    ensures
        r.audit_line@ == "estate "@ + why_text(exists),
        r.message@ == "refuse:hop-coverage: estate "@ + why_text(exists) + ": "@ + path@
            + " (coverage is mandatory; not a grant)"@,
{
    let why = if exists { "not a file" } else { "missing" };
    let mut a = chars_of("estate ");
    extend_str(&mut a, why);
    let mut m = chars_of("refuse:hop-coverage: estate ");
    extend_str(&mut m, why);
    extend_str(&mut m, ": ");
    extend_str(&mut m, path);
    extend_str(&mut m, " (coverage is mandatory; not a grant)");
    ConveyRefusal { audit_line: string_of(&a), message: string_of(&m) }
}

/// A gate refusal on a hop: the audit keeps the line and its word; the
/// command fails with `refuse:hop-coverage`.
pub fn hop_coverage_refusal(line: &str, word: &str) -> (r: ConveyRefusal)
    ensures
        r.audit_line@ == line@ + " ("@ + word@ + ")"@,
        r.message@ == "refuse:hop-coverage: "@ + line@ + " ("@ + word@ + ")"@,
{
    let mut a = chars_of(line);
    extend_str(&mut a, " (");
    extend_str(&mut a, word);
    extend_str(&mut a, ")");
    let mut m = chars_of("refuse:hop-coverage: ");
    extend_str(&mut m, line);
    extend_str(&mut m, " (");
    extend_str(&mut m, word);
    extend_str(&mut m, ")");
    ConveyRefusal { audit_line: string_of(&a), message: string_of(&m) }
}

/// A named intention the estate does not allow.
pub fn intention_refusal(line: &str, word: &str) -> (out: String)
    ensures
        out@ == "refuse:intention: "@ + line@ + " ("@ + word@ + ")"@,
{
    let mut m = chars_of("refuse:intention: ");
    extend_str(&mut m, line);
    extend_str(&mut m, " (");
    extend_str(&mut m, word);
    extend_str(&mut m, ")");
    string_of(&m)
}

} // verus!
