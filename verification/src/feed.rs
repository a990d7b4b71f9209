//! What a pack import must leave behind: the estate file untouched and a
//! redaction report that counts what it redacted.

use vstd::prelude::*;
use crate::text::{chars_of, equals_vec, extend_str, string_of};

verus! {

/// The redaction report an import wrote, as read back.
#[derive(Clone, Debug, PartialEq, Eq)]
pub enum RedactionRead {
    /// No report file.
    Absent,
    /// The report's `redacted` and `raw_secrets_found` counts, when they are
    /// unsigned integers.
    Counts { redacted: Option<u64>, raw_secrets_found: Option<u64> },
}

/// The import's outcome: the refusal, or the two redaction counts.
pub open spec fn import_outcome(
    before: Seq<char>,
    after: Seq<char>,
    path: Seq<char>,
    r: RedactionRead,
) -> Result<(u64, u64), Seq<char>> {
    if before != after {
        Err("import must not rewrite the estate file"@)
    } else {
        match r {
            RedactionRead::Absent => Err("import wrote no redaction report at "@ + path),
            RedactionRead::Counts { redacted, raw_secrets_found } => match redacted {
                None => Err("redaction "@ + path + " missing redacted count"@),
                Some(n) => match raw_secrets_found {
                    None => Err("redaction "@ + path + " missing raw_secrets_found"@),
                    Some(k) => Ok((n, k)),
                },
            },
        }
    }
}

/// Checks an import after the fact: the estate text read before and after
/// must be the same, and the redaction report at `path` must exist and
/// count both redacted values and raw secrets found.
pub fn feed_import_check(before: &str, after: &str, path: &str, redaction: &RedactionRead) -> (r:
    Result<(u64, u64), String>)
    ensures
        match r {
            Ok(c) => import_outcome(before@, after@, path@, *redaction) == Ok::<
                (u64, u64),
                Seq<char>,
            >(c),
            Err(e) => import_outcome(before@, after@, path@, *redaction) == Err::<
                (u64, u64),
                Seq<char>,
            >(e@),
        },
{
    if !equals_vec(&chars_of(before), &chars_of(after)) {
        return Err(string_of(&chars_of("import must not rewrite the estate file")));
    }
    match redaction {
        RedactionRead::Absent => {
            let mut m = chars_of("import wrote no redaction report at ");
            extend_str(&mut m, path);
            Err(string_of(&m))
        },
        RedactionRead::Counts { redacted, raw_secrets_found } => match redacted {
            None => {
                let mut m = chars_of("redaction ");
                extend_str(&mut m, path);
                extend_str(&mut m, " missing redacted count");
                Err(string_of(&m))
            },
            Some(n) => match raw_secrets_found {
                None => {
                    let mut m = chars_of("redaction ");
                    extend_str(&mut m, path);
                    extend_str(&mut m, " missing raw_secrets_found");
                    Err(string_of(&m))
                },
                Some(k) => Ok((*n, *k)),
            },
        },
    }
}

} // verus!
