//! Which operator help page a topic names, and its text.

use vstd::prelude::*;
use crate::help_pages::{
    APPLY_PAGE, BACKUP_PAGE, DAY90_MIXED_PAGE, ENRICH_HEAD, ENRICH_MATRIX_ANCHOR, FEED_LOOP_PAGE,
    FRONTIER_PAGE, INDEX_PAGE, MODELS_PAGE, NORTH_STAR_PAGE, PLAN_PAGE, RECONCILE_PAGE, STATUS_PAGE,
    ENRICH_TAIL_1, ENRICH_TAIL_2, ENRICH_TAIL_3, ENRICH_TAIL_4, ENRICH_TAIL_5, ENRICH_TAIL_6,
    ENRICH_TAIL_7, ENRICH_TAIL_8, ENRICH_TAIL_9, ENRICH_TAIL_10, ENRICH_TAIL_11, ENRICH_TAIL_12,
    ENRICH_TAIL_13, ENRICH_TAIL_14, ENRICH_TAIL_15, ENRICH_TAIL_16, ENRICH_TAIL_17, ENRICH_TAIL_18,
    ENRICH_TAIL_19, ENRICH_TAIL_20, ENRICH_TAIL_21,
};
use crate::text::{chars_of, extend_chars, extend_str, string_of, trim, trim_exec};

verus! {

/// The operator help pages.
#[derive(Clone, Copy, Debug, PartialEq, Eq)]
pub enum HelpPage {
    Index,
    Status,
    Plan,
    Apply,
    Reconcile,
    FeedLoop,
    Backup,
    Frontier,
    Day90Mixed,
    NorthStar,
    Enrich,
    Models,
}

/// The topics `estate help` names when it refuses an unknown one.
pub const HELP_TOPICS: &'static str = "status, plan, apply, reconcile, feed-loop, backup, frontier, day90-mixed, north-star, charter, enrich, models";

/// The page a trimmed, non-blank topic names, with its aliases.
pub open spec fn page_named(t: Seq<char>) -> Option<HelpPage> {
    if t == "status"@ {
        Some(HelpPage::Status)
    } else if t == "plan"@ {
        Some(HelpPage::Plan)
    } else if t == "apply"@ {
        Some(HelpPage::Apply)
    } else if t == "reconcile"@ {
        Some(HelpPage::Reconcile)
    } else if t == "feed-loop"@ || t == "feed"@ {
        Some(HelpPage::FeedLoop)
    } else if t == "backup"@ {
        Some(HelpPage::Backup)
    } else if t == "frontier"@ {
        Some(HelpPage::Frontier)
    } else if t == "day90-mixed"@ || t == "mixed"@ {
        Some(HelpPage::Day90Mixed)
    } else if t == "north-star"@ || t == "northstar"@ || t == "charter"@ {
        Some(HelpPage::NorthStar)
    } else if t == "enrich"@ || t == "train"@ {
        Some(HelpPage::Enrich)
    } else if t == "models"@ {
        Some(HelpPage::Models)
    } else {
        None
    }
}

/// The page for `topic`: the index for no topic or a blank one, the named
/// page, or the refusal for an unknown topic.
pub open spec fn help_for(topic: Option<Seq<char>>) -> Result<HelpPage, Seq<char>> {
    match topic {
        Some(t) if trim(t).len() > 0 => match page_named(trim(t)) {
            Some(p) => Ok(p),
            None => Err("refuse:help-topic: unknown '"@ + trim(t) + "'"@),
        },
        _ => Ok(HelpPage::Index),
    }
}

fn is(t: &Vec<char>, word: &str) -> (r: bool)
    ensures
        r == (t@ == word@),
{
    crate::text::equals_str(t, word)
}

/// The help page `estate help [topic]` prints.
pub fn help_page(topic: Option<&str>) -> (r: Result<HelpPage, String>)
    ensures
        match r {
            Ok(p) => help_for(match topic {
                Some(t) => Some(t@),
                None => None,
            }) == Ok::<HelpPage, Seq<char>>(p),
            Err(e) => help_for(match topic {
                Some(t) => Some(t@),
                None => None,
            }) == Err::<HelpPage, Seq<char>>(e@),
        },
{
    let t = match topic {
        Some(x) => trim_exec(&chars_of(x)),
        None => {
            return Ok(HelpPage::Index);
        },
    };
    if t.len() == 0 {
        return Ok(HelpPage::Index);
    }
    let page = if is(&t, "status") {
        Some(HelpPage::Status)
    } else if is(&t, "plan") {
        Some(HelpPage::Plan)
    } else if is(&t, "apply") {
        Some(HelpPage::Apply)
    } else if is(&t, "reconcile") {
        Some(HelpPage::Reconcile)
    } else if is(&t, "feed-loop") || is(&t, "feed") {
        Some(HelpPage::FeedLoop)
    } else if is(&t, "backup") {
        Some(HelpPage::Backup)
    } else if is(&t, "frontier") {
        Some(HelpPage::Frontier)
    } else if is(&t, "day90-mixed") || is(&t, "mixed") {
        Some(HelpPage::Day90Mixed)
    } else if is(&t, "north-star") || is(&t, "northstar") || is(&t, "charter") {
        Some(HelpPage::NorthStar)
    } else if is(&t, "enrich") || is(&t, "train") {
        Some(HelpPage::Enrich)
    } else if is(&t, "models") {
        Some(HelpPage::Models)
    } else {
        None
    };
    match page {
        Some(p) => Ok(p),
        None => {
            let mut m = chars_of("refuse:help-topic: unknown '");
            extend_chars(&mut m, &t);
            extend_str(&mut m, "'");
            Err(string_of(&m))
        },
    }
}

/// The enrich page after the embedded matrix.
pub open spec fn enrich_tail() -> Seq<char> {
    ENRICH_TAIL_1@ + ENRICH_TAIL_2@ + ENRICH_TAIL_3@ + ENRICH_TAIL_4@ + ENRICH_TAIL_5@
        + ENRICH_TAIL_6@ + ENRICH_TAIL_7@ + ENRICH_TAIL_8@ + ENRICH_TAIL_9@ + ENRICH_TAIL_10@
        + ENRICH_TAIL_11@ + ENRICH_TAIL_12@ + ENRICH_TAIL_13@ + ENRICH_TAIL_14@ + ENRICH_TAIL_15@
        + ENRICH_TAIL_16@ + ENRICH_TAIL_17@ + ENRICH_TAIL_18@ + ENRICH_TAIL_19@ + ENRICH_TAIL_20@
        + ENRICH_TAIL_21@
}

/// The text of a page. The enrich page holds the beachhead matrix after its
/// "prepare does not train" line.
pub open spec fn page_text(p: HelpPage, matrix: Seq<char>) -> Seq<char> {
    match p {
        HelpPage::Index => INDEX_PAGE@,
        HelpPage::Status => STATUS_PAGE@,
        HelpPage::Plan => PLAN_PAGE@,
        HelpPage::Apply => APPLY_PAGE@,
        HelpPage::Reconcile => RECONCILE_PAGE@,
        HelpPage::FeedLoop => FEED_LOOP_PAGE@,
        HelpPage::Backup => BACKUP_PAGE@,
        HelpPage::Frontier => FRONTIER_PAGE@,
        HelpPage::Day90Mixed => DAY90_MIXED_PAGE@,
        HelpPage::NorthStar => NORTH_STAR_PAGE@,
        HelpPage::Models => MODELS_PAGE@,
        HelpPage::Enrich => ENRICH_HEAD@ + ENRICH_MATRIX_ANCHOR@ + "\n"@ + matrix + "\n"@
            + enrich_tail(),
    }
}

/// The text `estate help` prints for `page`; `matrix` is the beachhead
/// matrix document the enrich page embeds.
pub fn help_text(page: HelpPage, matrix: &str) -> (out: String)
    ensures
        out@ == page_text(page, matrix@),
{
    let m = match page {
        HelpPage::Index => chars_of(INDEX_PAGE),
        HelpPage::Status => chars_of(STATUS_PAGE),
        HelpPage::Plan => chars_of(PLAN_PAGE),
        HelpPage::Apply => chars_of(APPLY_PAGE),
        HelpPage::Reconcile => chars_of(RECONCILE_PAGE),
        HelpPage::FeedLoop => chars_of(FEED_LOOP_PAGE),
        HelpPage::Backup => chars_of(BACKUP_PAGE),
        HelpPage::Frontier => chars_of(FRONTIER_PAGE),
        HelpPage::Day90Mixed => chars_of(DAY90_MIXED_PAGE),
        HelpPage::NorthStar => chars_of(NORTH_STAR_PAGE),
        HelpPage::Models => chars_of(MODELS_PAGE),
        HelpPage::Enrich => {
            let mut e = chars_of(ENRICH_HEAD);
            extend_str(&mut e, ENRICH_MATRIX_ANCHOR);
            extend_str(&mut e, "\n");
            extend_str(&mut e, matrix);
            extend_str(&mut e, "\n");
            extend_str(&mut e, ENRICH_TAIL_1);
            extend_str(&mut e, ENRICH_TAIL_2);
            extend_str(&mut e, ENRICH_TAIL_3);
            extend_str(&mut e, ENRICH_TAIL_4);
            extend_str(&mut e, ENRICH_TAIL_5);
            extend_str(&mut e, ENRICH_TAIL_6);
            extend_str(&mut e, ENRICH_TAIL_7);
            extend_str(&mut e, ENRICH_TAIL_8);
            extend_str(&mut e, ENRICH_TAIL_9);
            extend_str(&mut e, ENRICH_TAIL_10);
            extend_str(&mut e, ENRICH_TAIL_11);
            extend_str(&mut e, ENRICH_TAIL_12);
            extend_str(&mut e, ENRICH_TAIL_13);
            extend_str(&mut e, ENRICH_TAIL_14);
            extend_str(&mut e, ENRICH_TAIL_15);
            extend_str(&mut e, ENRICH_TAIL_16);
            extend_str(&mut e, ENRICH_TAIL_17);
            extend_str(&mut e, ENRICH_TAIL_18);
            extend_str(&mut e, ENRICH_TAIL_19);
            extend_str(&mut e, ENRICH_TAIL_20);
            extend_str(&mut e, ENRICH_TAIL_21);
            e
        },
    };
    string_of(&m)
}

} // verus!
