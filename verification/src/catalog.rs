//! The fixed table of statuses, one per keyword.

use vstd::prelude::*;
use crate::text::spells;
use crate::text::to_chars;

verus! {

/// What one keyword announces: the text and icon shown in chat, and what
/// each service is asked to do.
#[derive(Clone, Copy, Debug, PartialEq, Eq)]
pub struct Status {
    pub keyword: &'static str,
    pub slack_text: &'static str,
    pub slack_emoji: &'static str,
    pub slack_dnd: bool,
    pub github_busy: bool,
    pub asana_dnd: bool,
}

/// How many statuses the table holds.
pub open spec fn table_len() -> int {
    9
}

/// The table's entry at `i`, in its fixed order.
pub open spec fn entry(i: int) -> Status {
    if i == 0 {
        Status {
            keyword: "lunch",
            slack_text: "Lunchin'",
            slack_emoji: ":fork_and_knife:",
            slack_dnd: true,
            github_busy: false,
            asana_dnd: false,
        }
    } else if i == 1 {
        Status {
            keyword: "zoom",
            slack_text: "In a meeting (Zoom)",
            slack_emoji: ":video_camera:",
            slack_dnd: false,
            github_busy: false,
            asana_dnd: false,
        }
    } else if i == 2 {
        Status {
            keyword: "tuple",
            slack_text: "Pairing (Tuple)",
            slack_emoji: ":couple:",
            slack_dnd: false,
            github_busy: false,
            asana_dnd: false,
        }
    } else if i == 3 {
        Status {
            keyword: "meet",
            slack_text: "In a meeting",
            slack_emoji: ":calendar:",
            slack_dnd: false,
            github_busy: false,
            asana_dnd: false,
        }
    } else if i == 4 {
        Status {
            keyword: "eod",
            slack_text: "Done for the day",
            slack_emoji: ":wave:",
            slack_dnd: true,
            github_busy: false,
            asana_dnd: true,
        }
    } else if i == 5 {
        Status {
            keyword: "vacation",
            slack_text: "Vacation",
            slack_emoji: ":desert_island:",
            slack_dnd: true,
            github_busy: true,
            asana_dnd: true,
        }
    } else if i == 6 {
        Status {
            keyword: "sick",
            slack_text: "Out sick",
            slack_emoji: ":face_with_thermometer:",
            slack_dnd: true,
            github_busy: false,
            asana_dnd: true,
        }
    } else if i == 7 {
        Status {
            keyword: "away",
            slack_text: "Out of office",
            slack_emoji: ":no_entry:",
            slack_dnd: true,
            github_busy: true,
            asana_dnd: true,
        }
    } else {
        Status {
            keyword: "back",
            slack_text: "Catching up",
            slack_emoji: ":inbox_tray:",
            slack_dnd: false,
            github_busy: false,
            asana_dnd: false,
        }
    }
}

/// The whole table.
pub open spec fn table() -> Seq<Status> {
    Seq::new(table_len() as nat, |i: int| entry(i))
}

/// The first entry at or after `from` whose keyword is exactly `keyword`.
pub open spec fn first_match(keyword: Seq<char>, from: int) -> Option<Status>
    decreases table_len() - from,
{
    if from < 0 || from >= table_len() {
        None
    } else if entry(from).keyword@ == keyword {
        Some(entry(from))
    } else {
        first_match(keyword, from + 1)
    }
}

/// The status that `keyword` names, if the table has it.
pub open spec fn status_of(keyword: Seq<char>) -> Option<Status> {
    first_match(keyword, 0)
}

/// The table, in its fixed order.
pub fn statuses() -> (out: Vec<Status>)
    ensures
        out@ == table(),
{
    let mut out: Vec<Status> = Vec::new();
    out.push(
        Status {
            keyword: "lunch",
            slack_text: "Lunchin'",
            slack_emoji: ":fork_and_knife:",
            slack_dnd: true,
            github_busy: false,
            asana_dnd: false,
        },
    );
    out.push(
        Status {
            keyword: "zoom",
            slack_text: "In a meeting (Zoom)",
            slack_emoji: ":video_camera:",
            slack_dnd: false,
            github_busy: false,
            asana_dnd: false,
        },
    );
    out.push(
        Status {
            keyword: "tuple",
            slack_text: "Pairing (Tuple)",
            slack_emoji: ":couple:",
            slack_dnd: false,
            github_busy: false,
            asana_dnd: false,
        },
    );
    out.push(
        Status {
            keyword: "meet",
            slack_text: "In a meeting",
            slack_emoji: ":calendar:",
            slack_dnd: false,
            github_busy: false,
            asana_dnd: false,
        },
    );
    out.push(
        Status {
            keyword: "eod",
            slack_text: "Done for the day",
            slack_emoji: ":wave:",
            slack_dnd: true,
            github_busy: false,
            asana_dnd: true,
        },
    );
    out.push(
        Status {
            keyword: "vacation",
            slack_text: "Vacation",
            slack_emoji: ":desert_island:",
            slack_dnd: true,
            github_busy: true,
            asana_dnd: true,
        },
    );
    out.push(
        Status {
            keyword: "sick",
            slack_text: "Out sick",
            slack_emoji: ":face_with_thermometer:",
            slack_dnd: true,
            github_busy: false,
            asana_dnd: true,
        },
    );
    out.push(
        Status {
            keyword: "away",
            slack_text: "Out of office",
            slack_emoji: ":no_entry:",
            slack_dnd: true,
            github_busy: true,
            asana_dnd: true,
        },
    );
    out.push(
        Status {
            keyword: "back",
            slack_text: "Catching up",
            slack_emoji: ":inbox_tray:",
            slack_dnd: false,
            github_busy: false,
            asana_dnd: false,
        },
    );
    assert(out@ =~= table());
    out
}

/// Looks `keyword` up in the table, by exact match.
pub fn find_status(keyword: &str) -> (out: Option<Status>)
    ensures
        out == status_of(keyword@),
{
    let all = statuses();
    let word = to_chars(keyword);
    let mut i: usize = 0;
    while i < all.len()
        invariant
            all@ == table(),
            word@ == keyword@,
            i <= all@.len(),
            status_of(keyword@) == first_match(keyword@, i as int),
        decreases all@.len() - i,
    {
        let candidate: Status = all[i];
        assert(candidate == entry(i as int));
        if spells(&word, candidate.keyword) {
            return Some(candidate);
        }
        i += 1;
    }
    None
}

/// No two entries of the table share a keyword.
pub proof fn lemma_keywords_unique(i: int, j: int)
    requires
        0 <= i < j < table_len(),
    ensures
        entry(i).keyword@ != entry(j).keyword@,
{
    reveal_strlit("lunch");
    reveal_strlit("zoom");
    reveal_strlit("tuple");
    reveal_strlit("meet");
    reveal_strlit("eod");
    reveal_strlit("vacation");
    reveal_strlit("sick");
    reveal_strlit("away");
    reveal_strlit("back");
    let a = entry(i).keyword@;
    let b = entry(j).keyword@;
    if a.len() == b.len() {
        assert(a[0] != b[0]);
    }
}

/// Looking up the keyword of any entry of the table finds that entry.
pub proof fn lemma_lookup_finds_entry(i: int)
    requires
        0 <= i < table_len(),
    ensures
        status_of(entry(i).keyword@) == Some(entry(i)),
{
    lemma_first_match_from(i, 0);
}

/// From any place at or before `i`, the first match for the keyword of
/// entry `i` is that entry.
proof fn lemma_first_match_from(i: int, from: int)
    requires
        0 <= from <= i < table_len(),
    ensures
        first_match(entry(i).keyword@, from) == Some(entry(i)),
    decreases i - from,
{
    if from < i {
        lemma_keywords_unique(from, i);
        lemma_first_match_from(i, from + 1);
    }
}

} // verus!
