//! Warning history: an append-only store queried by user and time, the day
//! window of the `warnings` command, and the text of its reply.
use vstd::prelude::*;
use crate::moderation::mention_text;
use crate::text::{
    chars_of, decimal, find_token_end, parse_u64, push_decimal, push_str,
    skip_whitespace, skip_ws, string_of, token_end, u64_of,
};

verus! {

/// The window used when no valid day count is given.
pub const DEFAULT_DAYS: u64 = 30;

pub const SECONDS_PER_DAY: u64 = 86400;

/// How many of the most recent entries the history lists.
pub const LISTED_ENTRIES: usize = 5;

/// One warning: when it was issued, by whom, and why.
#[derive(Debug)]
pub struct WarningEntry {
    pub warned_at: u64,
    pub moderator_id: u64,
    pub reason: String,
}

pub type EntryView = (u64, u64, Seq<char>);

impl View for WarningEntry {
    type V = EntryView;

    open spec fn view(&self) -> EntryView {
        (self.warned_at, self.moderator_id, self.reason@)
    }
}

impl WarningEntry {
    pub fn duplicate(&self) -> (r: WarningEntry)
        ensures
            r@ == self@,
    {
        WarningEntry {
            warned_at: self.warned_at,
            moderator_id: self.moderator_id,
            reason: self.reason.clone(),
        }
    }
}

#[derive(Debug)]
struct StoredWarning {
    user_id: u64,
    entry: WarningEntry,
}

/// The warnings of every user, in the order they were added.
#[derive(Debug)]
pub struct WarningStore {
    records: Vec<StoredWarning>,
}

/// The entries of `user` at or after `since`, in stored order.
pub open spec fn entries_since(records: Seq<(u64, EntryView)>, user: u64, since: u64) -> Seq<
    EntryView,
>
    decreases records.len(),
{
    if records.len() == 0 {
        Seq::empty()
    } else {
        let rest = entries_since(records.drop_last(), user, since);
        let last = records.last();
        if last.0 == user && last.1.0 >= since {
            rest.push(last.1)
        } else {
            rest
        }
    }
}

impl View for WarningStore {
    type V = Seq<(u64, EntryView)>;

    closed spec fn view(&self) -> Seq<(u64, EntryView)> {
        self.records@.map_values(|r: StoredWarning| (r.user_id, r.entry@))
    }
}

impl WarningStore {
    pub fn new() -> (r: WarningStore)
        ensures
            r@ == Seq::<(u64, EntryView)>::empty(),
    {
        let r = WarningStore { records: Vec::new() };
        assert(r@ =~= Seq::<(u64, EntryView)>::empty());
        r
    }

    /// Records a warning of `user_id` after all earlier ones.
    pub fn add(&mut self, user_id: u64, entry: WarningEntry)
        ensures
            final(self)@ == old(self)@.push((user_id, entry@)),
    {
        let ghost e = entry@;
        self.records.push(StoredWarning { user_id, entry });
        assert(self@ =~= old(self)@.push((user_id, e)));
    }

    /// The warnings of `user_id` issued at or after `since`, oldest first.
    pub fn warnings_since(&self, user_id: u64, since: u64) -> (r: Vec<WarningEntry>)
        ensures
            r@.map_values(|e: WarningEntry| e@) == entries_since(self@, user_id, since),
    {
        let mut r: Vec<WarningEntry> = Vec::new();
        let mut i: usize = 0;
        while i < self.records.len()
            invariant
                i <= self.records@.len(),
                r@.map_values(|e: WarningEntry| e@) == entries_since(
                    self@.subrange(0, i as int),
                    user_id,
                    since,
                ),
            decreases self.records@.len() - i,
        {
            let rec = &self.records[i];
            let ghost before = r@;
            assert(self@.subrange(0, i + 1).drop_last() =~= self@.subrange(0, i as int));
            if rec.user_id == user_id && rec.entry.warned_at >= since {
                r.push(rec.entry.duplicate());
                assert(r@.map_values(|e: WarningEntry| e@) =~= before.map_values(
                    |e: WarningEntry| e@,
                ).push(rec.entry@));
            }
            i = i + 1;
        }
        assert(self@.subrange(0, i as int) =~= self@);
        r
    }
}

/// The day count that the first token of an argument tail gives; zero and
/// anything that is no number give none.
pub open spec fn days_of(tail: Option<Seq<char>>) -> Option<u64> {
    match tail {
        None => None,
        Some(t) => {
            let a = skip_ws(t, 0);
            if a >= t.len() {
                None
            } else {
                match u64_of(t.subrange(a, token_end(t, a))) {
                    Some(d) => if d == 0 {
                        None
                    } else {
                        Some(d)
                    },
                    None => None,
                }
            }
        },
    }
}

/// The window in days that an argument tail selects.
pub open spec fn window_of(tail: Option<Seq<char>>) -> u64 {
    match days_of(tail) {
        Some(d) => d,
        None => DEFAULT_DAYS,
    }
}

/// A day count of zero is refused, not read as an unbounded window: the
/// default window applies.
pub proof fn lemma_zero_days_uses_default(tail: Seq<char>)
    requires
        skip_ws(tail, 0) < tail.len(),
        u64_of(tail.subrange(skip_ws(tail, 0), token_end(tail, skip_ws(tail, 0)))) == Some(0u64),
    ensures
        window_of(Some(tail)) == DEFAULT_DAYS,
{
}

/// Reads a positive day count from the first token of the argument tail.
pub fn parse_days(arg_tail: Option<&str>) -> (r: Option<u64>)
    ensures
        r == days_of(match arg_tail {
            Some(t) => Some(t@),
            None => None,
        }),
{
    let raw = match arg_tail {
        Some(t) => t,
        None => {
            return None;
        },
    };
    let s = chars_of(raw);
    let a = skip_whitespace(&s, 0);
    if a >= s.len() {
        return None;
    }
    let e = find_token_end(&s, a);
    match parse_u64(&s, a, e) {
        Some(d) => if d == 0 {
            None
        } else {
            Some(d)
        },
        None => None,
    }
}

/// The window of the `warnings` command in days: the given count, or the
/// default where none is given or it is zero.
pub fn window_days(arg_tail: Option<&str>) -> (r: u64)
    ensures
        r == window_of(
            match arg_tail {
                Some(t) => Some(t@),
                None => None,
            },
        ),
        r > 0,
{
    match parse_days(arg_tail) {
        Some(d) => d,
        None => DEFAULT_DAYS,
    }
}

/// The earliest time inside a window of `days` days that ends at `now`;
/// the arithmetic saturates at both ends.
pub fn window_start(now: u64, days: u64) -> (r: u64)
    ensures
        r as int == if days * SECONDS_PER_DAY > u64::MAX || days * SECONDS_PER_DAY > now {
            0
        } else {
            now - days * SECONDS_PER_DAY
        },
{
    let span: u64 = if days > u64::MAX / SECONDS_PER_DAY {
        u64::MAX
    } else {
        days * SECONDS_PER_DAY
    };
    if span > now {
        0
    } else {
        now - span
    }
}

/// `reason` with every `@` followed by a zero-width space, so that it mentions
/// nobody.
pub open spec fn sanitized(s: Seq<char>) -> Seq<char>
    decreases s.len(),
{
    if s.len() == 0 {
        Seq::empty()
    } else if s.last() == '@' {
        sanitized(s.drop_last()) + seq!['@', '\u{200B}']
    } else {
        sanitized(s.drop_last()).push(s.last())
    }
}

pub fn push_sanitized(out: &mut Vec<char>, reason: &str)
    ensures
        final(out)@ == old(out)@ + sanitized(reason@),
{
    let s = chars_of(reason);
    let mut i: usize = 0;
    while i < s.len()
        invariant
            s@ == reason@,
            i <= s@.len(),
            out@ == old(out)@ + sanitized(s@.subrange(0, i as int)),
        decreases s@.len() - i,
    {
        assert(s@.subrange(0, i + 1).drop_last() =~= s@.subrange(0, i as int));
        if s[i] == '@' {
            out.push('@');
            out.push('\u{200B}');
        } else {
            out.push(s[i]);
        }
        i = i + 1;
        assert(out@ =~= old(out)@ + sanitized(s@.subrange(0, i as int)));
    }
    assert(s@.subrange(0, i as int) =~= s@);
}

/// Makes a reason safe to echo: every `@` is followed by a zero-width space.
pub fn sanitize_reason(reason: &str) -> (r: String)
    ensures
        r@ == sanitized(reason@),
{
    let mut v: Vec<char> = Vec::new();
    push_sanitized(&mut v, reason);
    assert(v@ =~= sanitized(reason@));
    string_of(&v)
}

/// The line that lists entry `e` at position `i` (counted from zero).
pub open spec fn entry_line(i: nat, e: EntryView) -> Seq<char> {
    "#"@ + decimal(i + 1) + " • <t:"@ + decimal(e.0 as nat) + ":F> • by "@ + mention_text(e.1)
        + "\nReason: "@ + sanitized(e.2) + "\n\n"@
}

/// The lines of entries `start` up to `end`.
pub open spec fn entry_lines(entries: Seq<EntryView>, start: int, end: int) -> Seq<char>
    decreases end - start,
{
    if end <= start {
        Seq::empty()
    } else {
        entry_lines(entries, start, end - 1) + entry_line((end - 1) as nat, entries[end - 1])
    }
}

/// The history text: a header with the window and the total, then the most
/// recent entries, at most five of them.
pub open spec fn history_text(days: u64, entries: Seq<EntryView>) -> Seq<char> {
    let header = "Total warnings in last "@ + decimal(days as nat) + " day(s): **"@ + decimal(
        entries.len(),
    ) + "**\n\n"@;
    if entries.len() == 0 {
        header + "No warnings in this period."@
    } else {
        let start = if entries.len() > LISTED_ENTRIES {
            entries.len() - LISTED_ENTRIES
        } else {
            0
        };
        header + entry_lines(entries, start, entries.len() as int)
    }
}

fn push_entry_line(out: &mut Vec<char>, i: usize, e: &WarningEntry)
    requires
        i < usize::MAX,
    ensures
        final(out)@ == old(out)@ + entry_line(i as nat, e@),
{
    push_str(out, "#");
    push_decimal(out, (i + 1) as u64);
    push_str(out, " • <t:");
    push_decimal(out, e.warned_at);
    push_str(out, ":F> • by ");
    push_str(out, "<@");
    push_decimal(out, e.moderator_id);
    push_str(out, ">");
    push_str(out, "\nReason: ");
    push_sanitized(out, e.reason.as_str());
    push_str(out, "\n\n");
    assert(final(out)@ =~= old(out)@ + entry_line(i as nat, e@));
}

/// Renders the history of the `warnings` command for a window of `days` days.
pub fn warnings_description(days: u64, entries: &Vec<WarningEntry>) -> (r: String)
    ensures
        r@ == history_text(days, entries@.map_values(|e: WarningEntry| e@)),
{
    let ghost es = entries@.map_values(|e: WarningEntry| e@);
    let mut v: Vec<char> = Vec::new();
    push_str(&mut v, "Total warnings in last ");
    push_decimal(&mut v, days);
    push_str(&mut v, " day(s): **");
    push_decimal(&mut v, entries.len() as u64);
    push_str(&mut v, "**\n\n");
    let ghost header = v@;
    if entries.len() == 0 {
        push_str(&mut v, "No warnings in this period.");
    } else {
        let start: usize = if entries.len() > LISTED_ENTRIES {
            entries.len() - LISTED_ENTRIES
        } else {
            0
        };
        let mut i: usize = start;
        while i < entries.len()
            invariant
                start <= i <= entries@.len(),
                es == entries@.map_values(|e: WarningEntry| e@),
                v@ == header + entry_lines(es, start as int, i as int),
            decreases entries@.len() - i,
        {
            push_entry_line(&mut v, i, &entries[i]);
            i = i + 1;
            assert(v@ =~= header + entry_lines(es, start as int, i as int));
        }
    }
    assert(v@ =~= history_text(days, es));
    string_of(&v)
}

/// The title of the history of user `target`.
pub fn warnings_title(target: u64) -> (r: String)
    ensures
        r@ == "Warnings for User "@ + decimal(target as nat),
{
    let mut v: Vec<char> = Vec::new();
    push_str(&mut v, "Warnings for User ");
    push_decimal(&mut v, target);
    string_of(&v)
}

} // verus!
