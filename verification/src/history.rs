use vstd::prelude::*;
use vstd::string::*;
use crate::settings::{AppSettings, clamp, get_history_retention_days, get_history_max_items};
use crate::text::{join_path, join_seq};

verus! {

broadcast use vstd::seq_lib::group_filter_ensures, vstd::seq_lib::group_seq_properties;

/// Whether a history entry records a sent or a received transfer.
#[derive(Clone, Copy, Debug, PartialEq, Eq, Structural)]
pub enum HistoryDirection {
    Send,
    Receive,
}

/// One finished transfer as the history keeps it.
#[derive(Clone, Debug)]
pub struct HistoryEntry {
    /// Seconds since the Unix epoch at which the entry was recorded.
    pub created_at: u64,
    pub direction: HistoryDirection,
    pub title: String,
    pub subtitle: String,
    /// File or folder that the entry opens, if any.
    pub open_target: Option<String>,
}

/// What to do with the history file once the list of entries is known.
#[derive(Clone, Copy, Debug, PartialEq, Eq, Structural)]
pub enum HistoryWrite {
    /// The list is empty: delete the file (a missing file is no error).
    RemoveFile,
    /// Write the whole list to the file.
    WriteAll,
}

impl HistoryEntry {
    /// A field-by-field copy.
    pub fn duplicate(&self) -> (r: HistoryEntry)
        ensures
            r == *self,
    {
        let open_target = match &self.open_target {
            Some(t) => Some(t.clone()),
            None => None,
        };
        HistoryEntry {
            created_at: self.created_at,
            direction: self.direction,
            title: self.title.clone(),
            subtitle: self.subtitle.clone(),
            open_target,
        }
    }
}

/// Seconds from `created_at` to `now`, zero when `created_at` is later.
pub open spec fn age(now: u64, created_at: u64) -> int {
    if now >= created_at {
        now - created_at
    } else {
        0
    }
}

/// Seconds that entries are kept under these settings.
pub open spec fn retention_secs(s: AppSettings) -> int {
    clamp(s.history_retention_days as int, 1, 365) * 86400
}

/// Most entries kept under these settings.
pub open spec fn max_items(s: AppSettings) -> int {
    clamp(s.history_max_items as int, 1, 500)
}

/// An entry is kept while it is no older than the retention period.
pub open spec fn is_retained(e: HistoryEntry, now: u64, secs: int) -> bool {
    age(now, e.created_at) <= secs
}

pub open spec fn retained_pred(now: u64, secs: int) -> spec_fn(HistoryEntry) -> bool {
    |e: HistoryEntry| is_retained(e, now, secs)
}

pub open spec fn direction_pred(d: HistoryDirection) -> spec_fn(HistoryEntry) -> bool {
    |e: HistoryEntry| e.direction == d
}

pub open spec fn other_direction_pred(d: HistoryDirection) -> spec_fn(HistoryEntry) -> bool {
    |e: HistoryEntry| e.direction != d
}

/// The entries still within the retention period, in order, cut to the
/// first `max` of them.
pub open spec fn pruned(entries: Seq<HistoryEntry>, now: u64, secs: int, max: int) -> Seq<
    HistoryEntry,
> {
    let kept = entries.filter(retained_pred(now, secs));
    if kept.len() <= max {
        kept
    } else {
        kept.take(max)
    }
}

/// `pruned` under the retention and size limits of the settings.
pub open spec fn pruned_for(entries: Seq<HistoryEntry>, now: u64, s: AppSettings) -> Seq<
    HistoryEntry,
> {
    pruned(entries, now, retention_secs(s), max_items(s))
}

/// Two optional strings with the same characters.
pub open spec fn same_opt_text(a: Option<String>, b: Option<String>) -> bool {
    match (a, b) {
        (Some(x), Some(y)) => x@ == y@,
        (None, None) => true,
        _ => false,
    }
}

/// Two entries record the same transfer: every field agrees.
pub open spec fn entries_match(a: HistoryEntry, b: HistoryEntry) -> bool {
    &&& a.created_at == b.created_at
    &&& a.direction == b.direction
    &&& a.title@ == b.title@
    &&& a.subtitle@ == b.subtitle@
    &&& same_opt_text(a.open_target, b.open_target)
}

/// `entries` with its first entry that matches `target` taken out, or
/// unchanged when none matches.
pub open spec fn removed_first_match(
    entries: Seq<HistoryEntry>,
    target: HistoryEntry,
    r: Seq<HistoryEntry>,
) -> bool {
    ||| exists|i: int|
        #![trigger entries[i]]
        0 <= i < entries.len() && entries_match(entries[i], target) && (forall|j: int|
            0 <= j < i ==> !entries_match(#[trigger] entries[j], target)) && r == entries.remove(
            i,
        )
    ||| (forall|j: int| 0 <= j < entries.len() ==> !entries_match(#[trigger] entries[j], target))
        && r == entries
}

/// Filtering a sequence whose elements all pass leaves it unchanged.
pub proof fn lemma_filter_all_pass<A>(s: Seq<A>, p: spec_fn(A) -> bool)
    requires
        forall|i: int| 0 <= i < s.len() ==> p(#[trigger] s[i]),
    ensures
        s.filter(p) == s,
    decreases s.len(),
{
    reveal(Seq::filter);
    if s.len() > 0 {
        lemma_filter_all_pass(s.drop_last(), p);
        assert(s.drop_last().push(s.last()) =~= s);
    }
}

/// Filtering a sequence whose elements all fail leaves nothing.
pub proof fn lemma_filter_none_pass<A>(s: Seq<A>, p: spec_fn(A) -> bool)
    requires
        forall|i: int| 0 <= i < s.len() ==> !p(#[trigger] s[i]),
    ensures
        s.filter(p).len() == 0,
    decreases s.len(),
{
    reveal(Seq::filter);
    if s.len() > 0 {
        lemma_filter_none_pass(s.drop_last(), p);
    }
}

/// Every element of a filtered sequence is an element of the sequence it came from.
pub proof fn lemma_filter_elements<A>(s: Seq<A>, p: spec_fn(A) -> bool, i: int)
    requires
        0 <= i < s.filter(p).len(),
    ensures
        s.contains(s.filter(p)[i]),
{
    s.lemma_filter_contains_rev(p, s.filter(p)[i]);
}

/// Every element of a pruned list passes the retention test and is an
/// element of the list it came from.
pub proof fn lemma_pruned_elements(entries: Seq<HistoryEntry>, now: u64, secs: int, max: int, i: int)
    requires
        0 <= max,
        0 <= i < pruned(entries, now, secs, max).len(),
    ensures
        is_retained(pruned(entries, now, secs, max)[i], now, secs),
        entries.contains(pruned(entries, now, secs, max)[i]),
{
    let kept = entries.filter(retained_pred(now, secs));
    assert(pruned(entries, now, secs, max)[i] == kept[i]);
    lemma_filter_elements(entries, retained_pred(now, secs), i);
}

/// A list whose entries are all kept and that is within the limit is left
/// as it is by pruning.
pub proof fn lemma_pruned_fixed(entries: Seq<HistoryEntry>, now: u64, secs: int, max: int)
    requires
        entries.len() <= max,
        forall|i: int| 0 <= i < entries.len() ==> is_retained(#[trigger] entries[i], now, secs),
    ensures
        pruned(entries, now, secs, max) == entries,
{
    lemma_filter_all_pass(entries, retained_pred(now, secs));
}

/// Pruning twice at the same time gives the same list as pruning once.
pub proof fn law_prune_idempotent(entries: Seq<HistoryEntry>, now: u64, s: AppSettings)
    ensures
        pruned_for(pruned_for(entries, now, s), now, s) == pruned_for(entries, now, s),
{
    let secs = retention_secs(s);
    let max = max_items(s);
    let once = pruned(entries, now, secs, max);
    assert forall|i: int| 0 <= i < once.len() implies is_retained(#[trigger] once[i], now, secs) by {
        lemma_pruned_elements(entries, now, secs, max, i);
    }
    lemma_pruned_fixed(once, now, secs, max);
}

/// The list stored by `append`: the stamped entry before the pruned
/// stored entries, pruned again.
pub open spec fn appended(entries: Seq<HistoryEntry>, entry: HistoryEntry, now: u64, s: AppSettings) -> Seq<
    HistoryEntry,
> {
    pruned_for(seq![HistoryEntry { created_at: now, ..entry }] + pruned_for(entries, now, s), now, s)
}

/// A recorded transfer is never dropped on the way in: it is the first
/// entry of the stored list.
pub proof fn law_appended_entry_is_first(entries: Seq<HistoryEntry>, entry: HistoryEntry, now: u64, s: AppSettings)
    ensures
        appended(entries, entry, now, s).len() >= 1,
        appended(entries, entry, now, s)[0] == (HistoryEntry { created_at: now, ..entry }),
{
    let stamped = HistoryEntry { created_at: now, ..entry };
    let secs = retention_secs(s);
    let p = retained_pred(now, secs);
    let rest = pruned_for(entries, now, s);
    let single = seq![stamped];
    Seq::filter_distributes_over_add(single, rest, p);
    lemma_filter_all_pass(single, p);
    let kept = (single + rest).filter(p);
    assert(kept[0] == stamped);
}

/// What is recorded shows first when the history of its direction is
/// loaded at the same time.
pub proof fn law_append_then_load_shows_entry_first(
    entries: Seq<HistoryEntry>,
    entry: HistoryEntry,
    now: u64,
    s: AppSettings,
)
    ensures
        pruned_for(appended(entries, entry, now, s), now, s).filter(direction_pred(entry.direction)).len() >= 1,
        pruned_for(appended(entries, entry, now, s), now, s).filter(direction_pred(entry.direction))[0]
            == (HistoryEntry { created_at: now, ..entry }),
{
    let stamped = HistoryEntry { created_at: now, ..entry };
    let stored = appended(entries, entry, now, s);
    law_appended_entry_is_first(entries, entry, now, s);
    law_prune_idempotent(seq![stamped] + pruned_for(entries, now, s), now, s);
    let d = direction_pred(entry.direction);
    assert(stored =~= seq![stamped] + stored.drop_first());
    Seq::filter_distributes_over_add(seq![stamped], stored.drop_first(), d);
    lemma_filter_all_pass(seq![stamped], d);
}

/// Once a direction is cleared, loading its history finds nothing.
pub proof fn law_cleared_direction_loads_empty(
    entries: Seq<HistoryEntry>,
    d: HistoryDirection,
    now: u64,
    s: AppSettings,
)
    ensures
        pruned_for(entries.filter(other_direction_pred(d)), now, s).filter(direction_pred(d)).len()
            == 0,
{
    let rest = entries.filter(other_direction_pred(d));
    let secs = retention_secs(s);
    let max = max_items(s);
    let z = pruned(rest, now, secs, max);
    assert forall|i: int| 0 <= i < z.len() implies !(#[trigger] direction_pred(d)(z[i])) by {
        lemma_pruned_elements(rest, now, secs, max, i);
        let k = choose|k: int| 0 <= k < rest.len() && rest[k] == z[i];
        assert(other_direction_pred(d)(rest[k]));
    }
    lemma_filter_none_pass(z, direction_pred(d));
}

/// An entry is the same transfer as itself.
pub proof fn law_entry_matches_itself(e: HistoryEntry)
    ensures
        entries_match(e, e),
{
}

/// Removing the entry just recorded takes out the first stored entry and
/// keeps the rest in order.
pub proof fn law_remove_undoes_append(
    entries: Seq<HistoryEntry>,
    entry: HistoryEntry,
    now: u64,
    s: AppSettings,
    r: Seq<HistoryEntry>,
)
    requires
        removed_first_match(appended(entries, entry, now, s), HistoryEntry { created_at: now, ..entry }, r),
    ensures
        r == appended(entries, entry, now, s).drop_first(),
{
    let stamped = HistoryEntry { created_at: now, ..entry };
    let stored = appended(entries, entry, now, s);
    law_appended_entry_is_first(entries, entry, now, s);
    assert(entries_match(stored[0], stamped));
    if exists|i: int|
        #![trigger stored[i]]
        0 <= i < stored.len() && entries_match(stored[i], stamped) && (forall|j: int|
            0 <= j < i ==> !entries_match(#[trigger] stored[j], stamped)) && r == stored.remove(i) {
        let i = choose|i: int|
            #![trigger stored[i]]
            0 <= i < stored.len() && entries_match(stored[i], stamped) && (forall|j: int|
                0 <= j < i ==> !entries_match(#[trigger] stored[j], stamped)) && r == stored.remove(i);
        if i > 0 {
            assert(!entries_match(stored[0], stamped));
        }
        assert(stored.remove(0) =~= stored.drop_first());
    } else {
        assert(!entries_match(stored[0], stamped));
    }
}

/// Seconds from `created_at` to `now`; an entry stamped later than `now`
/// counts as just made.
pub open spec fn elapsed_secs(now: u64, created_at: u64) -> int {
    if created_at <= now {
        now - created_at
    } else {
        0
    }
}

/// Days that the settings keep history: the stored value, at least one and
/// at most 365.
pub open spec fn setting_days(s: AppSettings) -> int {
    let d = s.history_retention_days as int;
    if d < 1 {
        1
    } else if d > 365 {
        365
    } else {
        d
    }
}

/// Entries that the settings allow: the stored value, at least one and at
/// most 500.
pub open spec fn setting_limit(s: AppSettings) -> int {
    let m = s.history_max_items as int;
    if m < 1 {
        1
    } else if m > 500 {
        500
    } else {
        m
    }
}

/// Pruning keeps a list untouched when every entry is at most as many days
/// old as the settings keep history and the list is within the entry limit
/// of the settings.
pub proof fn law_prune_keeps_recent_entries(entries: Seq<HistoryEntry>, now: u64, s: AppSettings)
    requires
        entries.len() <= setting_limit(s),
        forall|i: int| 0 <= i < entries.len() ==> elapsed_secs(now, #[trigger] entries[i].created_at) <= setting_days(s) * 86400,
    ensures
        pruned_for(entries, now, s) == entries,
{
    assert forall|i: int| 0 <= i < entries.len() implies is_retained(#[trigger] entries[i], now, retention_secs(s)) by {
        assert(elapsed_secs(now, entries[i].created_at) <= setting_days(s) * 86400);
    }
    lemma_pruned_fixed(entries, now, retention_secs(s), max_items(s));
}

/// Pruning drops every entry older than the days the settings keep
/// history: each kept entry is at most that old and comes from the list.
pub proof fn law_prune_drops_old_entries(entries: Seq<HistoryEntry>, now: u64, s: AppSettings)
    ensures
        forall|i: int|
            0 <= i < pruned_for(entries, now, s).len() ==> elapsed_secs(now, #[trigger] pruned_for(entries, now, s)[i].created_at)
                <= setting_days(s) * 86400 && entries.contains(pruned_for(entries, now, s)[i]),
{
    assert forall|i: int| 0 <= i < pruned_for(entries, now, s).len() implies elapsed_secs(
        now,
        #[trigger] pruned_for(entries, now, s)[i].created_at,
    ) <= setting_days(s) * 86400 && entries.contains(pruned_for(entries, now, s)[i]) by {
        lemma_pruned_elements(entries, now, retention_secs(s), max_items(s), i);
    }
}

/// Pruning keeps the recent entries up to the limit of the settings: of
/// the entries at most as many days old as the settings keep history, all
/// stay when there are no more than the limit, and exactly the limit
/// otherwise, the newest first as they were stored.
pub proof fn law_prune_count(entries: Seq<HistoryEntry>, now: u64, s: AppSettings)
    ensures
        ({
            let recent = entries.filter(|e: HistoryEntry| elapsed_secs(now, e.created_at) <= setting_days(s) * 86400);
            &&& recent.len() <= setting_limit(s) ==> pruned_for(entries, now, s) == recent
            &&& recent.len() > setting_limit(s) ==> pruned_for(entries, now, s) == recent.take(setting_limit(s))
        }),
{
    let recent = entries.filter(|e: HistoryEntry| elapsed_secs(now, e.created_at) <= setting_days(s) * 86400);
    assert(retained_pred(now, retention_secs(s)) =~= (|e: HistoryEntry| elapsed_secs(now, e.created_at) <= setting_days(s)
        * 86400));
}

/// The kept entries, in order, and no more than the limit allows.
pub fn prune_entries(entries: Vec<HistoryEntry>, now: u64, s: &AppSettings) -> (r: Vec<HistoryEntry>)
    ensures
        r@ == pruned_for(entries@, now, *s),
        r@.len() <= max_items(*s),
{
    let retention: u64 = (get_history_retention_days(s) as u64) * 86400;
    let max: usize = get_history_max_items(s) as usize;
    let ghost p = retained_pred(now, retention_secs(*s));
    let n = entries.len();
    let mut out: Vec<HistoryEntry> = Vec::new();
    let mut i: usize = 0;
    while i < n && out.len() < max
        invariant
            n == entries@.len(),
            i <= n,
            retention == retention_secs(*s),
            max == max_items(*s),
            out.len() <= max,
            out@ == entries@.take(i as int).filter(p),
            p == retained_pred(now, retention_secs(*s)),
        decreases n - i,
    {
        let e = &entries[i];
        let age: u64 = if now >= e.created_at {
            now - e.created_at
        } else {
            0
        };
        proof {
            entries@.take(i as int).lemma_filter_push(entries@[i as int], p);
            assert(entries@.take(i as int).push(entries@[i as int]) =~= entries@.take(i + 1));
        }
        if age <= retention {
            out.push(e.duplicate());
        }
        i = i + 1;
    }
    proof {
        let kept = entries@.filter(p);
        assert(entries@ =~= entries@.take(i as int) + entries@.skip(i as int));
        Seq::filter_distributes_over_add(
            entries@.take(i as int),
            entries@.skip(i as int),
            p,
        );
        if i == n {
            assert(entries@.take(i as int) =~= entries@);
        } else {
            assert(kept.take(max as int) =~= out@);
            if kept.len() <= max {
                assert(kept =~= out@);
            }
        }
    }
    out
}

/// The history after pruning; the application writes it back to disk.
pub fn prune_and_load(entries: Vec<HistoryEntry>, now: u64, s: &AppSettings) -> (r: Vec<
    HistoryEntry,
>)
    ensures
        r@ == pruned_for(entries@, now, *s),
{
    prune_entries(entries, now, s)
}

/// The kept entries of one direction, newest first as stored.
pub fn filter_direction(entries: &Vec<HistoryEntry>, direction: HistoryDirection) -> (r: Vec<
    HistoryEntry,
>)
    ensures
        r@ == entries@.filter(direction_pred(direction)),
{
    let ghost p = direction_pred(direction);
    let n = entries.len();
    let mut out: Vec<HistoryEntry> = Vec::new();
    let mut i: usize = 0;
    while i < n
        invariant
            n == entries@.len(),
            i <= n,
            out@ == entries@.take(i as int).filter(p),
            p == direction_pred(direction),
        decreases n - i,
    {
        proof {
            entries@.take(i as int).lemma_filter_push(entries@[i as int], p);
            assert(entries@.take(i as int).push(entries@[i as int]) =~= entries@.take(i + 1));
        }
        if entries[i].direction == direction {
            out.push(entries[i].duplicate());
        }
        i = i + 1;
    }
    assert(entries@.take(n as int) =~= entries@);
    out
}

/// The history of one direction, after pruning the stored entries.
pub fn load(entries: Vec<HistoryEntry>, direction: HistoryDirection, now: u64, s: &AppSettings) -> (r:
    Vec<HistoryEntry>)
    ensures
        r@ == pruned_for(entries@, now, *s).filter(direction_pred(direction)),
{
    let kept = prune_and_load(entries, now, s);
    filter_direction(&kept, direction)
}

/// Whether two entries record the same transfer.
pub fn history_entry_matches(entry: &HistoryEntry, target: &HistoryEntry) -> (b: bool)
    ensures
        b == entries_match(*entry, *target),
{
    let same_target = match (&entry.open_target, &target.open_target) {
        (Some(a), Some(b)) => *a == *b,
        (None, None) => true,
        _ => false,
    };
    entry.created_at == target.created_at && entry.direction == target.direction && entry.title
        == target.title && entry.subtitle == target.subtitle && same_target
}

/// Records a finished transfer at time `now`: the stored entries are
/// pruned, the stamped entry goes first, and the list is pruned again.
/// Returns the list to store and the stamped entry.
pub fn append(entries: Vec<HistoryEntry>, entry: HistoryEntry, now: u64, s: &AppSettings) -> (r: (
    Vec<HistoryEntry>,
    HistoryEntry,
))
    ensures
        r.1 == (HistoryEntry { created_at: now, ..entry }),
        r.0@ == pruned_for(seq![r.1] + pruned_for(entries@, now, *s), now, *s),
{
    let mut entry = entry;
    entry.created_at = now;
    let mut list = prune_entries(entries, now, s);
    list.insert(0, entry.duplicate());
    assert(list@ =~= seq![entry] + pruned_for(entries@, now, *s));
    let list = prune_entries(list, now, s);
    (list, entry)
}

/// The stored entries with the first one that matches `target` taken out.
pub fn remove(entries: Vec<HistoryEntry>, target: &HistoryEntry) -> (r: Vec<HistoryEntry>)
    ensures
        removed_first_match(entries@, *target, r@),
{
    let n = entries.len();
    let mut i: usize = 0;
    while i < n
        invariant
            n == entries@.len(),
            i <= n,
            forall|j: int| 0 <= j < i ==> !entries_match(#[trigger] entries@[j], *target),
        decreases n - i,
    {
        if history_entry_matches(&entries[i], target) {
            let mut entries = entries;
            entries.remove(i);
            return entries;
        }
        i = i + 1;
    }
    entries
}

/// The stored entries without those of one direction.
pub fn clear_direction(entries: Vec<HistoryEntry>, direction: HistoryDirection) -> (r: Vec<
    HistoryEntry,
>)
    ensures
        r@ == entries@.filter(other_direction_pred(direction)),
{
    let ghost p = other_direction_pred(direction);
    let n = entries.len();
    let mut out: Vec<HistoryEntry> = Vec::new();
    let mut i: usize = 0;
    while i < n
        invariant
            n == entries@.len(),
            i <= n,
            out@ == entries@.take(i as int).filter(p),
            p == other_direction_pred(direction),
        decreases n - i,
    {
        proof {
            entries@.take(i as int).lemma_filter_push(entries@[i as int], p);
            assert(entries@.take(i as int).push(entries@[i as int]) =~= entries@.take(i + 1));
        }
        if entries[i].direction != direction {
            out.push(entries[i].duplicate());
        }
        i = i + 1;
    }
    assert(entries@.take(n as int) =~= entries@);
    out
}

/// An empty history removes the file; any other is written out.
pub fn write_or_remove_all(entries: &Vec<HistoryEntry>) -> (w: HistoryWrite)
    ensures
        w == (if entries@.len() == 0 {
            HistoryWrite::RemoveFile
        } else {
            HistoryWrite::WriteAll
        }),
{
    if entries.len() == 0 {
        HistoryWrite::RemoveFile
    } else {
        HistoryWrite::WriteAll
    }
}

/// Where the history file lives: under `$XDG_STATE_HOME` when it is set,
/// else under `$HOME/.local/state`, else under the temporary directory.
pub open spec fn history_path_of(state_home: Option<String>, home: Option<String>, temp_dir: Seq<char>) -> Seq<
    char,
> {
    let file = "transfer-history.json"@;
    let app = "gnome-quick-share"@;
    match state_home {
        Some(s) => join_seq(join_seq(s@, app), file),
        None => match home {
            Some(h) => join_seq(
                join_seq(join_seq(join_seq(h@, ".local"@), "state"@), app),
                file,
            ),
            None => join_seq(join_seq(temp_dir, app), file),
        },
    }
}

/// The path of the history file, given `$XDG_STATE_HOME`, `$HOME` and the
/// temporary directory.
pub fn history_path(state_home: Option<String>, home: Option<String>, temp_dir: &str) -> (p: String)
    ensures
        p@ == history_path_of(state_home, home, temp_dir@),
{
    proof {
        reveal_strlit("transfer-history.json");
        reveal_strlit("gnome-quick-share");
        reveal_strlit(".local");
        reveal_strlit("state");
    }
    match state_home {
        Some(s) => {
            let d = join_path(s.as_str(), "gnome-quick-share");
            join_path(d.as_str(), "transfer-history.json")
        },
        None => match home {
            Some(h) => {
                let d = join_path(h.as_str(), ".local");
                let d = join_path(d.as_str(), "state");
                let d = join_path(d.as_str(), "gnome-quick-share");
                join_path(d.as_str(), "transfer-history.json")
            },
            None => {
                let d = join_path(temp_dir, "gnome-quick-share");
                join_path(d.as_str(), "transfer-history.json")
            },
        },
    }
}

} // verus!
