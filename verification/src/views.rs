use vstd::prelude::*;
use vstd::string::*;
use crate::channel::{ChannelDirection, ChannelMessage};
use crate::endpoint::EndpointInfo;
use crate::history::HistoryEntry;
use crate::idlist::IdList;
use crate::settings::{AppSettings, clamp, get_history_retention_days};
use crate::text::{replaced, int_text, replace_all, int_to_string};
use crate::visibility::Visibility;

verus! {

/// What a view does with a transfer update.
#[derive(Clone, Copy, Debug, PartialEq, Eq, Structural)]
pub enum RowAction {
    /// The message is not for this view, or lacks state or metadata.
    Ignore,
    /// A new row is added for the transfer and shows the update.
    Create,
    /// The transfer's row shows the update.
    Update,
}

/// What the receive view does with a transfer update, given the transfers
/// it shows.
pub open spec fn receive_action(msg: ChannelMessage, shown: Seq<Seq<char>>) -> RowAction {
    if msg.direction != ChannelDirection::LibToFront || msg.state is None || msg.meta is None {
        RowAction::Ignore
    } else if shown.contains(msg.id@) {
        RowAction::Update
    } else {
        RowAction::Create
    }
}

/// What the send view does with a transfer update, given the transfers it
/// shows.
pub open spec fn send_action(msg: ChannelMessage, shown: Seq<Seq<char>>) -> RowAction {
    if msg.state is None || msg.meta is None {
        RowAction::Ignore
    } else if shown.contains(msg.id@) {
        RowAction::Update
    } else {
        RowAction::Create
    }
}

/// A view shows a row only for an update that carries both its state and
/// its metadata (and, for the receive view, comes from the engine): any
/// other update is ignored; a complete one updates the transfer's row when
/// it is shown and creates one otherwise.
pub proof fn law_rows_need_state_and_metadata(msg: ChannelMessage, shown: Seq<Seq<char>>)
    ensures
        msg.state is None || msg.meta is None ==> send_action(msg, shown) == RowAction::Ignore
            && receive_action(msg, shown) == RowAction::Ignore,
        msg.direction != ChannelDirection::LibToFront ==> receive_action(msg, shown) == RowAction::Ignore,
        msg.state is Some && msg.meta is Some ==> send_action(msg, shown) == (if shown.contains(msg.id@) {
            RowAction::Update
        } else {
            RowAction::Create
        }),
        msg.direction == ChannelDirection::LibToFront && msg.state is Some && msg.meta is Some ==> receive_action(
            msg,
            shown,
        ) == (if shown.contains(msg.id@) {
            RowAction::Update
        } else {
            RowAction::Create
        }),
{
}

/// What follows when the user dismisses a finished receive row.
#[derive(Clone, Copy, Debug, PartialEq, Eq, Structural)]
pub struct ReceiveRowCleared {
    /// The row was shown and is gone now.
    pub removed: bool,
    /// The transfer goes into the history.
    pub record_history: bool,
    /// No transfer row is left: the view goes back to its empty page.
    pub now_empty: bool,
}

/// The transfer rows of the receive view.
pub struct ReceiveTransfers {
    pub rows: IdList,
}

impl ReceiveTransfers {
    pub fn new() -> (t: ReceiveTransfers)
        ensures
            t.rows@.len() == 0,
            t.rows.wf(),
    {
        ReceiveTransfers { rows: IdList::new() }
    }

    /// Decides how the receive view shows a transfer update, and notes a
    /// new row.
    pub fn handle_channel_message(&mut self, msg: &ChannelMessage) -> (a: RowAction)
        requires
            old(self).rows.wf(),
        ensures
            final(self).rows.wf(),
            a == receive_action(*msg, old(self).rows@),
            a == RowAction::Create ==> final(self).rows@ == old(self).rows@.push(msg.id@),
            a != RowAction::Create ==> final(self).rows@ == old(self).rows@,
            msg.direction != ChannelDirection::LibToFront || msg.state is None || msg.meta is None ==> a
                == RowAction::Ignore && final(self).rows@ == old(self).rows@,
            msg.direction == ChannelDirection::LibToFront && msg.state is Some && msg.meta is Some ==> (if old(
                self,
            ).rows@.contains(msg.id@) {
                a == RowAction::Update
            } else {
                a == RowAction::Create
            }),
    {
        if msg.direction != ChannelDirection::LibToFront {
            return RowAction::Ignore;
        }
        if msg.state.is_none() || msg.meta.is_none() {
            return RowAction::Ignore;
        }
        if self.rows.contains(msg.id.as_str()) {
            RowAction::Update
        } else {
            self.rows.add(msg.id.clone());
            RowAction::Create
        }
    }

    /// The row of transfer `id` was dismissed. It is recorded in the history
    /// when it was shown and history is being saved.
    pub fn clear_row(&mut self, id: &str, s: &AppSettings) -> (r: ReceiveRowCleared)
        requires
            old(self).rows.wf(),
        ensures
            final(self).rows.wf(),
            !final(self).rows@.contains(id@),
            r.removed == old(self).rows@.contains(id@),
            r.record_history == (r.removed && s.save_transfer_history),
            r.now_empty == (final(self).rows@.len() == 0),
            r.removed ==> exists|i: int|
                0 <= i < old(self).rows@.len() && old(self).rows@[i] == id@ && final(self).rows@
                    == old(self).rows@.remove(i),
            !r.removed ==> final(self).rows@ == old(self).rows@,
    {
        let removed = self.rows.remove(id);
        let record_history = removed && crate::settings::get_save_transfer_history(s);
        ReceiveRowCleared { removed, record_history, now_empty: self.rows.len() == 0 }
    }
}

/// The transfer rows of the send view.
pub struct SendTransfers {
    pub rows: IdList,
}

impl SendTransfers {
    pub fn new() -> (t: SendTransfers)
        ensures
            t.rows@.len() == 0,
            t.rows.wf(),
    {
        SendTransfers { rows: IdList::new() }
    }

    /// Decides how the send view shows a transfer update, and notes a new
    /// row.
    pub fn handle_channel_message(&mut self, msg: &ChannelMessage) -> (a: RowAction)
        requires
            old(self).rows.wf(),
        ensures
            final(self).rows.wf(),
            a == send_action(*msg, old(self).rows@),
            a == RowAction::Create ==> final(self).rows@ == old(self).rows@.push(msg.id@),
            a != RowAction::Create ==> final(self).rows@ == old(self).rows@,
            msg.state is None || msg.meta is None ==> a == RowAction::Ignore && final(self).rows@ == old(
                self,
            ).rows@,
            msg.state is Some && msg.meta is Some ==> (if old(self).rows@.contains(msg.id@) {
                a == RowAction::Update
            } else {
                a == RowAction::Create
            }),
    {
        if msg.state.is_none() || msg.meta.is_none() {
            return RowAction::Ignore;
        }
        if self.rows.contains(msg.id.as_str()) {
            RowAction::Update
        } else {
            self.rows.add(msg.id.clone());
            RowAction::Create
        }
    }

    /// The row of transfer `id` was dismissed; returns whether the list
    /// stays visible (some row is left).
    pub fn clear_row(&mut self, id: &str) -> (list_visible: bool)
        requires
            old(self).rows.wf(),
        ensures
            final(self).rows.wf(),
            !final(self).rows@.contains(id@),
            list_visible == (final(self).rows@.len() > 0),
            old(self).rows@.contains(id@) ==> exists|i: int|
                0 <= i < old(self).rows@.len() && old(self).rows@[i] == id@ && final(self).rows@
                    == old(self).rows@.remove(i),
            !old(self).rows@.contains(id@) ==> final(self).rows@ == old(self).rows@,
    {
        self.rows.remove(id);
        self.rows.len() > 0
    }
}

/// What happens to the device tiles on an endpoint update.
#[derive(Clone, Copy, Debug, PartialEq, Eq, Structural)]
pub enum TileChange {
    Added,
    Removed,
    Unchanged,
}

/// Which page of the devices card is shown after an endpoint update.
#[derive(Clone, Copy, Debug, PartialEq, Eq, Structural)]
pub enum DevicesPage {
    /// Show the placeholder (no device is left).
    Placeholder,
    /// Show the device tiles.
    Tiles,
    /// Leave the page as it is.
    Keep,
}

/// The device tiles of the send view.
pub struct SendDevices {
    pub tiles: IdList,
}

impl SendDevices {
    pub fn new() -> (d: SendDevices)
        ensures
            d.tiles@.len() == 0,
            d.tiles.wf(),
    {
        SendDevices { tiles: IdList::new() }
    }

    /// A nearby device appeared or left. An endpoint counts as present
    /// unless it says otherwise; a present device gets a tile once, a
    /// leaving one loses its tile.
    pub fn update_endpoint(&mut self, info: &EndpointInfo) -> (r: (TileChange, DevicesPage))
        requires
            old(self).tiles.wf(),
        ensures
            final(self).tiles.wf(),
            info.present != Some(false) ==> final(self).tiles@.contains(info.id@),
            info.present == Some(false) ==> !final(self).tiles@.contains(info.id@),
            info.present == Some(false) ==> r == (if old(self).tiles@.contains(info.id@) {
                TileChange::Removed
            } else {
                TileChange::Unchanged
            }, if final(self).tiles@.len() == 0 {
                DevicesPage::Placeholder
            } else {
                DevicesPage::Keep
            }),
            info.present == Some(false) && old(self).tiles@.contains(info.id@) ==> exists|i: int|
                0 <= i < old(self).tiles@.len() && old(self).tiles@[i] == info.id@ && final(self).tiles@ == old(self).tiles@.remove(i),
            info.present == Some(false) && !old(self).tiles@.contains(info.id@) ==> final(self).tiles@ == old(self).tiles@,
            info.present != Some(false) && old(self).tiles@.contains(info.id@) ==> r == (
                TileChange::Unchanged,
                DevicesPage::Keep,
            ) && final(self).tiles@ == old(self).tiles@,
            info.present != Some(false) && !old(self).tiles@.contains(info.id@) ==> r == (
                TileChange::Added,
                DevicesPage::Tiles,
            ) && final(self).tiles@ == old(self).tiles@.push(info.id@),
    {
        let present = match info.present {
            Some(p) => p,
            None => true,
        };
        if !present {
            let removed = self.tiles.remove(info.id.as_str());
            let page = if self.tiles.len() == 0 {
                DevicesPage::Placeholder
            } else {
                DevicesPage::Keep
            };
            let change = if removed {
                TileChange::Removed
            } else {
                TileChange::Unchanged
            };
            return (change, page);
        }
        if self.tiles.contains(info.id.as_str()) {
            return (TileChange::Unchanged, DevicesPage::Keep);
        }
        self.tiles.add(info.id.clone());
        assert(self.tiles@.last() == info.id@);
        (TileChange::Added, DevicesPage::Tiles)
    }
}

/// Rows kept in the receive view's short history list.
pub const RECENT_HISTORY_ROWS: usize = 6;

/// The first rows of a list, as many as the short history list holds.
pub open spec fn capped(s: Seq<HistoryEntry>) -> Seq<HistoryEntry> {
    if s.len() > RECENT_HISTORY_ROWS {
        s.take(RECENT_HISTORY_ROWS as int)
    } else {
        s
    }
}

/// The receive view's short history list, newest first.
pub struct RecentHistory {
    pub rows: Vec<HistoryEntry>,
}

impl RecentHistory {
    pub fn new() -> (h: RecentHistory)
        ensures
            h.rows@.len() == 0,
    {
        RecentHistory { rows: Vec::new() }
    }

    /// Puts an entry on top and drops the rows beyond the limit.
    pub fn prepend(&mut self, entry: HistoryEntry)
        ensures
            final(self).rows@ == capped(seq![entry] + old(self).rows@),
    {
        self.rows.insert(0, entry);
        if self.rows.len() > RECENT_HISTORY_ROWS {
            self.rows.truncate(RECENT_HISTORY_ROWS);
        }
        assert(self.rows@ =~= capped(seq![entry] + old(self).rows@));
    }

    /// Takes out the row at `index` (its remove button was used); an index
    /// past the end changes nothing.
    pub fn remove_at(&mut self, index: usize) -> (removed: Option<HistoryEntry>)
        ensures
            removed is Some <==> index < old(self).rows@.len(),
            removed matches Some(e) ==> e == old(self).rows@[index as int] && final(self).rows@ == old(
                self,
            ).rows@.remove(index as int),
            removed is None ==> final(self).rows@ == old(self).rows@,
    {
        if index < self.rows.len() {
            Some(self.rows.remove(index))
        } else {
            None
        }
    }

    /// Empties the list ("Clear all", or the history cleared elsewhere).
    pub fn clear(&mut self)
        ensures
            final(self).rows@.len() == 0,
    {
        self.rows.clear();
    }

    /// Whether the list shows any entry.
    pub fn has_history(&self) -> (b: bool)
        ensures
            b == (self.rows@.len() > 0),
    {
        self.rows.len() > 0
    }

    /// The list as built from the stored history of the view: the entries
    /// are put on top from the oldest to the newest.
    pub fn load(entries: Vec<HistoryEntry>) -> (h: RecentHistory)
        ensures
            h.rows@ == capped(entries@),
    {
        let mut h = RecentHistory::new();
        let mut entries = entries;
        let ghost all = entries@;
        let mut i: usize = entries.len();
        assert(all.skip(i as int) =~= Seq::<HistoryEntry>::empty());
        while i > 0
            invariant
                i <= all.len(),
                entries@ == all.take(i as int),
                h.rows@ == capped(all.skip(i as int)),
            decreases i,
        {
            let e = entries.pop().unwrap();
            proof {
                assert(e == all[i - 1]);
                assert(entries@ =~= all.take(i - 1));
                assert(seq![all[i - 1]] + all.skip(i as int) =~= all.skip(i - 1));
                let rest = all.skip(i as int);
                if rest.len() > RECENT_HISTORY_ROWS {
                    assert(capped(seq![e] + capped(rest)) =~= capped(seq![e] + rest));
                }
            }
            h.prepend(e);
            i = i - 1;
        }
        assert(all.skip(0) =~= all);
        h
    }
}

/// The visibility that the receive view's indicator switches to: hidden
/// from visible, visible from anything else.
pub open spec fn next_visibility(v: Visibility) -> Visibility {
    match v {
        Visibility::Visible => Visibility::Invisible,
        Visibility::Invisible => Visibility::Visible,
        Visibility::Temporarily => Visibility::Visible,
    }
}

/// The visibility indicator was clicked: the next visibility is stored
/// and returned.
pub fn on_visibility_clicked(s: &mut AppSettings) -> (v: Visibility)
    ensures
        v == next_visibility(Visibility::of_raw(old(s).visibility as u64)),
        *final(s) == (AppSettings { visibility: v.raw() as i32, ..*old(s) }),
{
    let current = Visibility::from_raw_value(crate::settings::get_visibility_raw(s) as u64);
    let next = match current {
        Visibility::Visible => Visibility::Invisible,
        Visibility::Invisible => Visibility::Visible,
        Visibility::Temporarily => Visibility::Visible,
    };
    crate::settings::set_visibility_raw(s, next.as_raw());
    next
}

/// Two clicks on the indicator bring a visible or hidden device back to
/// where it was; temporary visibility becomes hidden.
pub proof fn law_indicator_two_clicks(v: Visibility)
    ensures
        next_visibility(Visibility::of_raw(next_visibility(v).raw() as i32 as u64)) == (
        if v == Visibility::Temporarily {
            Visibility::Invisible
        } else {
            v
        }),
{
}

/// How the receive view's indicator shows a visibility: the icon, the
/// style class, and the label to translate.
pub fn visibility_indicator(vis: Visibility) -> (r: (&'static str, &'static str, &'static str))
    ensures
        vis == Visibility::Visible ==> r.0@ == "eye-open-negative-filled-symbolic"@ && r.1@
            == "visibility-visible"@ && r.2@ == "Visible"@,
        vis == Visibility::Invisible ==> r.0@ == "eye-not-looking-symbolic"@ && r.1@
            == "visibility-hidden"@ && r.2@ == "Hidden"@,
        vis == Visibility::Temporarily ==> r.0@ == "eye-open-negative-filled-symbolic"@ && r.1@
            == "visibility-temporary"@ && r.2@ == "Temporarily visible"@,
{
    match vis {
        Visibility::Visible => ("eye-open-negative-filled-symbolic", "visibility-visible", "Visible"),
        Visibility::Invisible => ("eye-not-looking-symbolic", "visibility-hidden", "Hidden"),
        Visibility::Temporarily => (
            "eye-open-negative-filled-symbolic",
            "visibility-temporary",
            "Temporarily visible",
        ),
    }
}

/// Takes the selected file at `index` out of the list; an index past the
/// end changes nothing.
pub fn remove_selected_file(files: &mut Vec<String>, index: usize) -> (removed: bool)
    ensures
        removed == (index < old(files)@.len()),
        removed ==> final(files)@ == old(files)@.remove(index as int),
        !removed ==> final(files)@ == old(files)@,
{
    if index < files.len() {
        files.remove(index);
        true
    } else {
        false
    }
}

/// Index just after the last `/` in `p[..j]`, zero when there is none.
pub open spec fn segment_start(p: Seq<char>, j: int) -> int
    decreases j,
{
    if j <= 0 {
        0
    } else if p[j - 1] == '/' {
        j
    } else {
        segment_start(p, j - 1)
    }
}

/// A segment that does not end in `/` starts before its end.
pub proof fn lemma_segment_start_before(p: Seq<char>, j: int)
    requires
        0 < j <= p.len(),
        p[j - 1] != '/',
    ensures
        0 <= segment_start(p, j) < j,
{
    lemma_segment_start_le(p, j - 1);
    assert(segment_start(p, j) == segment_start(p, j - 1));
}

/// The start of the last segment of `p[..j]` lies within it.
pub proof fn lemma_segment_start_le(p: Seq<char>, j: int)
    requires
        0 <= j,
    ensures
        0 <= segment_start(p, j) <= j,
    decreases j,
{
    if j > 0 {
        lemma_segment_start_le(p, j - 1);
    }
}

/// The last component of a path as `Path::components` yields it on Unix:
/// trailing separators and `.` components are skipped; there is none for
/// an empty path, the root, or a path of `.` components.
pub open spec fn last_component(p: Seq<char>) -> Option<Seq<char>>
    decreases p.len(),
{
    if p.len() == 0 {
        None
    } else if p.last() == '/' {
        last_component(p.drop_last())
    } else {
        let start = segment_start(p, p.len() as int);
        let seg = p.subrange(start, p.len() as int);
        if seg == seq!['.'] {
            proof {
                lemma_segment_start_before(p, p.len() as int);
            }
            last_component(p.subrange(0, start))
        } else {
            Some(seg)
        }
    }
}

/// Index of the last `.` in `f[..j]`, `-1` when there is none.
pub open spec fn last_dot(f: Seq<char>, j: int) -> int
    decreases j,
{
    if j <= 0 {
        -1
    } else if f[j - 1] == '.' {
        j - 1
    } else {
        last_dot(f, j - 1)
    }
}

/// What `Path::file_name` gives for a path: its last component, unless
/// that is `..`.
pub open spec fn path_file_name(path: Seq<char>) -> Option<Seq<char>> {
    match last_component(path) {
        Some(f) => if f == seq!['.', '.'] {
            None
        } else {
            Some(f)
        },
        None => None,
    }
}

/// What `Path::extension` gives for a path: the file name after its last
/// dot, when that dot exists and is not the name's first character.
pub open spec fn path_extension(path: Seq<char>) -> Option<Seq<char>> {
    match path_file_name(path) {
        Some(f) => {
            let i = last_dot(f, f.len() as int);
            if i <= 0 {
                None
            } else {
                Some(f.subrange(i + 1, f.len() as int))
            }
        },
        None => None,
    }
}

/// `std::path::Path::extension` of a UTF-8 path, as a string: the text
/// after the last dot of the file name, as `path_extension` states it.
#[verifier::external_body]
fn extension_of(path: &str) -> (r: Option<String>)
    ensures
        r is None <==> path_extension(path@) is None,
        r matches Some(e) ==> path_extension(path@) == Some(e@),
{
    std::path::Path::new(path).extension().and_then(|e| e.to_str()).map(|e| e.to_string())
}

/// `std::path::Path::file_name` of a UTF-8 path, as a string: its last
/// component unless that is `..`, as `path_file_name` states it.
#[verifier::external_body]
fn file_name_of(path: &str) -> (r: Option<String>)
    ensures
        r is None <==> path_file_name(path@) is None,
        r matches Some(f) ==> path_file_name(path@) == Some(f@),
{
    std::path::Path::new(path).file_name().and_then(|f| f.to_str()).map(|f| f.to_string())
}

/// The name a selected file's tile shows: the file name of its path, or
/// the whole path when it has none.
pub fn selected_file_name(path: &str) -> (name: String)
    ensures
        name@ == (match path_file_name(path@) {
            Some(f) => f,
            None => path@,
        }),
{
    match file_name_of(path) {
        Some(f) => f,
        None => String::from_str(path),
    }
}

/// How many characters at the start of a path are never trimmed off: a
/// root `/`, or a leading `.` component.
pub open spec fn path_head_len(p: Seq<char>) -> int {
    if p.len() > 0 && p[0] == '/' {
        1
    } else if p.len() > 0 && p[0] == '.' && (p.len() == 1 || p[1] == '/') {
        1
    } else {
        0
    }
}

/// `p` without trailing separators and `.` components, never shorter than
/// the head `h`.
pub open spec fn trim_trailing(p: Seq<char>, h: int) -> Seq<char>
    decreases p.len(),
{
    if p.len() == 0 || p.len() <= h {
        p
    } else if p.last() == '/' {
        trim_trailing(p.drop_last(), h)
    } else {
        let start = segment_start(p, p.len() as int);
        if p.subrange(start, p.len() as int) == seq!['.'] {
            proof {
                lemma_segment_start_before(p, p.len() as int);
            }
            trim_trailing(p.subrange(0, start), h)
        } else {
            p
        }
    }
}

/// What `Path::parent` gives for a path on Unix: the path without its last
/// component and the separators and `.` components before it; none for an
/// empty path or the root alone, and the empty path for a lone `.`.
pub open spec fn path_parent(p: Seq<char>) -> Option<Seq<char>> {
    let h = path_head_len(p);
    let q = trim_trailing(p, h);
    if q.len() <= h {
        if h == 1 && p[0] == '.' {
            Some(Seq::empty())
        } else {
            None
        }
    } else {
        Some(trim_trailing(q.subrange(0, segment_start(q, q.len() as int)), h))
    }
}

/// `std::path::Path::parent` of a UTF-8 path, as a string, as
/// `path_parent` states it.
#[verifier::external_body]
fn parent_of(path: &str) -> (r: Option<String>)
    ensures
        r is None <==> path_parent(path@) is None,
        r matches Some(d) ==> path_parent(path@) == Some(d@),
{
    std::path::Path::new(path).parent().and_then(|d| d.to_str()).map(|d| d.to_string())
}

/// A character with ASCII capitals made small.
pub open spec fn ascii_lower(c: char) -> char {
    if 'A' <= c <= 'Z' {
        ((c as int) + 32) as char
    } else {
        c
    }
}

/// The characters of `s` with ASCII capitals made small, as
/// `str::to_ascii_lowercase` gives them.
pub fn ascii_lowercase_chars(s: &str) -> (r: Vec<char>)
    ensures
        r@ == s@.map_values(|c: char| ascii_lower(c)),
{
    let v = crate::text::chars_of(s);
    let mut r: Vec<char> = Vec::new();
    let mut i: usize = 0;
    while i < v.len()
        invariant
            v@ == s@,
            i <= v@.len(),
            r@ == s@.take(i as int).map_values(|c: char| ascii_lower(c)),
        decreases v@.len() - i,
    {
        let c = v[i];
        let lc = if 'A' <= c && c <= 'Z' {
            ((c as u8) + 32) as char
        } else {
            c
        };
        r.push(lc);
        assert(s@.take(i + 1).map_values(|c: char| ascii_lower(c)) =~= s@.take(i as int).map_values(
            |c: char| ascii_lower(c),
        ).push(ascii_lower(c)));
        i = i + 1;
    }
    assert(s@.take(v@.len() as int) =~= s@);
    r
}

/// Whether a character sequence spells `t`.
fn chars_eq(v: &Vec<char>, t: &str) -> (b: bool)
    ensures
        b == (v@ == t@),
{
    let n = t.unicode_len();
    if v.len() != n {
        return false;
    }
    let mut i: usize = 0;
    while i < n
        invariant
            n == t@.len(),
            n == v@.len(),
            i <= n,
            forall|k: int| 0 <= k < i ==> v@[k] == t@[k],
        decreases n - i,
    {
        if v[i] != t.get_char(i) {
            return false;
        }
        i = i + 1;
    }
    assert(v@ =~= t@);
    true
}

/// The icon class of a file by its extension, compared without regard to
/// ASCII case.
pub open spec fn icon_for_extension(ext: Option<Seq<char>>) -> Seq<char> {
    match ext {
        Some(e) => {
            let l = e.map_values(|c: char| ascii_lower(c));
            if l == "png"@ || l == "jpg"@ || l == "jpeg"@ || l == "webp"@ || l == "gif"@ || l
                == "svg"@ || l == "bmp"@ || l == "avif"@ {
                "image-x-generic-symbolic"@
            } else if l == "mp4"@ || l == "mkv"@ || l == "avi"@ || l == "mov"@ || l == "webm"@ || l
                == "m4v"@ {
                "video-x-generic-symbolic"@
            } else if l == "mp3"@ || l == "flac"@ || l == "wav"@ || l == "ogg"@ || l == "m4a"@ || l
                == "aac"@ {
                "audio-x-generic-symbolic"@
            } else if l == "pdf"@ {
                "application-pdf-symbolic"@
            } else if l == "zip"@ || l == "rar"@ || l == "7z"@ || l == "tar"@ || l == "gz"@ || l
                == "xz"@ {
                "package-x-generic-symbolic"@
            } else {
                "text-x-generic-symbolic"@
            }
        },
        None => "text-x-generic-symbolic"@,
    }
}

/// The icon of a file with this extension: images, videos, audio, PDF and
/// archives by extension compared without regard to ASCII case, a text
/// icon for anything else and for no extension.
pub fn extension_icon_name(ext: Option<&str>) -> (icon: &'static str)
    ensures
        icon@ == icon_for_extension(
            match ext {
                Some(e) => Some(e@),
                None => None,
            },
        ),
{
    match ext {
        None => "text-x-generic-symbolic",
        Some(e) => {
            let l = ascii_lowercase_chars(e);
            if chars_eq(&l, "png") || chars_eq(&l, "jpg") || chars_eq(&l, "jpeg") || chars_eq(
                &l,
                "webp",
            ) || chars_eq(&l, "gif") || chars_eq(&l, "svg") || chars_eq(&l, "bmp") || chars_eq(
                &l,
                "avif",
            ) {
                "image-x-generic-symbolic"
            } else if chars_eq(&l, "mp4") || chars_eq(&l, "mkv") || chars_eq(&l, "avi") || chars_eq(
                &l,
                "mov",
            ) || chars_eq(&l, "webm") || chars_eq(&l, "m4v") {
                "video-x-generic-symbolic"
            } else if chars_eq(&l, "mp3") || chars_eq(&l, "flac") || chars_eq(&l, "wav") || chars_eq(
                &l,
                "ogg",
            ) || chars_eq(&l, "m4a") || chars_eq(&l, "aac") {
                "audio-x-generic-symbolic"
            } else if chars_eq(&l, "pdf") {
                "application-pdf-symbolic"
            } else if chars_eq(&l, "zip") || chars_eq(&l, "rar") || chars_eq(&l, "7z") || chars_eq(
                &l,
                "tar",
            ) || chars_eq(&l, "gz") || chars_eq(&l, "xz") {
                "package-x-generic-symbolic"
            } else {
                "text-x-generic-symbolic"
            }
        },
    }
}

/// The extensions that pick an icon, spelled out.
proof fn lemma_extension_literals()
    ensures
        "png"@ == seq!['p', 'n', 'g'],
        "jpg"@ == seq!['j', 'p', 'g'],
        "jpeg"@ == seq!['j', 'p', 'e', 'g'],
        "webp"@ == seq!['w', 'e', 'b', 'p'],
        "gif"@ == seq!['g', 'i', 'f'],
        "svg"@ == seq!['s', 'v', 'g'],
        "bmp"@ == seq!['b', 'm', 'p'],
        "avif"@ == seq!['a', 'v', 'i', 'f'],
        "mp4"@ == seq!['m', 'p', '4'],
        "mkv"@ == seq!['m', 'k', 'v'],
        "avi"@ == seq!['a', 'v', 'i'],
        "mov"@ == seq!['m', 'o', 'v'],
        "webm"@ == seq!['w', 'e', 'b', 'm'],
        "m4v"@ == seq!['m', '4', 'v'],
        "mp3"@ == seq!['m', 'p', '3'],
        "flac"@ == seq!['f', 'l', 'a', 'c'],
        "wav"@ == seq!['w', 'a', 'v'],
        "ogg"@ == seq!['o', 'g', 'g'],
        "m4a"@ == seq!['m', '4', 'a'],
        "aac"@ == seq!['a', 'a', 'c'],
        "pdf"@ == seq!['p', 'd', 'f'],
        "zip"@ == seq!['z', 'i', 'p'],
        "rar"@ == seq!['r', 'a', 'r'],
        "7z"@ == seq!['7', 'z'],
        "tar"@ == seq!['t', 'a', 'r'],
        "gz"@ == seq!['g', 'z'],
        "xz"@ == seq!['x', 'z'],
{
    reveal_strlit("png");
    reveal_strlit("jpg");
    reveal_strlit("jpeg");
    reveal_strlit("webp");
    reveal_strlit("gif");
    reveal_strlit("svg");
    reveal_strlit("bmp");
    reveal_strlit("avif");
    reveal_strlit("mp4");
    reveal_strlit("mkv");
    reveal_strlit("avi");
    reveal_strlit("mov");
    reveal_strlit("webm");
    reveal_strlit("m4v");
    reveal_strlit("mp3");
    reveal_strlit("flac");
    reveal_strlit("wav");
    reveal_strlit("ogg");
    reveal_strlit("m4a");
    reveal_strlit("aac");
    reveal_strlit("pdf");
    reveal_strlit("zip");
    reveal_strlit("rar");
    reveal_strlit("7z");
    reveal_strlit("tar");
    reveal_strlit("gz");
    reveal_strlit("xz");
}

/// The image extensions (png, jpg, jpeg, webp, gif, svg, bmp, avif), in lower or upper case, show the image-x-generic-symbolic icon.
pub proof fn law_image_extension_icon()
    ensures
        icon_for_extension(Some(seq!['p', 'n', 'g'])) == "image-x-generic-symbolic"@,
        icon_for_extension(Some(seq!['P', 'N', 'G'])) == "image-x-generic-symbolic"@,
        icon_for_extension(Some(seq!['j', 'p', 'g'])) == "image-x-generic-symbolic"@,
        icon_for_extension(Some(seq!['J', 'P', 'G'])) == "image-x-generic-symbolic"@,
        icon_for_extension(Some(seq!['j', 'p', 'e', 'g'])) == "image-x-generic-symbolic"@,
        icon_for_extension(Some(seq!['J', 'P', 'E', 'G'])) == "image-x-generic-symbolic"@,
        icon_for_extension(Some(seq!['w', 'e', 'b', 'p'])) == "image-x-generic-symbolic"@,
        icon_for_extension(Some(seq!['W', 'E', 'B', 'P'])) == "image-x-generic-symbolic"@,
        icon_for_extension(Some(seq!['g', 'i', 'f'])) == "image-x-generic-symbolic"@,
        icon_for_extension(Some(seq!['G', 'I', 'F'])) == "image-x-generic-symbolic"@,
        icon_for_extension(Some(seq!['s', 'v', 'g'])) == "image-x-generic-symbolic"@,
        icon_for_extension(Some(seq!['S', 'V', 'G'])) == "image-x-generic-symbolic"@,
        icon_for_extension(Some(seq!['b', 'm', 'p'])) == "image-x-generic-symbolic"@,
        icon_for_extension(Some(seq!['B', 'M', 'P'])) == "image-x-generic-symbolic"@,
        icon_for_extension(Some(seq!['a', 'v', 'i', 'f'])) == "image-x-generic-symbolic"@,
        icon_for_extension(Some(seq!['A', 'V', 'I', 'F'])) == "image-x-generic-symbolic"@,
{
    lemma_extension_literals();
    assert(seq!['p', 'n', 'g'].map_values(|c: char| ascii_lower(c)) =~= seq!['p', 'n', 'g']);
    assert(seq!['P', 'N', 'G'].map_values(|c: char| ascii_lower(c)) =~= seq!['p', 'n', 'g']);
    assert(seq!['j', 'p', 'g'].map_values(|c: char| ascii_lower(c)) =~= seq!['j', 'p', 'g']);
    assert(seq!['J', 'P', 'G'].map_values(|c: char| ascii_lower(c)) =~= seq!['j', 'p', 'g']);
    assert(seq!['j', 'p', 'e', 'g'].map_values(|c: char| ascii_lower(c)) =~= seq!['j', 'p', 'e', 'g']);
    assert(seq!['J', 'P', 'E', 'G'].map_values(|c: char| ascii_lower(c)) =~= seq!['j', 'p', 'e', 'g']);
    assert(seq!['w', 'e', 'b', 'p'].map_values(|c: char| ascii_lower(c)) =~= seq!['w', 'e', 'b', 'p']);
    assert(seq!['W', 'E', 'B', 'P'].map_values(|c: char| ascii_lower(c)) =~= seq!['w', 'e', 'b', 'p']);
    assert(seq!['g', 'i', 'f'].map_values(|c: char| ascii_lower(c)) =~= seq!['g', 'i', 'f']);
    assert(seq!['G', 'I', 'F'].map_values(|c: char| ascii_lower(c)) =~= seq!['g', 'i', 'f']);
    assert(seq!['s', 'v', 'g'].map_values(|c: char| ascii_lower(c)) =~= seq!['s', 'v', 'g']);
    assert(seq!['S', 'V', 'G'].map_values(|c: char| ascii_lower(c)) =~= seq!['s', 'v', 'g']);
    assert(seq!['b', 'm', 'p'].map_values(|c: char| ascii_lower(c)) =~= seq!['b', 'm', 'p']);
    assert(seq!['B', 'M', 'P'].map_values(|c: char| ascii_lower(c)) =~= seq!['b', 'm', 'p']);
    assert(seq!['a', 'v', 'i', 'f'].map_values(|c: char| ascii_lower(c)) =~= seq!['a', 'v', 'i', 'f']);
    assert(seq!['A', 'V', 'I', 'F'].map_values(|c: char| ascii_lower(c)) =~= seq!['a', 'v', 'i', 'f']);
}

/// The video extensions (mp4, mkv, avi, mov, webm, m4v), in lower or upper case, show the video-x-generic-symbolic icon.
pub proof fn law_video_extension_icon()
    ensures
        icon_for_extension(Some(seq!['m', 'p', '4'])) == "video-x-generic-symbolic"@,
        icon_for_extension(Some(seq!['M', 'P', '4'])) == "video-x-generic-symbolic"@,
        icon_for_extension(Some(seq!['m', 'k', 'v'])) == "video-x-generic-symbolic"@,
        icon_for_extension(Some(seq!['M', 'K', 'V'])) == "video-x-generic-symbolic"@,
        icon_for_extension(Some(seq!['a', 'v', 'i'])) == "video-x-generic-symbolic"@,
        icon_for_extension(Some(seq!['A', 'V', 'I'])) == "video-x-generic-symbolic"@,
        icon_for_extension(Some(seq!['m', 'o', 'v'])) == "video-x-generic-symbolic"@,
        icon_for_extension(Some(seq!['M', 'O', 'V'])) == "video-x-generic-symbolic"@,
        icon_for_extension(Some(seq!['w', 'e', 'b', 'm'])) == "video-x-generic-symbolic"@,
        icon_for_extension(Some(seq!['W', 'E', 'B', 'M'])) == "video-x-generic-symbolic"@,
        icon_for_extension(Some(seq!['m', '4', 'v'])) == "video-x-generic-symbolic"@,
        icon_for_extension(Some(seq!['M', '4', 'V'])) == "video-x-generic-symbolic"@,
{
    lemma_extension_literals();
    assert(seq!['m', 'p', '4'].map_values(|c: char| ascii_lower(c)) =~= seq!['m', 'p', '4']);
    assert(seq!['M', 'P', '4'].map_values(|c: char| ascii_lower(c)) =~= seq!['m', 'p', '4']);
    assert(seq!['m', 'k', 'v'].map_values(|c: char| ascii_lower(c)) =~= seq!['m', 'k', 'v']);
    assert(seq!['M', 'K', 'V'].map_values(|c: char| ascii_lower(c)) =~= seq!['m', 'k', 'v']);
    assert(seq!['a', 'v', 'i'].map_values(|c: char| ascii_lower(c)) =~= seq!['a', 'v', 'i']);
    assert(seq!['A', 'V', 'I'].map_values(|c: char| ascii_lower(c)) =~= seq!['a', 'v', 'i']);
    assert(seq!['m', 'o', 'v'].map_values(|c: char| ascii_lower(c)) =~= seq!['m', 'o', 'v']);
    assert(seq!['M', 'O', 'V'].map_values(|c: char| ascii_lower(c)) =~= seq!['m', 'o', 'v']);
    assert(seq!['w', 'e', 'b', 'm'].map_values(|c: char| ascii_lower(c)) =~= seq!['w', 'e', 'b', 'm']);
    assert(seq!['W', 'E', 'B', 'M'].map_values(|c: char| ascii_lower(c)) =~= seq!['w', 'e', 'b', 'm']);
    assert(seq!['m', '4', 'v'].map_values(|c: char| ascii_lower(c)) =~= seq!['m', '4', 'v']);
    assert(seq!['M', '4', 'V'].map_values(|c: char| ascii_lower(c)) =~= seq!['m', '4', 'v']);
}

/// The audio extensions (mp3, flac, wav, ogg, m4a, aac), in lower or upper case, show the audio-x-generic-symbolic icon.
pub proof fn law_audio_extension_icon()
    ensures
        icon_for_extension(Some(seq!['m', 'p', '3'])) == "audio-x-generic-symbolic"@,
        icon_for_extension(Some(seq!['M', 'P', '3'])) == "audio-x-generic-symbolic"@,
        icon_for_extension(Some(seq!['f', 'l', 'a', 'c'])) == "audio-x-generic-symbolic"@,
        icon_for_extension(Some(seq!['F', 'L', 'A', 'C'])) == "audio-x-generic-symbolic"@,
        icon_for_extension(Some(seq!['w', 'a', 'v'])) == "audio-x-generic-symbolic"@,
        icon_for_extension(Some(seq!['W', 'A', 'V'])) == "audio-x-generic-symbolic"@,
        icon_for_extension(Some(seq!['o', 'g', 'g'])) == "audio-x-generic-symbolic"@,
        icon_for_extension(Some(seq!['O', 'G', 'G'])) == "audio-x-generic-symbolic"@,
        icon_for_extension(Some(seq!['m', '4', 'a'])) == "audio-x-generic-symbolic"@,
        icon_for_extension(Some(seq!['M', '4', 'A'])) == "audio-x-generic-symbolic"@,
        icon_for_extension(Some(seq!['a', 'a', 'c'])) == "audio-x-generic-symbolic"@,
        icon_for_extension(Some(seq!['A', 'A', 'C'])) == "audio-x-generic-symbolic"@,
{
    lemma_extension_literals();
    assert(seq!['m', 'p', '3'].map_values(|c: char| ascii_lower(c)) =~= seq!['m', 'p', '3']);
    assert(seq!['M', 'P', '3'].map_values(|c: char| ascii_lower(c)) =~= seq!['m', 'p', '3']);
    assert(seq!['f', 'l', 'a', 'c'].map_values(|c: char| ascii_lower(c)) =~= seq!['f', 'l', 'a', 'c']);
    assert(seq!['F', 'L', 'A', 'C'].map_values(|c: char| ascii_lower(c)) =~= seq!['f', 'l', 'a', 'c']);
    assert(seq!['w', 'a', 'v'].map_values(|c: char| ascii_lower(c)) =~= seq!['w', 'a', 'v']);
    assert(seq!['W', 'A', 'V'].map_values(|c: char| ascii_lower(c)) =~= seq!['w', 'a', 'v']);
    assert(seq!['o', 'g', 'g'].map_values(|c: char| ascii_lower(c)) =~= seq!['o', 'g', 'g']);
    assert(seq!['O', 'G', 'G'].map_values(|c: char| ascii_lower(c)) =~= seq!['o', 'g', 'g']);
    assert(seq!['m', '4', 'a'].map_values(|c: char| ascii_lower(c)) =~= seq!['m', '4', 'a']);
    assert(seq!['M', '4', 'A'].map_values(|c: char| ascii_lower(c)) =~= seq!['m', '4', 'a']);
    assert(seq!['a', 'a', 'c'].map_values(|c: char| ascii_lower(c)) =~= seq!['a', 'a', 'c']);
    assert(seq!['A', 'A', 'C'].map_values(|c: char| ascii_lower(c)) =~= seq!['a', 'a', 'c']);
}

/// The pdf extensions (pdf), in lower or upper case, show the application-pdf-symbolic icon.
pub proof fn law_pdf_extension_icon()
    ensures
        icon_for_extension(Some(seq!['p', 'd', 'f'])) == "application-pdf-symbolic"@,
        icon_for_extension(Some(seq!['P', 'D', 'F'])) == "application-pdf-symbolic"@,
{
    lemma_extension_literals();
    assert(seq!['p', 'd', 'f'].map_values(|c: char| ascii_lower(c)) =~= seq!['p', 'd', 'f']);
    assert(seq!['P', 'D', 'F'].map_values(|c: char| ascii_lower(c)) =~= seq!['p', 'd', 'f']);
}

/// The archive extensions (zip, rar, 7z, tar, gz, xz), in lower or upper case, show the package-x-generic-symbolic icon.
pub proof fn law_archive_extension_icon()
    ensures
        icon_for_extension(Some(seq!['z', 'i', 'p'])) == "package-x-generic-symbolic"@,
        icon_for_extension(Some(seq!['Z', 'I', 'P'])) == "package-x-generic-symbolic"@,
        icon_for_extension(Some(seq!['r', 'a', 'r'])) == "package-x-generic-symbolic"@,
        icon_for_extension(Some(seq!['R', 'A', 'R'])) == "package-x-generic-symbolic"@,
        icon_for_extension(Some(seq!['7', 'z'])) == "package-x-generic-symbolic"@,
        icon_for_extension(Some(seq!['7', 'Z'])) == "package-x-generic-symbolic"@,
        icon_for_extension(Some(seq!['t', 'a', 'r'])) == "package-x-generic-symbolic"@,
        icon_for_extension(Some(seq!['T', 'A', 'R'])) == "package-x-generic-symbolic"@,
        icon_for_extension(Some(seq!['g', 'z'])) == "package-x-generic-symbolic"@,
        icon_for_extension(Some(seq!['G', 'Z'])) == "package-x-generic-symbolic"@,
        icon_for_extension(Some(seq!['x', 'z'])) == "package-x-generic-symbolic"@,
        icon_for_extension(Some(seq!['X', 'Z'])) == "package-x-generic-symbolic"@,
{
    lemma_extension_literals();
    assert(seq!['z', 'i', 'p'].map_values(|c: char| ascii_lower(c)) =~= seq!['z', 'i', 'p']);
    assert(seq!['Z', 'I', 'P'].map_values(|c: char| ascii_lower(c)) =~= seq!['z', 'i', 'p']);
    assert(seq!['r', 'a', 'r'].map_values(|c: char| ascii_lower(c)) =~= seq!['r', 'a', 'r']);
    assert(seq!['R', 'A', 'R'].map_values(|c: char| ascii_lower(c)) =~= seq!['r', 'a', 'r']);
    assert(seq!['7', 'z'].map_values(|c: char| ascii_lower(c)) =~= seq!['7', 'z']);
    assert(seq!['7', 'Z'].map_values(|c: char| ascii_lower(c)) =~= seq!['7', 'z']);
    assert(seq!['t', 'a', 'r'].map_values(|c: char| ascii_lower(c)) =~= seq!['t', 'a', 'r']);
    assert(seq!['T', 'A', 'R'].map_values(|c: char| ascii_lower(c)) =~= seq!['t', 'a', 'r']);
    assert(seq!['g', 'z'].map_values(|c: char| ascii_lower(c)) =~= seq!['g', 'z']);
    assert(seq!['G', 'Z'].map_values(|c: char| ascii_lower(c)) =~= seq!['g', 'z']);
    assert(seq!['x', 'z'].map_values(|c: char| ascii_lower(c)) =~= seq!['x', 'z']);
    assert(seq!['X', 'Z'].map_values(|c: char| ascii_lower(c)) =~= seq!['x', 'z']);
}

/// An extension outside every list, or none, shows the text icon.
pub proof fn law_other_extension_icon()
    ensures
        icon_for_extension(None) == "text-x-generic-symbolic"@,
        icon_for_extension(Some(seq!['t', 'x', 't'])) == "text-x-generic-symbolic"@,
        icon_for_extension(Some(Seq::empty())) == "text-x-generic-symbolic"@,
{
    lemma_extension_literals();
    assert(seq!['t', 'x', 't'].map_values(|c: char| ascii_lower(c)) =~= seq!['t', 'x', 't']);
    assert(Seq::<char>::empty().map_values(|c: char| ascii_lower(c)) =~= Seq::<char>::empty());
}

/// The icon of a selected file, by the extension of its path.
pub fn file_icon_name(path: &str) -> (icon: &'static str)
    ensures
        icon@ == icon_for_extension(path_extension(path@)),
{
    match extension_of(path) {
        None => extension_icon_name(None),
        Some(e) => extension_icon_name(Some(e.as_str())),
    }
}

/// The title a history row shows: the entry's title, or `None` when it is
/// empty and the row shows the generic "Recent transfer" instead.
pub fn history_row_title(entry: &HistoryEntry) -> (t: Option<String>)
    ensures
        t is None <==> entry.title@.len() == 0,
        t matches Some(x) ==> x@ == entry.title@,
{
    if entry.title.as_str().unicode_len() == 0 {
        None
    } else {
        Some(entry.title.clone())
    }
}

/// The folder that a history row's show-folder button opens: the parent
/// of the entry's target, or the target itself when it has no parent; a
/// row whose entry has no target has no such button.
pub fn history_row_show_folder(entry: &HistoryEntry) -> (t: Option<String>)
    ensures
        t is None <==> entry.open_target is None,
        t matches Some(f) ==> f@ == (match path_parent(entry.open_target->0@) {
            Some(d) => d,
            None => entry.open_target->0@,
        }),
{
    match &entry.open_target {
        Some(p) => match parent_of(p.as_str()) {
            Some(d) => Some(d),
            None => Some(p.clone()),
        },
        None => None,
    }
}

/// The description of the receive history dialog: the (translated)
/// template with each `{}` replaced by the days that history is kept.
pub fn history_dialog_description(template: &str, s: &AppSettings) -> (d: String)
    ensures
        d@ == replaced(template@, "{}"@, int_text(clamp(s.history_retention_days as int, 1, 365))),
{
    let days = int_to_string(get_history_retention_days(s));
    proof {
        reveal_strlit("{}");
    }
    replace_all(template, "{}", days.as_str())
}

/// How the receive view's history controls look.
#[derive(Clone, Copy, Debug, PartialEq, Eq, Structural)]
pub struct HistoryControls {
    /// The history button is shown and takes the free width.
    pub history_button_visible: bool,
    /// The header row above the transfers is shown.
    pub header_visible: bool,
    /// "Clear all" can be used.
    pub clear_all_sensitive: bool,
    /// The history dialog shows the list (else its empty state).
    pub show_history_page: bool,
}

/// The history controls once the short history list is known to hold
/// entries or not: everything follows whether there is history, and the
/// header also stays while the transfers heading is shown.
pub fn history_controls(has_history: bool, transfers_heading_visible: bool) -> (c: HistoryControls)
    ensures
        c == (HistoryControls {
            history_button_visible: has_history,
            header_visible: has_history || transfers_heading_visible,
            clear_all_sensitive: has_history,
            show_history_page: has_history,
        }),
{
    HistoryControls {
        history_button_visible: has_history,
        header_visible: has_history || transfers_heading_visible,
        clear_all_sensitive: has_history,
        show_history_page: has_history,
    }
}

/// Whether the transfers heading and the header row are shown: the heading
/// while transfers are listed, the header also while the history button is.
pub fn transfer_header_visibility(has_transfers: bool, history_button_visible: bool) -> (r: (bool, bool))
    ensures
        r == (has_transfers, has_transfers || history_button_visible),
{
    (has_transfers, has_transfers || history_button_visible)
}

/// The subtitle of the file selection card.
#[derive(Clone, Copy, Debug, PartialEq, Eq, Structural)]
pub enum FilesSubtitle {
    /// No file is selected: the subtitle invites to select.
    Select,
    /// `count` files are selected; `plural` picks "files" over "file".
    Count { count: usize, plural: bool },
}

/// How the file selection card looks for a number of selected files.
#[derive(Clone, Copy, Debug, PartialEq, Eq, Structural)]
pub struct SelectedFilesView {
    pub subtitle: FilesSubtitle,
    pub clear_visible: bool,
    pub files_visible: bool,
    pub upload_icon_visible: bool,
}

/// The file selection card: with no file, the "Select" subtitle and the
/// upload icon; otherwise the count with "file" or "files", the clear
/// button and the file tiles.
pub fn selected_files_view(count: usize) -> (v: SelectedFilesView)
    ensures
        count == 0 ==> v == (SelectedFilesView {
            subtitle: FilesSubtitle::Select,
            clear_visible: false,
            files_visible: false,
            upload_icon_visible: true,
        }),
        count > 0 ==> v == (SelectedFilesView {
            subtitle: FilesSubtitle::Count { count, plural: count != 1 },
            clear_visible: true,
            files_visible: true,
            upload_icon_visible: false,
        }),
{
    if count == 0 {
        SelectedFilesView {
            subtitle: FilesSubtitle::Select,
            clear_visible: false,
            files_visible: false,
            upload_icon_visible: true,
        }
    } else {
        SelectedFilesView {
            subtitle: FilesSubtitle::Count { count, plural: count != 1 },
            clear_visible: true,
            files_visible: true,
            upload_icon_visible: false,
        }
    }
}

/// A click on a device tile sends only when some file is selected.
pub fn tile_click_sends(files: &Vec<String>) -> (b: bool)
    ensures
        b == (files@.len() > 0),
{
    files.len() > 0
}

} // verus!
