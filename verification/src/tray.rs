use vstd::prelude::*;
use vstd::string::*;
use crate::settings::AppSettings;
use crate::text::{is_ws, join_path, join_seq, skip_ws, rskip_ws, str_eq, trim, trim_seq};
use crate::visibility::Visibility;

verus! {

/// Where the main application and its tray helper meet: the helper's
/// command socket and the file that holds the current visibility.
#[derive(Clone, Debug)]
pub struct TrayHandle {
    pub socket_path: String,
    pub status_path: String,
}

/// What the main application does on a command from the tray helper.
#[derive(Clone, Copy, Debug, PartialEq, Eq, Structural)]
pub enum IpcAction {
    ShowWindow,
    ChangeVisibility(Visibility),
    Quit,
}

/// The tray helper's socket in the runtime directory.
pub fn tray_socket_path(runtime_dir: &str) -> (p: String)
    ensures
        p@ == join_seq(runtime_dir@, "gnomeqs-tray.sock"@),
{
    proof {
        reveal_strlit("gnomeqs-tray.sock");
    }
    join_path(runtime_dir, "gnomeqs-tray.sock")
}

/// The visibility status file in the runtime directory.
pub fn tray_status_path(runtime_dir: &str) -> (p: String)
    ensures
        p@ == join_seq(runtime_dir@, "gnomeqs-tray.status"@),
{
    proof {
        reveal_strlit("gnomeqs-tray.status");
    }
    join_path(runtime_dir, "gnomeqs-tray.status")
}

/// The decimal digit of a visibility's raw number.
pub open spec fn status_text(v: Visibility) -> Seq<char> {
    match v {
        Visibility::Visible => seq!['0'],
        Visibility::Invisible => seq!['1'],
        Visibility::Temporarily => seq!['2'],
    }
}

/// What the status file holds for a visibility: its raw number in decimal.
pub fn visibility_status_text(v: Visibility) -> (t: String)
    ensures
        t@ == status_text(v),
{
    match v {
        Visibility::Visible => {
            proof {
                reveal_strlit("0");
            }
            String::from_str("0")
        },
        Visibility::Invisible => {
            proof {
                reveal_strlit("1");
            }
            String::from_str("1")
        },
        Visibility::Temporarily => {
            proof {
                reveal_strlit("2");
            }
            String::from_str("2")
        },
    }
}

/// The visibility that a status file's contents name, white space around
/// it ignored.
pub open spec fn status_of(raw: Seq<char>) -> Option<Visibility> {
    let t = trim_seq(raw);
    if t == seq!['0'] {
        Some(Visibility::Visible)
    } else if t == seq!['1'] {
        Some(Visibility::Invisible)
    } else if t == seq!['2'] {
        Some(Visibility::Temporarily)
    } else {
        None
    }
}

/// Reads the contents of the status file: `0`, `1` or `2` after trimming,
/// anything else is no visibility.
pub fn parse_visibility_status(raw: &str) -> (v: Option<Visibility>)
    ensures
        v == status_of(raw@),
{
    let t = trim(raw);
    proof {
        reveal_strlit("0");
        reveal_strlit("1");
        reveal_strlit("2");
        assert("0"@ =~= seq!['0']);
        assert("1"@ =~= seq!['1']);
        assert("2"@ =~= seq!['2']);
    }
    if str_eq(t, "0") {
        Some(Visibility::Visible)
    } else if str_eq(t, "1") {
        Some(Visibility::Invisible)
    } else if str_eq(t, "2") {
        Some(Visibility::Temporarily)
    } else {
        None
    }
}

/// A text without white space at either end is its own trim, also with a
/// line break after it.
pub proof fn lemma_trim_line(c: Seq<char>)
    requires
        c.len() > 0,
        !is_ws(c[0]),
        !is_ws(c.last()),
    ensures
        trim_seq(c) == c,
        trim_seq(c + seq!['\n']) == c,
{
    let t = c + seq!['\n'];
    assert(t[0] == c[0]);
    assert(skip_ws(t, 0) == 0);
    assert(skip_ws(c, 0) == 0);
    assert(is_ws(t[c.len() as int]));
    assert(t[c.len() - 1] == c.last());
    assert(rskip_ws(t, c.len() as int) == c.len());
    assert(rskip_ws(t, t.len() as int) == c.len());
    assert(rskip_ws(c, c.len() as int) == c.len());
    assert(t.subrange(0, c.len() as int) =~= c);
    assert(c.subrange(0, c.len() as int) =~= c);
}

/// The status file written for a visibility reads back as that visibility.
pub proof fn law_status_text_round_trip(v: Visibility)
    ensures
        status_of(status_text(v)) == Some(v),
{
    let t = status_text(v);
    lemma_trim_line(t);
}

/// The command line the tray helper sends: the command and a line break.
pub open spec fn command_line(cmd: Seq<char>) -> Seq<char> {
    cmd + seq!['\n']
}

/// How the tray helper frames a command on the socket.
pub fn ipc_command_line(cmd: &str) -> (line: String)
    ensures
        line@ == command_line(cmd@),
{
    let mut line = String::from_str(cmd);
    proof {
        reveal_strlit("\n");
    }
    line.append("\n");
    line
}

/// The visibility that a toggle from the tray selects: hidden when the
/// device is visible (raw `0`), visible otherwise.
pub open spec fn toggled(raw: i32) -> Visibility {
    if raw == 0 {
        Visibility::Invisible
    } else {
        Visibility::Visible
    }
}

/// What a command line from the tray helper asks for, given the stored
/// visibility.
pub open spec fn ipc_action_of(line: Seq<char>, raw: i32) -> Option<IpcAction> {
    let t = trim_seq(line);
    if t == "show"@ {
        Some(IpcAction::ShowWindow)
    } else if t == "toggle_visibility"@ {
        Some(IpcAction::ChangeVisibility(toggled(raw)))
    } else if t == "quit"@ {
        Some(IpcAction::Quit)
    } else {
        None
    }
}

/// Handles a command from the tray helper. A visibility toggle stores the
/// new visibility in the settings; unknown commands do nothing.
pub fn handle_ipc_command(cmd: &str, s: &mut AppSettings) -> (a: Option<IpcAction>)
    ensures
        a == ipc_action_of(cmd@, old(s).visibility),
        *final(s) == (match a {
            Some(IpcAction::ChangeVisibility(v)) => AppSettings { visibility: v.raw() as i32, ..*old(s) },
            _ => *old(s),
        }),
{
    let t = trim(cmd);
    if str_eq(t, "show") {
        Some(IpcAction::ShowWindow)
    } else if str_eq(t, "toggle_visibility") {
        let current = crate::settings::get_visibility_raw(s);
        let new_vis = if current == 0 {
            Visibility::Invisible
        } else {
            Visibility::Visible
        };
        crate::settings::set_visibility_raw(s, new_vis.as_raw());
        Some(IpcAction::ChangeVisibility(new_vis))
    } else if str_eq(t, "quit") {
        Some(IpcAction::Quit)
    } else {
        None
    }
}

/// Every command the tray helper sends is understood as meant by the main
/// application.
pub proof fn law_tray_commands_understood(raw: i32)
    ensures
        ipc_action_of(command_line("show"@), raw) == Some(IpcAction::ShowWindow),
        ipc_action_of(command_line("toggle_visibility"@), raw) == Some(
            IpcAction::ChangeVisibility(toggled(raw)),
        ),
        ipc_action_of(command_line("quit"@), raw) == Some(IpcAction::Quit),
{
    reveal_strlit("show");
    reveal_strlit("toggle_visibility");
    reveal_strlit("quit");
    lemma_trim_line("show"@);
    lemma_trim_line("toggle_visibility"@);
    lemma_trim_line("quit"@);
    assert("show"@ != "toggle_visibility"@);
    assert("show"@ != "quit"@);
    assert("toggle_visibility"@ != "quit"@);
}

/// Toggling from the tray twice returns a visible or hidden device to
/// where it was, and a toggle never selects temporary visibility.
pub proof fn law_toggle_twice(v: Visibility)
    ensures
        toggled(v.raw() as i32) != Visibility::Temporarily,
        v != Visibility::Temporarily ==> toggled(toggled(v.raw() as i32).raw() as i32) == v,
{
}

/// Labels of the tray menu: show, quit, and the three visibility states.
pub fn tray_labels(lang: &str) -> (labels: (&'static str, &'static str, &'static str, &'static str, &'static str))
    ensures
        lang@ == "pt_BR"@ ==> labels.0@ == "Exibir"@ && labels.1@ == "Sair"@ && labels.2@
            == "Visibilidade: Visivel"@ && labels.3@ == "Visibilidade: Oculto"@ && labels.4@
            == "Visibilidade: Temporario"@,
        lang@ != "pt_BR"@ ==> labels.0@ == "Show"@ && labels.1@ == "Quit"@ && labels.2@
            == "Visibility: Visible"@ && labels.3@ == "Visibility: Hidden"@ && labels.4@
            == "Visibility: Temporary"@,
{
    if str_eq(lang, "pt_BR") {
        (
            "Exibir",
            "Sair",
            "Visibilidade: Visivel",
            "Visibilidade: Oculto",
            "Visibilidade: Temporario",
        )
    } else {
        ("Show", "Quit", "Visibility: Visible", "Visibility: Hidden", "Visibility: Temporary")
    }
}

/// The visibility entry of the tray menu: the visible label with a check
/// mark, or the label of the current state.
pub fn visibility_menu_label(
    vis: Visibility,
    visible_label: &str,
    hidden_label: &str,
    temporary_label: &str,
) -> (l: String)
    ensures
        l@ == (match vis {
            Visibility::Visible => visible_label@ + " \u{2713}"@,
            Visibility::Invisible => hidden_label@,
            Visibility::Temporarily => temporary_label@,
        }),
{
    match vis {
        Visibility::Visible => {
            let mut l = String::from_str(visible_label);
            l.append(" \u{2713}");
            l
        },
        Visibility::Invisible => String::from_str(hidden_label),
        Visibility::Temporarily => String::from_str(temporary_label),
    }
}

/// The environment handed to the tray helper: its socket, the status file,
/// the interface language and whether the icon is monochrome (`1`/`0`).
pub fn tray_helper_env(s: &AppSettings, handle: &TrayHandle) -> (env: Vec<(String, String)>)
    ensures
        env@.len() == 4,
        env@[0].0@ == "GNOMEQS_TRAY_SOCKET"@ && env@[0].1@ == handle.socket_path@,
        env@[1].0@ == "GNOMEQS_TRAY_STATUS"@ && env@[1].1@ == handle.status_path@,
        env@[2].0@ == "GNOMEQS_TRAY_LANG"@ && env@[2].1@ == s.language@,
        env@[3].0@ == "GNOMEQS_TRAY_MONO"@ && env@[3].1@ == (if s.tray_monochrome {
            "1"@
        } else {
            "0"@
        }),
{
    let mut env: Vec<(String, String)> = Vec::new();
    env.push((String::from_str("GNOMEQS_TRAY_SOCKET"), handle.socket_path.clone()));
    env.push((String::from_str("GNOMEQS_TRAY_STATUS"), handle.status_path.clone()));
    env.push((String::from_str("GNOMEQS_TRAY_LANG"), crate::settings::get_language(s)));
    let mono = if s.tray_monochrome {
        String::from_str("1")
    } else {
        String::from_str("0")
    };
    env.push((String::from_str("GNOMEQS_TRAY_MONO"), mono));
    env
}

/// What the tray helper does on each look at the status file.
#[derive(Clone, Copy, Debug, PartialEq, Eq, Structural)]
pub enum TrayPoll {
    /// The file is gone (the main application quit): leave.
    Quit,
    /// Show this visibility in the menu.
    Show(Visibility),
    /// The file could not be read or names no visibility: keep the menu.
    Keep,
}

/// One look at the status file: whether it exists and, if it could be
/// read, what it holds.
pub fn tray_status_poll(status_exists: bool, contents: Option<&str>) -> (p: TrayPoll)
    ensures
        !status_exists ==> p == TrayPoll::Quit,
        status_exists ==> p == (match contents {
            Some(c) => match status_of(c@) {
                Some(v) => TrayPoll::Show(v),
                None => TrayPoll::Keep,
            },
            None => TrayPoll::Keep,
        }),
{
    if !status_exists {
        return TrayPoll::Quit;
    }
    match contents {
        Some(c) => match parse_visibility_status(c) {
            Some(v) => TrayPoll::Show(v),
            None => TrayPoll::Keep,
        },
        None => TrayPoll::Keep,
    }
}

} // verus!
