use gnomeqs::settings::AppSettings;
use gnomeqs::tray::{
    handle_ipc_command, ipc_command_line, parse_visibility_status, tray_helper_env, tray_labels,
    tray_socket_path, tray_status_path, visibility_menu_label, visibility_status_text, IpcAction,
    TrayHandle,
};
use gnomeqs::tray::{tray_status_poll, TrayPoll};
use gnomeqs::visibility::Visibility;

fn settings(visibility: i32) -> AppSettings {
    AppSettings {
        autostart: false,
        keep_running_on_close: false,
        start_minimized: false,
        remember_window_size: false,
        visibility,
        wifi_direct_enabled: false,
        port: 0,
        download_folder: String::new(),
        language: "en".to_string(),
        font_size: 1,
        history_retention_days: 30,
        history_max_items: 100,
        save_transfer_history: true,
        color_scheme: String::new(),
        tray_monochrome: true,
        window_width: 400,
        window_height: 650,
        window_maximized: false,
    }
}

#[test]
fn tray_paths_in_runtime_dir() {
    assert_eq!(tray_socket_path("/run/user/1000"), "/run/user/1000/gnomeqs-tray.sock");
    assert_eq!(tray_status_path("/run/user/1000/"), "/run/user/1000/gnomeqs-tray.status");
}

#[test]
fn status_file_round_trip() {
    for v in [Visibility::Visible, Visibility::Invisible, Visibility::Temporarily] {
        let text = visibility_status_text(v);
        assert_eq!(text, v.as_raw().to_string());
        assert_eq!(parse_visibility_status(&text), Some(v));
    }
}

#[test]
fn status_file_parsing() {
    assert_eq!(parse_visibility_status(" 1\n"), Some(Visibility::Invisible));
    assert_eq!(parse_visibility_status("2"), Some(Visibility::Temporarily));
    assert_eq!(parse_visibility_status("3"), None);
    assert_eq!(parse_visibility_status(""), None);
    assert_eq!(parse_visibility_status("01"), None);
}

#[test]
fn commands_from_the_tray() {
    let mut s = settings(0);
    assert_eq!(handle_ipc_command("show\n", &mut s), Some(IpcAction::ShowWindow));
    assert_eq!(s.visibility, 0);
    assert_eq!(handle_ipc_command("quit", &mut s), Some(IpcAction::Quit));
    assert_eq!(handle_ipc_command("SHOW", &mut s), None);
    assert_eq!(handle_ipc_command("bogus\n", &mut s), None);
    assert_eq!(s.visibility, 0);
}

#[test]
fn toggle_from_the_tray() {
    let mut s = settings(0);
    assert_eq!(
        handle_ipc_command("  toggle_visibility \n", &mut s),
        Some(IpcAction::ChangeVisibility(Visibility::Invisible))
    );
    assert_eq!(s.visibility, 1);
    assert_eq!(
        handle_ipc_command("toggle_visibility", &mut s),
        Some(IpcAction::ChangeVisibility(Visibility::Visible))
    );
    assert_eq!(s.visibility, 0);
    let mut t = settings(2);
    assert_eq!(
        handle_ipc_command("toggle_visibility\n", &mut t),
        Some(IpcAction::ChangeVisibility(Visibility::Visible))
    );
    assert_eq!(t.visibility, 0);
}

#[test]
fn framed_commands_are_understood() {
    for (cmd, action) in [
        ("show", IpcAction::ShowWindow),
        ("toggle_visibility", IpcAction::ChangeVisibility(Visibility::Visible)),
        ("quit", IpcAction::Quit),
    ] {
        let line = ipc_command_line(cmd);
        assert_eq!(line, format!("{cmd}\n"));
        let mut s = settings(1);
        assert_eq!(handle_ipc_command(&line, &mut s), Some(action));
    }
}

#[test]
fn menu_labels() {
    let pt = tray_labels("pt_BR");
    assert_eq!(pt.0, "Exibir");
    assert_eq!(pt.4, "Visibilidade: Temporario");
    let en = tray_labels("en");
    assert_eq!(en, ("Show", "Quit", "Visibility: Visible", "Visibility: Hidden", "Visibility: Temporary"));
    assert_eq!(
        visibility_menu_label(Visibility::Visible, en.2, en.3, en.4),
        "Visibility: Visible \u{2713}"
    );
    assert_eq!(visibility_menu_label(Visibility::Invisible, en.2, en.3, en.4), "Visibility: Hidden");
    assert_eq!(
        visibility_menu_label(Visibility::Temporarily, en.2, en.3, en.4),
        "Visibility: Temporary"
    );
}

#[test]
fn helper_environment() {
    let s = settings(0);
    let h = TrayHandle { socket_path: "/r/s.sock".to_string(), status_path: "/r/s.status".to_string() };
    let env = tray_helper_env(&s, &h);
    assert_eq!(
        env,
        vec![
            ("GNOMEQS_TRAY_SOCKET".to_string(), "/r/s.sock".to_string()),
            ("GNOMEQS_TRAY_STATUS".to_string(), "/r/s.status".to_string()),
            ("GNOMEQS_TRAY_LANG".to_string(), "en".to_string()),
            ("GNOMEQS_TRAY_MONO".to_string(), "1".to_string()),
        ]
    );
}

#[test]
fn status_polling() {
    assert_eq!(tray_status_poll(false, Some("0")), TrayPoll::Quit);
    assert_eq!(tray_status_poll(true, Some("1\n")), TrayPoll::Show(Visibility::Invisible));
    assert_eq!(tray_status_poll(true, Some("x")), TrayPoll::Keep);
    assert_eq!(tray_status_poll(true, None), TrayPoll::Keep);
}
