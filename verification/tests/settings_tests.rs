use gnomeqs::settings::{
    color_scheme, font_size_css_px, get_autostart, get_download_folder, get_font_size,
    get_history_max_items, get_history_retention_days, get_keep_running_on_close, get_language,
    get_port, get_remember_window_size, get_save_transfer_history, get_start_minimized,
    get_visibility_raw, get_wifi_direct_enabled, reset_window_state, save_window_state,
    save_window_state_unchecked, set_visibility_raw, window_state, AppSettings, ColorScheme,
    DEFAULT_WINDOW_HEIGHT, DEFAULT_WINDOW_WIDTH,
};

fn sample() -> AppSettings {
    AppSettings {
        autostart: true,
        keep_running_on_close: false,
        start_minimized: true,
        remember_window_size: true,
        visibility: 0,
        wifi_direct_enabled: false,
        port: 0,
        download_folder: String::new(),
        language: "pt_BR".to_string(),
        font_size: 1,
        history_retention_days: 30,
        history_max_items: 100,
        save_transfer_history: true,
        color_scheme: "default".to_string(),
        tray_monochrome: false,
        window_width: 800,
        window_height: 600,
        window_maximized: true,
    }
}

#[test]
fn plain_getters_read_their_keys() {
    let s = sample();
    assert!(get_autostart(&s));
    assert!(!get_keep_running_on_close(&s));
    assert!(get_start_minimized(&s));
    assert!(get_remember_window_size(&s));
    assert_eq!(get_visibility_raw(&s), 0);
    assert!(!get_wifi_direct_enabled(&s));
    assert_eq!(get_language(&s), "pt_BR");
    assert_eq!(get_font_size(&s), 1);
    assert!(get_save_transfer_history(&s));
}

#[test]
fn port_below_1024_is_none() {
    let mut s = sample();
    s.port = 0;
    assert_eq!(get_port(&s), None);
    s.port = 80;
    assert_eq!(get_port(&s), None);
    s.port = 1023;
    assert_eq!(get_port(&s), None);
    s.port = 1024;
    assert_eq!(get_port(&s), Some(1024));
    s.port = 45123;
    assert_eq!(get_port(&s), Some(45123));
}

#[test]
fn negative_port_reads_as_unsigned() {
    let mut s = sample();
    s.port = -1;
    assert_eq!(get_port(&s), Some(u32::MAX));
}

#[test]
fn download_folder_empty_is_none() {
    let mut s = sample();
    assert_eq!(get_download_folder(&s), None);
    s.download_folder = "/home/me/Downloads".to_string();
    assert_eq!(get_download_folder(&s), Some("/home/me/Downloads".to_string()));
}

#[test]
fn history_limits_are_clamped() {
    let mut s = sample();
    s.history_retention_days = 0;
    s.history_max_items = -5;
    assert_eq!(get_history_retention_days(&s), 1);
    assert_eq!(get_history_max_items(&s), 1);
    s.history_retention_days = 400;
    s.history_max_items = 1000;
    assert_eq!(get_history_retention_days(&s), 365);
    assert_eq!(get_history_max_items(&s), 500);
    s.history_retention_days = 30;
    s.history_max_items = 50;
    assert_eq!(get_history_retention_days(&s), 30);
    assert_eq!(get_history_max_items(&s), 50);
}

#[test]
fn font_steps_map_to_pixels() {
    let mut s = sample();
    let expected = [(0, 13), (1, 15), (2, 17), (3, 19), (4, 15), (-1, 15)];
    for (step, px) in expected {
        s.font_size = step;
        assert_eq!(font_size_css_px(&s), px);
    }
}

#[test]
fn color_scheme_names() {
    let mut s = sample();
    s.color_scheme = "light".to_string();
    assert_eq!(color_scheme(&s), ColorScheme::ForceLight);
    s.color_scheme = "dark".to_string();
    assert_eq!(color_scheme(&s), ColorScheme::ForceDark);
    s.color_scheme = "default".to_string();
    assert_eq!(color_scheme(&s), ColorScheme::Default);
    s.color_scheme = "Dark".to_string();
    assert_eq!(color_scheme(&s), ColorScheme::Default);
    s.color_scheme = String::new();
    assert_eq!(color_scheme(&s), ColorScheme::Default);
}

#[test]
fn window_state_defaults_when_not_remembered() {
    let mut s = sample();
    s.remember_window_size = false;
    assert_eq!(window_state(&s), (DEFAULT_WINDOW_WIDTH, DEFAULT_WINDOW_HEIGHT, false));
    assert_eq!((DEFAULT_WINDOW_WIDTH, DEFAULT_WINDOW_HEIGHT), (400, 650));
}

#[test]
fn saved_window_state_reads_back() {
    let mut s = sample();
    save_window_state(&mut s, 1024, 768, false);
    assert_eq!(window_state(&s), (1024, 768, false));
}

#[test]
fn save_is_skipped_when_not_remembered() {
    let mut s = sample();
    s.remember_window_size = false;
    save_window_state(&mut s, 1024, 768, false);
    assert_eq!((s.window_width, s.window_height, s.window_maximized), (800, 600, true));
    save_window_state_unchecked(&mut s, 1024, 768, false);
    assert_eq!((s.window_width, s.window_height, s.window_maximized), (1024, 768, false));
    assert_eq!(window_state(&s), (400, 650, false));
}

#[test]
fn reset_restores_default_size() {
    let mut s = sample();
    reset_window_state(&mut s);
    assert_eq!(window_state(&s), (400, 650, false));
    assert_eq!((s.window_width, s.window_height, s.window_maximized), (400, 650, false));
}

#[test]
fn visibility_reads_back() {
    let mut s = sample();
    set_visibility_raw(&mut s, 2);
    assert_eq!(get_visibility_raw(&s), 2);
    assert_eq!(s.port, 0);
}
