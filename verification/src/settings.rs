use vstd::prelude::*;

verus! {

/// Width of the main window when no size is remembered.
pub const DEFAULT_WINDOW_WIDTH: i32 = 400;

/// Height of the main window when no size is remembered.
pub const DEFAULT_WINDOW_HEIGHT: i32 = 650;

/// The values of the application's settings schema, one field per key.
///
/// The application loads them from its settings store and writes back the
/// fields that the functions below change.
pub struct AppSettings {
    /// `autostart`
    pub autostart: bool,
    /// `keep-running-on-close`
    pub keep_running_on_close: bool,
    /// `start-minimized`
    pub start_minimized: bool,
    /// `remember-window-size`
    pub remember_window_size: bool,
    /// `visibility`
    pub visibility: i32,
    /// `wifi-direct-enabled`
    pub wifi_direct_enabled: bool,
    /// `port`
    pub port: i32,
    /// `download-folder`
    pub download_folder: String,
    /// `language`
    pub language: String,
    /// `font-size`
    pub font_size: i32,
    /// `history-retention-days`
    pub history_retention_days: i32,
    /// `history-max-items`
    pub history_max_items: i32,
    /// `save-transfer-history`
    pub save_transfer_history: bool,
    /// `color-scheme`
    pub color_scheme: String,
    /// `tray-monochrome`
    pub tray_monochrome: bool,
    /// `window-width`
    pub window_width: i32,
    /// `window-height`
    pub window_height: i32,
    /// `window-maximized`
    pub window_maximized: bool,
}

/// The colour scheme that the `color-scheme` key selects.
#[derive(Clone, Copy, Debug, PartialEq, Eq, Structural)]
pub enum ColorScheme {
    Default,
    ForceLight,
    ForceDark,
}

/// `x` clamped into `lo..=hi`.
pub open spec fn clamp(x: int, lo: int, hi: int) -> int {
    if x < lo {
        lo
    } else if x > hi {
        hi
    } else {
        x
    }
}

fn clamp_i32(x: i32, lo: i32, hi: i32) -> (r: i32)
    requires
        lo <= hi,
    ensures
        r == clamp(x as int, lo as int, hi as int),
{
    if x < lo {
        lo
    } else if x > hi {
        hi
    } else {
        x
    }
}

/// The window geometry that is restored at start-up.
pub open spec fn window_state_of(s: AppSettings) -> (i32, i32, bool) {
    if !s.remember_window_size {
        (DEFAULT_WINDOW_WIDTH, DEFAULT_WINDOW_HEIGHT, false)
    } else {
        (s.window_width, s.window_height, s.window_maximized)
    }
}

/// `s` with the stored window geometry replaced.
pub open spec fn with_window(s: AppSettings, width: i32, height: i32, maximized: bool) -> AppSettings {
    AppSettings { window_width: width, window_height: height, window_maximized: maximized, ..s }
}

/// The port that the `port` key selects: the key read as an unsigned
/// number, and no port below 1024.
pub open spec fn port_of(raw: i32) -> Option<u32> {
    if (raw as u32) < 1024 {
        None
    } else {
        Some(raw as u32)
    }
}

/// CSS pixel size of the body font for a `font-size` step.
pub open spec fn font_px_of(step: i32) -> i32 {
    if step == 0 {
        13
    } else if step == 2 {
        17
    } else if step == 3 {
        19
    } else {
        15
    }
}

pub fn get_autostart(s: &AppSettings) -> (b: bool)
    ensures
        b == s.autostart,
{
    s.autostart
}

pub fn get_keep_running_on_close(s: &AppSettings) -> (b: bool)
    ensures
        b == s.keep_running_on_close,
{
    s.keep_running_on_close
}

pub fn get_start_minimized(s: &AppSettings) -> (b: bool)
    ensures
        b == s.start_minimized,
{
    s.start_minimized
}

pub fn get_remember_window_size(s: &AppSettings) -> (b: bool)
    ensures
        b == s.remember_window_size,
{
    s.remember_window_size
}

pub fn get_visibility_raw(s: &AppSettings) -> (v: i32)
    ensures
        v == s.visibility,
{
    s.visibility
}

pub fn get_wifi_direct_enabled(s: &AppSettings) -> (b: bool)
    ensures
        b == s.wifi_direct_enabled,
{
    s.wifi_direct_enabled
}

pub fn set_visibility_raw(s: &mut AppSettings, v: i32)
    ensures
        *final(s) == (AppSettings { visibility: v, ..*old(s) }),
{
    s.visibility = v;
}

/// The listening port, or `None` when the stored value is below 1024.
pub fn get_port(s: &AppSettings) -> (p: Option<u32>)
    ensures
        p == port_of(s.port),
{
    let p = s.port as u32;
    if p < 1024 {
        None
    } else {
        Some(p)
    }
}

/// The download folder, or `None` when the key is empty.
pub fn get_download_folder(s: &AppSettings) -> (f: Option<String>)
    ensures
        f is None <==> s.download_folder@.len() == 0,
        f matches Some(path) ==> path@ == s.download_folder@,
{
    if s.download_folder.as_str().unicode_len() == 0 {
        None
    } else {
        Some(s.download_folder.clone())
    }
}

pub fn get_language(s: &AppSettings) -> (l: String)
    ensures
        l@ == s.language@,
{
    s.language.clone()
}

pub fn get_font_size(s: &AppSettings) -> (v: i32)
    ensures
        v == s.font_size,
{
    s.font_size
}

/// Days that history entries are kept: the stored value clamped to `1..=365`.
pub fn get_history_retention_days(s: &AppSettings) -> (d: i32)
    ensures
        d == clamp(s.history_retention_days as int, 1, 365),
        1 <= d <= 365,
{
    clamp_i32(s.history_retention_days, 1, 365)
}

/// Most history entries kept: the stored value clamped to `1..=500`.
pub fn get_history_max_items(s: &AppSettings) -> (m: i32)
    ensures
        m == clamp(s.history_max_items as int, 1, 500),
        1 <= m <= 500,
{
    clamp_i32(s.history_max_items, 1, 500)
}

pub fn get_save_transfer_history(s: &AppSettings) -> (b: bool)
    ensures
        b == s.save_transfer_history,
{
    s.save_transfer_history
}

/// Body font size in CSS pixels: steps 0, 2 and 3 give 13, 17 and 19 px,
/// any other step 15 px.
pub fn font_size_css_px(s: &AppSettings) -> (px: i32)
    ensures
        px == font_px_of(s.font_size),
{
    match get_font_size(s) {
        0 => 13,
        2 => 17,
        3 => 19,
        _ => 15,
    }
}

/// The colour scheme that the `color-scheme` key selects: `"light"` and
/// `"dark"` force one, anything else follows the system.
pub fn color_scheme(s: &AppSettings) -> (cs: ColorScheme)
    ensures
        cs == (if s.color_scheme@ == "light"@ {
            ColorScheme::ForceLight
        } else if s.color_scheme@ == "dark"@ {
            ColorScheme::ForceDark
        } else {
            ColorScheme::Default
        }),
{
    if crate::text::str_eq(s.color_scheme.as_str(), "light") {
        ColorScheme::ForceLight
    } else if crate::text::str_eq(s.color_scheme.as_str(), "dark") {
        ColorScheme::ForceDark
    } else {
        ColorScheme::Default
    }
}

/// Stores the window geometry when `remember-window-size` is on, and
/// leaves the settings untouched otherwise.
pub fn save_window_state(s: &mut AppSettings, width: i32, height: i32, maximized: bool)
    ensures
        *final(s) == (if old(s).remember_window_size {
            with_window(*old(s), width, height, maximized)
        } else {
            *old(s)
        }),
{
    if !get_remember_window_size(s) {
        return;
    }
    save_window_state_unchecked(s, width, height, maximized);
}

/// Stores the window geometry whatever `remember-window-size` says.
pub fn save_window_state_unchecked(s: &mut AppSettings, width: i32, height: i32, maximized: bool)
    ensures
        *final(s) == with_window(*old(s), width, height, maximized),
{
    s.window_width = width;
    s.window_height = height;
    s.window_maximized = maximized;
}

/// The window geometry to restore: the stored one when
/// `remember-window-size` is on, the default size otherwise.
pub fn window_state(s: &AppSettings) -> (r: (i32, i32, bool))
    ensures
        r == window_state_of(*s),
{
    if !get_remember_window_size(s) {
        return (DEFAULT_WINDOW_WIDTH, DEFAULT_WINDOW_HEIGHT, false);
    }
    (s.window_width, s.window_height, s.window_maximized)
}

/// Stores the default window geometry.
pub fn reset_window_state(s: &mut AppSettings)
    ensures
        *final(s) == with_window(*old(s), DEFAULT_WINDOW_WIDTH, DEFAULT_WINDOW_HEIGHT, false),
{
    save_window_state_unchecked(s, DEFAULT_WINDOW_WIDTH, DEFAULT_WINDOW_HEIGHT, false);
}

/// What is saved is what is restored: after the geometry is stored, the
/// window comes back with it when sizes are remembered, and with the
/// default size when they are not.
pub proof fn law_window_state_reads_back_save(s: AppSettings, width: i32, height: i32, maximized: bool)
    ensures
        window_state_of(with_window(s, width, height, maximized)) == (if s.remember_window_size {
            (width, height, maximized)
        } else {
            (DEFAULT_WINDOW_WIDTH, DEFAULT_WINDOW_HEIGHT, false)
        }),
{
}

/// After a reset the window opens at the default size, whether or not
/// sizes are remembered.
pub proof fn law_reset_gives_default_window(s: AppSettings)
    ensures
        window_state_of(with_window(s, DEFAULT_WINDOW_WIDTH, DEFAULT_WINDOW_HEIGHT, false)) == (
        DEFAULT_WINDOW_WIDTH,
        DEFAULT_WINDOW_HEIGHT,
        false,
        ),
{
}

/// The stored visibility is the one last set.
pub proof fn law_visibility_reads_back(s: AppSettings, v: i32)
    ensures
        (AppSettings { visibility: v, ..s }).visibility == v,
{
}

} // verus!
