use gnomeqs::channel::{ChannelDirection, ChannelMessage, State, TransferRiskLevel, TransferMetadata, TransferType};
use gnomeqs::settings::AppSettings;
use gnomeqs::window::{
    consent_notification_body, on_close_request, route_transfer_update, CloseAction, DiscoveryState, PageAction, PageTracker,
    StartStep, TransferTarget, custom_css,
};

fn meta() -> TransferMetadata {
    TransferMetadata {
        id: "t".to_string(),
        source: None,
        pin_code: Some("1234".to_string()),
        destination: None,
        files: Some(vec!["a.txt".to_string()]),
        text_type: None,
        text_description: None,
        text_payload: None,
        contains_dangerous_files: false,
        risk_level: TransferRiskLevel::NoRisk,
        detected_content_label: None,
        detected_content_description: None,
        suspicious_file_name: None,
        total_bytes: 10,
        ack_bytes: 0,
    }
}

fn msg(dir: ChannelDirection, rtype: Option<TransferType>, state: Option<State>, with_meta: bool) -> ChannelMessage {
    ChannelMessage {
        id: "t".to_string(),
        direction: dir,
        action: None,
        rtype,
        state,
        meta: if with_meta { Some(meta()) } else { None },
    }
}

fn settings(remember: bool, keep: bool) -> AppSettings {
    AppSettings {
        autostart: false,
        keep_running_on_close: keep,
        start_minimized: false,
        remember_window_size: remember,
        visibility: 0,
        wifi_direct_enabled: false,
        port: 0,
        download_folder: String::new(),
        language: "en".to_string(),
        font_size: 1,
        history_retention_days: 30,
        history_max_items: 100,
        save_transfer_history: true,
        color_scheme: String::new(),
        tray_monochrome: false,
        window_width: 400,
        window_height: 650,
        window_maximized: false,
    }
}

#[test]
fn transfer_routing() {
    let lib = ChannelDirection::LibToFront;
    let r = route_transfer_update(&msg(ChannelDirection::FrontToLib, Some(TransferType::Inbound), None, true));
    assert_eq!(r.target, TransferTarget::Nowhere);
    assert!(r.notify.is_none());
    let r = route_transfer_update(&msg(lib, Some(TransferType::Outbound), Some(State::WaitingForUserConsent), true));
    assert_eq!(r.target, TransferTarget::SendView);
    assert!(r.notify.is_none());
    let r = route_transfer_update(&msg(lib, None, Some(State::WaitingForUserConsent), true));
    assert_eq!(r.target, TransferTarget::ReceiveView);
    assert!(r.notify.is_none());
    let r = route_transfer_update(&msg(lib, Some(TransferType::Inbound), Some(State::ReceivingFiles), true));
    assert_eq!(r.target, TransferTarget::ReceiveView);
    assert!(r.notify.is_none());
    let r = route_transfer_update(&msg(lib, Some(TransferType::Inbound), Some(State::WaitingForUserConsent), false));
    assert!(r.notify.is_none());
    let r = route_transfer_update(&msg(lib, Some(TransferType::Inbound), Some(State::WaitingForUserConsent), true));
    assert_eq!(r.target, TransferTarget::ReceiveView);
    assert_eq!(r.notify, Some(("Unknown".to_string(), "t".to_string())));
}

#[test]
fn closing_the_window() {
    let mut s = settings(true, true);
    assert_eq!(on_close_request(&mut s, 900, 700, false), CloseAction::Hide);
    assert_eq!((s.window_width, s.window_height), (900, 700));
    let mut t = settings(false, false);
    assert_eq!(on_close_request(&mut t, 900, 700, true), CloseAction::Close);
    assert_eq!((t.window_width, t.window_height, t.window_maximized), (400, 650, false));
}

#[test]
fn page_switches() {
    let mut p = PageTracker::new();
    assert_eq!(p.on_visible_page(Some("receive".to_string())), PageAction::StopDiscovery);
    assert_eq!(p.on_visible_page(Some("receive".to_string())), PageAction::Ignore);
    assert_eq!(p.on_visible_page(Some("send".to_string())), PageAction::StartDiscovery);
    assert_eq!(p.on_visible_page(Some("send".to_string())), PageAction::Ignore);
    assert_eq!(p.on_visible_page(None), PageAction::StopDiscovery);
    assert_eq!(p.on_visible_page(None), PageAction::Ignore);
}

#[test]
fn discovery_lifecycle() {
    let mut d = DiscoveryState::new();
    assert_eq!(d.start_discovery(), StartStep::Send { cancel_pending: false });
    d.start_sent(false);
    assert!(!d.active);
    assert_eq!(d.start_discovery(), StartStep::Send { cancel_pending: false });
    d.start_sent(true);
    assert!(d.active);
    assert_eq!(d.start_discovery(), StartStep::AlreadyActive);
    assert_eq!(d.refresh(), (true, false));
    assert!(!d.active && d.pending_start);
    assert_eq!(d.start_discovery(), StartStep::Send { cancel_pending: true });
    d.start_sent(true);
    assert!(!d.scheduled_start());
    assert_eq!(d.stop_discovery(), false);
    d.stop_sent(true);
    assert!(!d.active);
    d.refresh();
    assert!(d.scheduled_start());
    assert!(!d.pending_start);
}

#[test]
fn notification_text() {
    assert_eq!(consent_notification_body("Ana"), "Ana wants to share");
}

#[test]
fn style_sheet_font_size() {
    let mut s = settings(false, false);
    let t = ".a { font-size: __FONT_SIZE_PX__px; }\n.b { font-size: __FONT_SIZE_PX__px; }";
    assert_eq!(custom_css(t, &s), ".a { font-size: 15px; }\n.b { font-size: 15px; }");
    s.font_size = 0;
    assert_eq!(custom_css("__FONT_SIZE_PX__", &s), "13");
    s.font_size = 3;
    assert_eq!(custom_css("x__FONT_SIZE_PX_", &s), "x__FONT_SIZE_PX_");
}
