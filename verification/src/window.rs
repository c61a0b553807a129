use vstd::prelude::*;
use vstd::string::*;
use crate::channel::{ChannelDirection, ChannelMessage, State, TransferType};
use crate::settings::{AppSettings, with_window, font_px_of, font_size_css_px};
use crate::text::{str_eq, replaced, int_text, replace_all, int_to_string};

verus! {

/// Which view takes a transfer update.
#[derive(Clone, Copy, Debug, PartialEq, Eq, Structural)]
pub enum TransferTarget {
    ReceiveView,
    SendView,
    Nowhere,
}

/// Where a transfer update goes, and the desktop notification to raise
/// first, if any (sender name and transfer id).
pub struct TransferRoute {
    pub target: TransferTarget,
    pub notify: Option<(String, String)>,
}

/// The view that takes a transfer update: updates from the engine go to
/// the send view when outgoing and to the receive view otherwise.
pub open spec fn route_target(msg: ChannelMessage) -> TransferTarget {
    if msg.direction != ChannelDirection::LibToFront {
        TransferTarget::Nowhere
    } else if msg.rtype == Some(TransferType::Outbound) {
        TransferTarget::SendView
    } else {
        TransferTarget::ReceiveView
    }
}

/// An incoming transfer that waits for the user's consent and carries its
/// metadata raises a notification.
pub open spec fn needs_consent_notification(msg: ChannelMessage) -> bool {
    &&& msg.direction == ChannelDirection::LibToFront
    &&& msg.rtype == Some(TransferType::Inbound)
    &&& msg.state == Some(State::WaitingForUserConsent)
    &&& msg.meta is Some
}

/// The sender named in a notification: the source device's name, or
/// `Unknown`.
pub open spec fn sender_name(msg: ChannelMessage) -> Seq<char> {
    match msg.meta {
        Some(m) => match m.source {
            Some(src) => src.name@,
            None => "Unknown"@,
        },
        None => "Unknown"@,
    }
}

/// Routes a transfer update from the engine to the views.
pub fn route_transfer_update(msg: &ChannelMessage) -> (r: TransferRoute)
    ensures
        r.target == route_target(*msg),
        r.notify is Some <==> needs_consent_notification(*msg),
        r.notify matches Some(n) ==> n.0@ == sender_name(*msg) && n.1@ == msg.id@,
        r.notify is Some ==> msg.state == Some(State::WaitingForUserConsent) && msg.rtype == Some(
            TransferType::Inbound,
        ) && msg.meta is Some,
        msg.direction == ChannelDirection::LibToFront && msg.rtype == Some(TransferType::Inbound)
            && msg.state == Some(State::WaitingForUserConsent) && msg.meta is Some ==> r.notify is Some,
{
    if msg.direction != ChannelDirection::LibToFront {
        return TransferRoute { target: TransferTarget::Nowhere, notify: None };
    }
    match msg.rtype {
        Some(TransferType::Inbound) => {
            let mut notify: Option<(String, String)> = None;
            if msg.state == Some(State::WaitingForUserConsent) {
                if let Some(meta) = &msg.meta {
                    let name = match &meta.source {
                        Some(src) => src.name.clone(),
                        None => String::from_str("Unknown"),
                    };
                    notify = Some((name, msg.id.clone()));
                }
            }
            TransferRoute { target: TransferTarget::ReceiveView, notify }
        },
        Some(TransferType::Outbound) => TransferRoute { target: TransferTarget::SendView, notify: None },
        None => TransferRoute { target: TransferTarget::ReceiveView, notify: None },
    }
}

/// Only an incoming transfer that waits for the user's consent raises the
/// consent notification; every such update from the engine that carries
/// its metadata raises it.
pub proof fn law_consent_notification_only_when_waiting(msg: ChannelMessage)
    ensures
        needs_consent_notification(msg) ==> msg.state == Some(State::WaitingForUserConsent),
        needs_consent_notification(msg) ==> msg.rtype == Some(TransferType::Inbound),
        msg.state != Some(State::WaitingForUserConsent) ==> !needs_consent_notification(msg),
        msg.direction == ChannelDirection::LibToFront && msg.rtype == Some(TransferType::Inbound)
            && msg.state == Some(State::WaitingForUserConsent) && msg.meta is Some ==> needs_consent_notification(msg),
{
}

/// The text of the consent notification: `<sender> wants to share`.
pub fn consent_notification_body(sender_name: &str) -> (body: String)
    ensures
        body@ == sender_name@ + " wants to share"@,
{
    let mut body = String::from_str(sender_name);
    body.append(" wants to share");
    body
}

/// What closing the main window does.
#[derive(Clone, Copy, Debug, PartialEq, Eq, Structural)]
pub enum CloseAction {
    /// Hide the window and keep running in the background.
    Hide,
    /// Let the window close.
    Close,
}

/// The main window is being closed at the given size: the size is saved
/// (when sizes are remembered), and the window only hides when the app
/// keeps running on close.
pub fn on_close_request(s: &mut AppSettings, width: i32, height: i32, maximized: bool) -> (a: CloseAction)
    ensures
        *final(s) == (if old(s).remember_window_size {
            with_window(*old(s), width, height, maximized)
        } else {
            *old(s)
        }),
        a == (if old(s).keep_running_on_close {
            CloseAction::Hide
        } else {
            CloseAction::Close
        }),
{
    crate::settings::save_window_state(s, width, height, maximized);
    if crate::settings::get_keep_running_on_close(s) {
        CloseAction::Hide
    } else {
        CloseAction::Close
    }
}

/// What switching pages of the main view stack does to discovery.
#[derive(Clone, Copy, Debug, PartialEq, Eq, Structural)]
pub enum PageAction {
    /// The page did not change.
    Ignore,
    /// The send page became visible: start discovery.
    StartDiscovery,
    /// Another page became visible: stop discovery.
    StopDiscovery,
}

/// The page of the main view stack that was last seen.
pub struct PageTracker {
    pub last_page: Option<String>,
}

pub open spec fn same_page(a: Option<String>, b: Option<String>) -> bool {
    match (a, b) {
        (Some(x), Some(y)) => x@ == y@,
        (None, None) => true,
        _ => false,
    }
}

impl PageTracker {
    pub fn new() -> (t: PageTracker)
        ensures
            t.last_page is None,
    {
        PageTracker { last_page: None }
    }

    /// The stack now shows `current`. A repeated notification for the same
    /// page is ignored; the send page starts discovery, any other stops it.
    pub fn on_visible_page(&mut self, current: Option<String>) -> (a: PageAction)
        ensures
            same_page(old(self).last_page, current) ==> a == PageAction::Ignore && final(self).last_page
                == old(self).last_page,
            !same_page(old(self).last_page, current) ==> final(self).last_page == current && a == (
            match current {
                Some(p) => if p@ == "send"@ {
                    PageAction::StartDiscovery
                } else {
                    PageAction::StopDiscovery
                },
                None => PageAction::StopDiscovery,
            }),
    {
        let same = match (&self.last_page, &current) {
            (Some(x), Some(y)) => *x == *y,
            (None, None) => true,
            _ => false,
        };
        if same {
            return PageAction::Ignore;
        }
        let action = match &current {
            Some(p) => if str_eq(p.as_str(), "send") {
                PageAction::StartDiscovery
            } else {
                PageAction::StopDiscovery
            },
            None => PageAction::StopDiscovery,
        };
        self.last_page = current;
        action
    }
}

/// Whether discovery runs, and whether a delayed start is scheduled.
pub struct DiscoveryState {
    pub active: bool,
    pub pending_start: bool,
}

/// What the send view does to start discovery.
#[derive(Clone, Copy, Debug, PartialEq, Eq, Structural)]
pub enum StartStep {
    /// Discovery already runs: nothing to do.
    AlreadyActive,
    /// Send a start request; `cancel_pending` says whether a scheduled
    /// start must be removed first.
    Send { cancel_pending: bool },
}

impl DiscoveryState {
    pub fn new() -> (d: DiscoveryState)
        ensures
            !d.active,
            !d.pending_start,
    {
        DiscoveryState { active: false, pending_start: false }
    }

    /// The send page was shown.
    pub fn start_discovery(&mut self) -> (step: StartStep)
        ensures
            old(self).active ==> step == StartStep::AlreadyActive && *final(self) == *old(self),
            !old(self).active ==> step == (StartStep::Send { cancel_pending: old(self).pending_start })
                && !final(self).pending_start && !final(self).active,
    {
        if self.active {
            return StartStep::AlreadyActive;
        }
        let cancel_pending = self.pending_start;
        self.pending_start = false;
        StartStep::Send { cancel_pending }
    }

    /// The outcome of sending a start request: discovery runs once the
    /// request went out.
    pub fn start_sent(&mut self, delivered: bool)
        ensures
            final(self).active == (old(self).active || delivered),
            final(self).pending_start == old(self).pending_start,
    {
        if delivered {
            self.active = true;
        }
    }

    /// The send page was left: returns whether a scheduled start must be
    /// removed; a stop request is sent next.
    pub fn stop_discovery(&mut self) -> (cancel_pending: bool)
        ensures
            cancel_pending == old(self).pending_start,
            !final(self).pending_start,
            final(self).active == old(self).active,
    {
        let cancel_pending = self.pending_start;
        self.pending_start = false;
        cancel_pending
    }

    /// The outcome of sending a stop request: discovery is off once the
    /// request went out.
    pub fn stop_sent(&mut self, delivered: bool)
        ensures
            final(self).active == (old(self).active && !delivered),
            final(self).pending_start == old(self).pending_start,
    {
        if delivered {
            self.active = false;
        }
    }

    /// The refresh button: a running discovery gets a stop request and
    /// counts as stopped, a scheduled start is removed and a new one is
    /// scheduled. Returns whether to send the stop request and whether to
    /// remove a scheduled start.
    pub fn refresh(&mut self) -> (r: (bool, bool))
        ensures
            r == (old(self).active, old(self).pending_start),
            !final(self).active,
            final(self).pending_start,
    {
        let send_stop = self.active;
        self.active = false;
        let cancel_pending = self.pending_start;
        self.pending_start = true;
        (send_stop, cancel_pending)
    }

    /// The scheduled start fires: returns whether to send a start request
    /// (only when discovery is not running yet).
    pub fn scheduled_start(&mut self) -> (send_start: bool)
        ensures
            send_start == !old(self).active,
            !final(self).pending_start,
            final(self).active == old(self).active,
    {
        self.pending_start = false;
        !self.active
    }
}

/// The window's style sheet: the template with each `__FONT_SIZE_PX__`
/// replaced by the body font size in pixels.
pub fn custom_css(template: &str, s: &AppSettings) -> (css: String)
    ensures
        css@ == replaced(template@, "__FONT_SIZE_PX__"@, int_text(font_px_of(s.font_size) as int)),
{
    let px = int_to_string(font_size_css_px(s));
    proof {
        reveal_strlit("__FONT_SIZE_PX__");
    }
    replace_all(template, "__FONT_SIZE_PX__", px.as_str())
}

} // verus!
