//! What the window is told once the backend has been started.
//!
//! The port reaches the page twice over: as a global that a page can read
//! before any event machinery is up, and as an event for listeners. A hint on
//! where the log lives goes along. Nothing waits for an answer, and with no
//! window there is nobody to tell.

use crate::decimal::{decimal, decimal_text};
use vstd::prelude::*;
use vstd::string::*;

verus! {

/// The label of the window that is told.
pub const MAIN_WINDOW: &'static str = "main";

/// The payload of the readiness event.
#[derive(Clone, Copy, Debug, PartialEq, Eq, Structural)]
pub struct ServerInfo {
    pub port: u16,
}

/// One message to the window.
#[derive(Clone, Debug, PartialEq, Eq)]
pub enum Notice {
    /// Run this script in the page.
    Eval(String),
    /// Emit the event of this name with this payload.
    Emit { event: String, payload: ServerInfo },
}

/// What a [`Notice`] stands for.
pub enum NoticeView {
    Eval(Seq<char>),
    Emit { event: Seq<char>, payload: ServerInfo },
}

impl View for Notice {
    type V = NoticeView;

    open spec fn view(&self) -> NoticeView {
        match self {
            Notice::Eval(script) => NoticeView::Eval(script@),
            Notice::Emit { event, payload } => NoticeView::Emit {
                event: event@,
                payload: *payload,
            },
        }
    }
}

impl DeepView for Notice {
    type V = NoticeView;

    open spec fn deep_view(&self) -> NoticeView {
        self.view()
    }
}

/// The name of the readiness event.
pub open spec fn ready_event() -> Seq<char> {
    "moondream://server-ready"@
}

/// The script that sets the port global to `port`.
pub open spec fn port_script(port: u16) -> Seq<char> {
    "window.__MOONDREAM_PORT__ = "@ + decimal(port as nat) + ";"@
}

/// The script that sets the log hint global: the log file's place below the
/// user's home, for the application's identifier.
pub open spec fn log_hint_script() -> Seq<char> {
    "window.__MOONDREAM_LOG_HINT__ = \"~/Library/Application Support/"@
        + "com.moondream.desktop"@ + "/data/logs/next-server.log\";"@
}

/// The messages that announce `port`, in order: the port global, the log hint
/// global, the readiness event. None without a window.
pub open spec fn readiness(port: u16, window_present: bool) -> Seq<NoticeView> {
    if window_present {
        seq![
            NoticeView::Eval(port_script(port)),
            NoticeView::Eval(log_hint_script()),
            NoticeView::Emit { event: ready_event(), payload: ServerInfo { port } },
        ]
    } else {
        Seq::empty()
    }
}

/// Builds the script that sets the port global.
pub fn build_port_script(port: u16) -> (script: String)
    ensures
        script@ == port_script(port),
{
    let mut script = "window.__MOONDREAM_PORT__ = ".to_owned();
    let digits = decimal_text(port);
    script.append(digits.as_str());
    script.append(";");
    script
}

/// Builds the script that sets the log hint global.
pub fn build_log_hint_script() -> (script: String)
    ensures
        script@ == log_hint_script(),
{
    let mut script = "window.__MOONDREAM_LOG_HINT__ = \"~/Library/Application Support/".to_owned();
    script.append("com.moondream.desktop");
    script.append("/data/logs/next-server.log\";");
    script
}

/// Builds the messages that announce `port` to the window, if there is one.
pub fn readiness_notices(port: u16, window_present: bool) -> (notices: Vec<Notice>)
    ensures
        notices.deep_view() == readiness(port, window_present),
{
    let mut notices: Vec<Notice> = Vec::new();
    if window_present {
        notices.push(Notice::Eval(build_port_script(port)));
        notices.push(Notice::Eval(build_log_hint_script()));
        notices.push(
            Notice::Emit {
                event: "moondream://server-ready".to_owned(),
                payload: ServerInfo { port },
            },
        );
    }
    assert(notices.deep_view() =~= readiness(port, window_present));
    notices
}

} // verus!
