//! The settings window: at most one at any time.

use vstd::prelude::*;

verus! {

/// Whether the settings window exists.
#[derive(Clone, Copy, Debug, PartialEq, Eq, Structural)]
pub enum WindowSession {
    /// No settings window exists: the state a run starts in.
    Absent,
    /// The settings window exists.
    Present,
}

/// How a window is built.
#[derive(Debug)]
pub struct WindowConfig {
    /// The name the window is registered under.
    pub label: String,
    /// The route of the user interface that the window shows.
    pub route: String,
    pub title: String,
    /// Width of the window when it opens, in logical units.
    pub width: u32,
    /// Height of the window when it opens, in logical units.
    pub height: u32,
    pub resizable: bool,
}

/// What the caller does to the window registry.
#[derive(Debug)]
pub enum WindowAction {
    /// Build a window and register it.
    Create(WindowConfig),
    /// Show the registered window again and give it the focus.
    Refocus,
}

/// The name the settings window is registered under.
pub open spec fn settings_label() -> Seq<char> {
    "settings"@
}

/// The route the settings window shows.
pub open spec fn settings_route() -> Seq<char> {
    "index.html?settings=1"@
}

/// The title of the settings window.
pub open spec fn settings_title() -> Seq<char> {
    "\u{41d}\u{430}\u{43b}\u{430}\u{448}\u{442}\u{443}\u{432}\u{430}\u{43d}\u{43d}\u{44f}"@
}

impl WindowConfig {
    /// Is this how the settings window is built: under its fixed name,
    /// route and title, 860 by 760, resizable?
    pub open spec fn is_settings(&self) -> bool {
        &&& self.label@ == settings_label()
        &&& self.route@ == settings_route()
        &&& self.title@ == settings_title()
        &&& self.width == 860
        &&& self.height == 760
        &&& self.resizable
    }
}

/// The session after a request to open the settings window: present,
/// whatever it was.
pub open spec fn session_after_open(session: WindowSession) -> WindowSession {
    WindowSession::Present
}

/// How many windows a request to open the settings window builds: one
/// where there is none, else none.
pub open spec fn windows_built(session: WindowSession) -> nat {
    match session {
        WindowSession::Absent => 1,
        WindowSession::Present => 0,
    }
}

/// How many windows `requests` requests to open the settings window build,
/// one after the other, from a session on.
pub open spec fn windows_built_by(session: WindowSession, requests: nat) -> nat
    decreases requests,
{
    if requests == 0 {
        0
    } else {
        windows_built(session) + windows_built_by(
            session_after_open(session),
            (requests - 1) as nat,
        )
    }
}

/// How many settings windows exist in a session.
pub open spec fn window_count(session: WindowSession) -> nat {
    match session {
        WindowSession::Absent => 0,
        WindowSession::Present => 1,
    }
}

impl WindowAction {
    /// How many windows the action builds.
    pub open spec fn built(&self) -> nat {
        match self {
            WindowAction::Create(_) => 1,
            WindowAction::Refocus => 0,
        }
    }
}

/// How the settings window is built.
pub fn settings_window() -> (config: WindowConfig)
    ensures
        config.is_settings(),
{
    WindowConfig {
        label: "settings".to_string(),
        route: "index.html?settings=1".to_string(),
        title: "\u{41d}\u{430}\u{43b}\u{430}\u{448}\u{442}\u{443}\u{432}\u{430}\u{43d}\u{43d}\u{44f}".to_string(),
        width: 860,
        height: 760,
        resizable: true,
    }
}

/// Handles a request to open the settings window. Where there is none, the
/// caller is told to build it; where there is one, to show and focus it.
/// Either way the session is present afterwards, with one window.
pub fn open_settings_window(session: WindowSession) -> (next: (WindowSession, WindowAction))
    ensures
        next.0 == session_after_open(session),
        next.1.built() == windows_built(session),
        next.1 matches WindowAction::Create(config) ==> config.is_settings(),
{
    match session {
        WindowSession::Absent => (WindowSession::Present, WindowAction::Create(settings_window())),
        WindowSession::Present => (WindowSession::Present, WindowAction::Refocus),
    }
}

/// A request to open the settings window leaves exactly one window: the
/// windows that were there and the windows it builds make one.
pub proof fn lemma_open_leaves_one_window(session: WindowSession)
    ensures
        window_count(session) + windows_built(session) == 1,
        window_count(session_after_open(session)) == 1,
{
}

/// Opening twice is opening once: the second request finds the window
/// present, builds none and leaves the session as the first left it.
pub proof fn lemma_open_twice(session: WindowSession)
    ensures
        session_after_open(session_after_open(session)) == session_after_open(session),
        windows_built(session_after_open(session)) == 0,
        windows_built(session) + windows_built(session_after_open(session)) <= 1,
{
}

/// However many requests to open the settings window follow each other,
/// one at least, there is exactly one window afterwards: the first request
/// builds it unless it was there, and no later one builds another.
pub proof fn lemma_opens_leave_one_window(session: WindowSession, requests: nat)
    requires
        requests >= 1,
    ensures
        window_count(session) + windows_built_by(session, requests) == 1,
    decreases requests,
{
    if requests > 1 {
        lemma_opens_leave_one_window(session_after_open(session), (requests - 1) as nat);
    } else {
        assert(windows_built_by(session_after_open(session), 0) == 0);
    }
}

} // verus!
