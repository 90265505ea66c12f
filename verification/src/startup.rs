//! The startup sequencer.
//!
//! On one named in-process signal — sent by the embedded web content once it
//! has finished its own initialization — the application closes its splash
//! window and shows its main window.  Either window may be missing from the
//! host framework's registry at that moment; the corresponding action is then
//! skipped, and no error is surfaced.
//!
//! The registry itself belongs to the host framework.  This module carries
//! the sequencer's whole decision as verified code: from whether each lookup
//! succeeded to the actions requested, and from a registry state to the
//! registry state after one delivery.

use vstd::prelude::*;

verus! {

/// State of one window as the host framework's registry shows it: not
/// present at all, present but not visible, or present and visible.
#[derive(Clone, Copy, Debug, PartialEq, Eq, Structural)]
pub enum WindowState {
    Absent,
    Hidden,
    Visible,
}

impl WindowState {
    /// A window is present when a registry lookup by its label finds it.
    pub open spec fn spec_present(self) -> bool {
        self !is Absent
    }

    /// Whether a registry lookup by this window's label would succeed.
    pub fn present(self) -> (r: bool)
        ensures
            r == self.spec_present(),
    {
        match self {
            WindowState::Absent => false,
            WindowState::Hidden => true,
            WindowState::Visible => true,
        }
    }
}

/// The two windows the application addresses: a splash window shown while
/// the embedded UI loads, and the main window revealed once it is ready.
#[derive(Clone, Copy, Debug, PartialEq, Eq, Structural)]
pub struct WindowSet {
    pub splash: WindowState,
    pub main: WindowState,
}

/// What one delivery of the ready signal asks the host framework to do: at
/// most one close of the splash window and one show of the main window.
#[derive(Clone, Copy, Debug, PartialEq, Eq, Structural)]
pub struct ReadyActions {
    pub close_splash: bool,
    pub show_main: bool,
}

/// Decides the actions for one delivery of the ready signal, given whether
/// the lookup found each window.  A close is requested if and only if the
/// splash window is present, and a show if and only if the main window is
/// present; a missing window is skipped silently.
pub fn on_ready(splash_present: bool, main_present: bool) -> (a: ReadyActions)
    ensures
        a.close_splash == splash_present,
        a.show_main == main_present,
{
    ReadyActions { close_splash: splash_present, show_main: main_present }
}

/// Closing removes a window from the registry.  Close is requested only for
/// a present window; a close of an already-missing window would change
/// nothing, so the result is the same either way.
pub open spec fn spec_close(w: WindowState) -> WindowState {
    WindowState::Absent
}

/// Showing makes a present window visible.  A show of a missing window is a
/// tolerated no-op.
pub open spec fn spec_show(w: WindowState) -> WindowState {
    if w is Absent {
        WindowState::Absent
    } else {
        WindowState::Visible
    }
}

/// The registry after the host framework performs the requested actions:
/// the splash window is closed when a close was requested, and the main
/// window is shown when a show was requested.
pub open spec fn spec_apply_actions(s: WindowSet, a: ReadyActions) -> WindowSet {
    WindowSet {
        splash: if a.close_splash {
            spec_close(s.splash)
        } else {
            s.splash
        },
        main: if a.show_main {
            spec_show(s.main)
        } else {
            s.main
        },
    }
}

/// The registry after one full delivery of the ready signal: each window is
/// looked up, the actions are decided, and the actions are performed.
pub open spec fn spec_deliver_ready(s: WindowSet) -> WindowSet {
    spec_apply_actions(
        s,
        ReadyActions {
            close_splash: s.splash.spec_present(),
            show_main: s.main.spec_present(),
        },
    )
}

/// Performs a decided set of actions against a registry state.
pub fn apply_actions(s: WindowSet, a: ReadyActions) -> (r: WindowSet)
    ensures
        r == spec_apply_actions(s, a),
{
    WindowSet {
        splash: if a.close_splash {
            WindowState::Absent
        } else {
            s.splash
        },
        main: if a.show_main {
            match s.main {
                WindowState::Absent => WindowState::Absent,
                WindowState::Hidden => WindowState::Visible,
                WindowState::Visible => WindowState::Visible,
            }
        } else {
            s.main
        },
    }
}

/// One delivery of the ready signal against a registry state: look both
/// windows up, decide the actions, perform them.  It succeeds on every
/// state; a missing window only makes its action a skip.
pub fn deliver_ready(s: WindowSet) -> (r: WindowSet)
    ensures
        r == spec_deliver_ready(s),
        s.splash.spec_present() ==> r.splash is Absent,
        s.main.spec_present() ==> r.main is Visible,
        !s.splash.spec_present() ==> r.splash == s.splash,
        !s.main.spec_present() ==> r.main == s.main,
{
    let a = on_ready(s.splash.present(), s.main.present());
    apply_actions(s, a)
}

/// When both windows exist, one delivery closes the splash window and shows
/// the main window.
pub proof fn lemma_ready_both_present(s: WindowSet)
    requires
        s.splash.spec_present(),
        s.main.spec_present(),
    ensures
        spec_deliver_ready(s).splash is Absent,
        spec_deliver_ready(s).main is Visible,
{
}

/// When the splash window does not exist, delivery leaves it untouched and
/// still shows the main window.
pub proof fn lemma_ready_splash_missing(s: WindowSet)
    requires
        !s.splash.spec_present(),
        s.main.spec_present(),
    ensures
        spec_deliver_ready(s).splash == s.splash,
        spec_deliver_ready(s).main is Visible,
{
}

/// When the main window does not exist, delivery leaves it untouched and
/// still closes the splash window.
pub proof fn lemma_ready_main_missing(s: WindowSet)
    requires
        s.splash.spec_present(),
        !s.main.spec_present(),
    ensures
        spec_deliver_ready(s).splash is Absent,
        spec_deliver_ready(s).main == s.main,
{
}

/// Delivering the ready signal again changes nothing: close and show are
/// no-op-safe, so the signal may fire any number of times.
pub proof fn lemma_ready_idempotent(s: WindowSet)
    ensures
        spec_deliver_ready(spec_deliver_ready(s)) == spec_deliver_ready(s),
{
}

/// The name of the in-process signal the application listens for.
pub fn ready_event() -> (r: &'static str)
    ensures
        r@ == "frontend-ready"@,
{
    "frontend-ready"
}

/// The label under which the splash window is registered.
pub fn splash_label() -> (r: &'static str)
    ensures
        r@ == "splashscreen"@,
{
    "splashscreen"
}

/// The label under which the main window is registered.
pub fn main_label() -> (r: &'static str)
    ensures
        r@ == "main"@,
{
    "main"
}

} // verus!
