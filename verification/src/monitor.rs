//! What the monitor does in answer to what happens: the periodic refresh, the tray
//! menu, a click on the tray icon, and closing the window. The caller performs the
//! action and reports the next event.

use vstd::prelude::*;

verus! {

/// How long the monitor waits between two automatic refreshes: 60 seconds.
pub const POLL_INTERVAL_MS: u64 = 60_000;

/// Something that happened to the monitor.
pub enum MonitorEvent {
    /// The application has started.
    Started,
    /// An automatic refresh has finished.
    RefreshDone,
    /// "Abrir monitor" was chosen in the tray menu.
    MenuOpen,
    /// "Atualizar agora" was chosen in the tray menu.
    MenuRefresh,
    /// "Sair" was chosen in the tray menu.
    MenuQuit,
    /// The tray icon was clicked: with the left button or not, on release or on press.
    TrayClick { left: bool, released: bool },
    /// A window is asked to close: the main window or another one.
    CloseRequested { main_window: bool },
    /// Anything else (another menu entry, another tray event).
    Other,
}

/// What the monitor does next.
pub enum MonitorAction {
    /// Read the battery now and publish the snapshot.
    Refresh,
    /// Wait this long, then read the battery and publish the snapshot.
    WaitThenRefresh { millis: u64 },
    /// Bring the main window back: unminimise, show and focus it.
    ShowMainWindow,
    /// Quit the application with this exit code.
    Exit { code: i32 },
    /// Keep the window and hide it: closing leaves the monitor in the tray.
    HideInsteadOfClose,
    /// Nothing.
    Nothing,
}

/// The monitor's answer to `event`.
pub open spec fn monitor_answer(event: MonitorEvent) -> MonitorAction {
    match event {
        MonitorEvent::Started => MonitorAction::Refresh,
        MonitorEvent::RefreshDone => MonitorAction::WaitThenRefresh { millis: POLL_INTERVAL_MS },
        MonitorEvent::MenuOpen => MonitorAction::ShowMainWindow,
        MonitorEvent::MenuRefresh => MonitorAction::Refresh,
        MonitorEvent::MenuQuit => MonitorAction::Exit { code: 0 },
        MonitorEvent::TrayClick { left, released } => if left && released {
            MonitorAction::ShowMainWindow
        } else {
            MonitorAction::Nothing
        },
        MonitorEvent::CloseRequested { main_window } => if main_window {
            MonitorAction::HideInsteadOfClose
        } else {
            MonitorAction::Nothing
        },
        MonitorEvent::Other => MonitorAction::Nothing,
    }
}

/// What the monitor does when `event` happens: it reads the battery at start and
/// then every 60 seconds, on request from the menu, shows its window from the menu
/// or on a left click on the tray icon, quits from the menu, and hides the main
/// window instead of closing it.
pub fn monitor_step(event: MonitorEvent) -> (a: MonitorAction)
    ensures
        a == monitor_answer(event),
{
    match event {
        MonitorEvent::Started => MonitorAction::Refresh,
        MonitorEvent::RefreshDone => MonitorAction::WaitThenRefresh { millis: POLL_INTERVAL_MS },
        MonitorEvent::MenuOpen => MonitorAction::ShowMainWindow,
        MonitorEvent::MenuRefresh => MonitorAction::Refresh,
        MonitorEvent::MenuQuit => MonitorAction::Exit { code: 0 },
        MonitorEvent::TrayClick { left, released } => if left && released {
            MonitorAction::ShowMainWindow
        } else {
            MonitorAction::Nothing
        },
        MonitorEvent::CloseRequested { main_window } => if main_window {
            MonitorAction::HideInsteadOfClose
        } else {
            MonitorAction::Nothing
        },
        MonitorEvent::Other => MonitorAction::Nothing,
    }
}

/// The battery is read automatically: at start, and again 60 seconds after every
/// automatic read has finished.
pub proof fn lemma_refreshes_every_minute()
    ensures
        monitor_answer(MonitorEvent::Started) == MonitorAction::Refresh,
        monitor_answer(MonitorEvent::RefreshDone) == (MonitorAction::WaitThenRefresh {
            millis: 60_000,
        }),
{
}

/// Closing the main window keeps the monitor running in the tray: only the menu's
/// quit entry exits.
pub proof fn lemma_close_keeps_running(event: MonitorEvent)
    ensures
        monitor_answer(event) is Exit ==> event is MenuQuit,
        event matches MonitorEvent::CloseRequested { main_window } && main_window
            ==> monitor_answer(event) is HideInsteadOfClose,
{
}

} // verus!
