//! The tray menu and the main window's lifecycle: which menu entry an event
//! names, and how the window's visibility answers tray and close events.

use vstd::prelude::*;
use crate::text::has_prefix;

verus! {

pub const SHOW_ID: &'static str = "show";

pub const QUIT_ID: &'static str = "quit";

pub const SHOW_LABEL: &'static str = "Show";

pub const QUIT_LABEL: &'static str = "Quit";

/// The exit status of a normal quit.
pub const EXIT_OK: i32 = 0;

#[derive(Clone, Copy, Debug, PartialEq, Eq, Structural)]
pub enum Visibility {
    Visible,
    Hidden,
}

/// A tray menu entry, by its identity.
#[derive(Clone, Copy, Debug, PartialEq, Eq, Structural)]
pub enum MenuCommand {
    Show,
    Quit,
    Other,
}

#[derive(Clone, Copy, Debug, PartialEq, Eq, Structural)]
pub enum UiEvent {
    Menu(MenuCommand),
    /// The user asked to close the main window.
    CloseRequested,
}

/// What the event loop does in answer to an event.
#[derive(Clone, Copy, Debug, PartialEq, Eq, Structural)]
pub enum UiAction {
    /// Show the main window and give it input focus.
    ShowAndFocus,
    /// Hide the main window and stop the default close, keeping the window
    /// and the process alive.
    HideAndKeepOpen,
    /// End the process with this status.
    Exit(i32),
    Ignore,
}

pub open spec fn command_of(id: Seq<char>) -> MenuCommand {
    if id == SHOW_ID@ {
        MenuCommand::Show
    } else if id == QUIT_ID@ {
        MenuCommand::Quit
    } else {
        MenuCommand::Other
    }
}

/// The transition table: from visibility `v`, on `ev`, with or without a
/// main window still in existence, the new visibility and the action.
pub open spec fn ui_next(v: Visibility, ev: UiEvent, window_exists: bool) -> (Visibility, UiAction) {
    match ev {
        UiEvent::Menu(MenuCommand::Show) => if window_exists {
            (Visibility::Visible, UiAction::ShowAndFocus)
        } else {
            (v, UiAction::Ignore)
        },
        UiEvent::Menu(MenuCommand::Quit) => (v, UiAction::Exit(EXIT_OK)),
        UiEvent::Menu(MenuCommand::Other) => (v, UiAction::Ignore),
        UiEvent::CloseRequested => (Visibility::Hidden, UiAction::HideAndKeepOpen),
    }
}

pub fn same_text(a: &str, b: &str) -> (r: bool)
    ensures
        r == (a@ == b@),
{
    if a.unicode_len() != b.unicode_len() {
        return false;
    }
    let r = has_prefix(a, b);
    assert(a@.subrange(0, a@.len() as int) =~= a@);
    r
}

/// The menu entry that an event's identity names.
pub fn menu_command(id: &str) -> (r: MenuCommand)
    ensures
        r == command_of(id@),
{
    if same_text(id, SHOW_ID) {
        MenuCommand::Show
    } else if same_text(id, QUIT_ID) {
        MenuCommand::Quit
    } else {
        MenuCommand::Other
    }
}

/// The main window's visibility, owned by the event loop's context.
#[derive(Clone, Copy, Debug, PartialEq, Eq, Structural)]
pub struct WindowLifecycle {
    pub visibility: Visibility,
}

impl WindowLifecycle {
    /// The main window starts out visible.
    pub fn new() -> (r: WindowLifecycle)
        ensures
            r.visibility == Visibility::Visible,
    {
        WindowLifecycle { visibility: Visibility::Visible }
    }

    /// Handles one event and returns what the event loop must do.
    pub fn handle(&mut self, ev: UiEvent, window_exists: bool) -> (r: UiAction)
        ensures
            (final(self).visibility, r) == ui_next(old(self).visibility, ev, window_exists),
    {
        match ev {
            UiEvent::Menu(MenuCommand::Show) => {
                if window_exists {
                    self.visibility = Visibility::Visible;
                    UiAction::ShowAndFocus
                } else {
                    UiAction::Ignore
                }
            },
            UiEvent::Menu(MenuCommand::Quit) => UiAction::Exit(EXIT_OK),
            UiEvent::Menu(MenuCommand::Other) => UiAction::Ignore,
            UiEvent::CloseRequested => {
                self.visibility = Visibility::Hidden;
                UiAction::HideAndKeepOpen
            },
        }
    }
}

/// Quit ends the process with status 0, whatever the window's state.
pub proof fn quit_exits_with_success(v: Visibility, window_exists: bool)
    ensures
        ui_next(v, UiEvent::Menu(MenuCommand::Quit), window_exists).1 == UiAction::Exit(0),
{
}

/// Show on a window that is already visible leaves it visible.
pub proof fn show_when_visible_is_no_op(window_exists: bool)
    ensures
        ui_next(Visibility::Visible, UiEvent::Menu(MenuCommand::Show), window_exists).0
            == Visibility::Visible,
{
}

/// Closing a visible window hides it without ending the process, and a later
/// Show makes it visible again.
pub proof fn close_hides_and_show_restores()
    ensures
        ({
            let (v1, a1) = ui_next(Visibility::Visible, UiEvent::CloseRequested, true);
            let (v2, a2) = ui_next(v1, UiEvent::Menu(MenuCommand::Show), true);
            &&& v1 == Visibility::Hidden
            &&& a1 == UiAction::HideAndKeepOpen
            &&& v2 == Visibility::Visible
            &&& a2 == UiAction::ShowAndFocus
        }),
{
}

/// Only Quit ends the process: every other event leaves it running.
pub proof fn only_quit_exits(v: Visibility, ev: UiEvent, window_exists: bool)
    requires
        ev != UiEvent::Menu(MenuCommand::Quit),
    ensures
        ui_next(v, ev, window_exists).1 !is Exit,
{
}

} // verus!
