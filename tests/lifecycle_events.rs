use orbital_wallpaper::install::{install_request, install_verdict};
use orbital_wallpaper::error::{Platform, WallpaperError};
use orbital_wallpaper::lifecycle::{
    menu_command, same_text, MenuCommand, UiAction, UiEvent, Visibility, WindowLifecycle, EXIT_OK,
};

#[test]
fn menu_ids_name_commands() {
    assert_eq!(menu_command("show"), MenuCommand::Show);
    assert_eq!(menu_command("quit"), MenuCommand::Quit);
    assert_eq!(menu_command("Show"), MenuCommand::Other);
    assert_eq!(menu_command("quit "), MenuCommand::Other);
    assert_eq!(menu_command(""), MenuCommand::Other);
}

#[test]
fn same_text_compares_whole_strings() {
    assert!(same_text("abc", "abc"));
    assert!(!same_text("abc", "ab"));
    assert!(!same_text("ab", "abc"));
    assert!(same_text("", ""));
}

#[test]
fn quit_exits_with_status_zero() {
    let mut w = WindowLifecycle::new();
    assert_eq!(w.handle(UiEvent::Menu(MenuCommand::Quit), true), UiAction::Exit(0));
    assert_eq!(EXIT_OK, 0);
    let mut h = WindowLifecycle { visibility: Visibility::Hidden };
    assert_eq!(h.handle(UiEvent::Menu(MenuCommand::Quit), false), UiAction::Exit(0));
}

#[test]
fn show_when_visible_stays_visible() {
    let mut w = WindowLifecycle::new();
    assert_eq!(w.visibility, Visibility::Visible);
    assert_eq!(w.handle(UiEvent::Menu(MenuCommand::Show), true), UiAction::ShowAndFocus);
    assert_eq!(w.visibility, Visibility::Visible);
}

#[test]
fn close_hides_then_show_restores() {
    let mut w = WindowLifecycle::new();
    assert_eq!(w.handle(UiEvent::CloseRequested, true), UiAction::HideAndKeepOpen);
    assert_eq!(w.visibility, Visibility::Hidden);
    assert_eq!(w.handle(UiEvent::Menu(MenuCommand::Show), true), UiAction::ShowAndFocus);
    assert_eq!(w.visibility, Visibility::Visible);
}

#[test]
fn show_without_window_is_ignored() {
    let mut w = WindowLifecycle { visibility: Visibility::Hidden };
    assert_eq!(w.handle(UiEvent::Menu(MenuCommand::Show), false), UiAction::Ignore);
    assert_eq!(w.visibility, Visibility::Hidden);
}

#[test]
fn unknown_menu_entry_is_ignored() {
    let mut w = WindowLifecycle::new();
    assert_eq!(w.handle(UiEvent::Menu(menu_command("about")), true), UiAction::Ignore);
    assert_eq!(w.visibility, Visibility::Visible);
}

#[test]
fn install_depends_on_platform() {
    assert_eq!(install_request(Platform::Windows), Ok(()));
    assert_eq!(install_request(Platform::Other), Err(WallpaperError::UnsupportedPlatform));
}

#[test]
fn install_failure_keeps_message() {
    assert_eq!(install_verdict(Ok(())), Ok(()));
    assert_eq!(
        install_verdict(Err("access denied".to_string())),
        Err(WallpaperError::InstallError("access denied".to_string()))
    );
}
