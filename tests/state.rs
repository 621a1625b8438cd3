use file_mover::file::{File, FileExtension};
use file_mover::file_list::FileListType;
use file_mover::state::{Action, App, KeyCode, KeyInput, KeyKind};
use file_mover::style::{alternate_colors, get_extension_color, Rgb, RowShade};

fn press(code: KeyCode) -> KeyInput {
    KeyInput { code, control_only: false, kind: KeyKind::Press }
}

fn file(name: &str, is_selected: bool) -> File {
    File { path: format!("/s/{}.txt", name), name: name.to_string(), extension: "txt".to_string(), is_selected }
}

fn two_list_app() -> App {
    let mut app = App::new();
    app.running = true;
    app.files_from.items = vec![file("a", true), file("b", false)];
    app.files_from.cursor = Some(0);
    app.files_from.path = "/s".to_string();
    app.files_to.items = vec![file("c", false)];
    app.files_to.cursor = Some(0);
    app.files_to.path = "/t".to_string();
    app
}

#[test]
fn new_app_is_idle() {
    let app = App::new();
    assert!(!app.running);
    assert!(!app.show_popup);
    assert!(app.files_from.items.is_empty());
    assert!(app.files_to.items.is_empty());
}

#[test]
fn quit_key_stops() {
    let mut app = two_list_app();
    assert_eq!(app.on_key_event(press(KeyCode::Char('q'))), Action::Nothing);
    assert!(!app.running);
}

#[test]
fn arrows_move_source_cursor() {
    let mut app = two_list_app();
    app.on_key_event(press(KeyCode::Down));
    assert_eq!(app.files_from.cursor, Some(1));
    app.on_key_event(press(KeyCode::Up));
    assert_eq!(app.files_from.cursor, Some(0));
    assert_eq!(app.files_to.cursor, Some(0));
}

#[test]
fn space_toggles_under_cursor() {
    let mut app = two_list_app();
    app.on_key_event(press(KeyCode::Char(' ')));
    assert!(!app.files_from.items[0].is_selected);
    app.on_key_event(press(KeyCode::Char(' ')));
    assert!(app.files_from.items[0].is_selected);
}

#[test]
fn swap_key_exchanges_lists() {
    let mut app = two_list_app();
    app.files_to.items[0].is_selected = true;
    app.on_key_event(press(KeyCode::Char('s')));
    assert_eq!(app.files_from.path, "/t");
    assert_eq!(app.files_to.path, "/s");
    assert!(!app.files_from.items[0].is_selected);
    assert!(app.files_to.items[0].is_selected);
}

#[test]
fn swap_twice_restores_contents_but_not_marks() {
    let mut app = two_list_app();
    app.swap_file_lists();
    app.swap_file_lists();
    assert_eq!(app.files_from.path, "/s");
    assert_eq!(app.files_to.path, "/t");
    assert_eq!(app.files_from.items.len(), 2);
    assert_eq!(app.files_from.items[0].name, "a");
    assert!(!app.files_from.items[0].is_selected);
    assert_eq!(app.files_from.cursor, Some(0));
    assert_eq!(app.files_to.items[0].name, "c");
}

#[test]
fn f_keys_ask_for_folders() {
    let mut app = two_list_app();
    assert_eq!(app.on_key_event(press(KeyCode::Char('f'))), Action::PickFolder(FileListType::FileListFrom));
    let ctrl_f = KeyInput { code: KeyCode::Char('f'), control_only: true, kind: KeyKind::Press };
    assert_eq!(app.on_key_event(ctrl_f), Action::PickFolder(FileListType::FileListTo));
}

#[test]
fn enter_opens_popup_and_yes_moves() {
    let mut app = two_list_app();
    assert_eq!(app.on_key_event(press(KeyCode::Enter)), Action::Nothing);
    assert!(app.show_popup);
    assert_eq!(app.on_key_event(press(KeyCode::Char('Y'))), Action::MoveFiles);
    assert!(!app.show_popup);
}

#[test]
fn no_and_escape_close_popup() {
    let mut app = two_list_app();
    for code in [KeyCode::Char('n'), KeyCode::Char('N'), KeyCode::Esc] {
        app.show_popup = true;
        assert_eq!(app.on_key_event(press(code)), Action::Nothing);
        assert!(!app.show_popup);
        assert_eq!(app.files_from.items.len(), 2);
    }
}

#[test]
fn popup_ignores_navigation_and_toggle() {
    let mut app = two_list_app();
    app.show_popup = true;
    for code in [KeyCode::Down, KeyCode::Up, KeyCode::Char(' '), KeyCode::Char('s'), KeyCode::Char('q'), KeyCode::Enter] {
        assert_eq!(app.on_key_event(press(code)), Action::Nothing);
    }
    assert!(app.show_popup);
    assert!(app.running);
    assert_eq!(app.files_from.cursor, Some(0));
    assert!(app.files_from.items[0].is_selected);
    assert_eq!(app.files_from.path, "/s");
}

#[test]
fn normal_ignores_answers() {
    let mut app = two_list_app();
    for code in [KeyCode::Char('y'), KeyCode::Char('Y'), KeyCode::Char('n'), KeyCode::Char('N'), KeyCode::Esc] {
        assert_eq!(app.on_key_event(press(code)), Action::Nothing);
    }
    assert!(!app.show_popup);
    assert!(app.running);
    assert_eq!(app.files_from.items.len(), 2);
    assert!(app.files_from.items[0].is_selected);
}

#[test]
fn releases_and_repeats_are_ignored() {
    let mut app = two_list_app();
    let release = KeyInput { code: KeyCode::Char('q'), control_only: false, kind: KeyKind::Release };
    let repeat = KeyInput { code: KeyCode::Down, control_only: false, kind: KeyKind::Repeat };
    assert_eq!(app.on_key_event(release), Action::Nothing);
    assert_eq!(app.on_key_event(repeat), Action::Nothing);
    assert!(app.running);
    assert_eq!(app.files_from.cursor, Some(0));
}

#[test]
fn extension_colors() {
    assert_eq!(get_extension_color(FileExtension::Jpg), Rgb { r: 0, g: 204, b: 255 });
    assert_eq!(get_extension_color(FileExtension::Webp), Rgb { r: 255, g: 255, b: 153 });
    assert_eq!(get_extension_color(FileExtension::Png), Rgb { r: 204, g: 153, b: 255 });
    assert_eq!(get_extension_color(FileExtension::Txt), Rgb { r: 255, g: 204, b: 153 });
    assert_eq!(get_extension_color(FileExtension::NotImplemented), Rgb { r: 255, g: 255, b: 255 });
}

#[test]
fn rows_alternate() {
    assert_eq!(alternate_colors(0), RowShade::Normal);
    assert_eq!(alternate_colors(1), RowShade::Alternate);
    assert_eq!(alternate_colors(6), RowShade::Normal);
}
