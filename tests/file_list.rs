use file_mover::file::File;
use file_mover::file_list::{FileList, FileListType};

fn file(name: &str, extension: &str, is_selected: bool) -> File {
    File {
        path: format!("/src/{}.{}", name, extension),
        name: name.to_string(),
        extension: extension.to_string(),
        is_selected,
    }
}

fn list_of(files: Vec<File>) -> FileList {
    let mut l = FileList::new();
    l.replace_contents(files, "/src".to_string());
    l
}

#[test]
fn init_is_unselected() {
    let f = File::init("/d/a.txt".to_string(), "a".to_string(), "txt".to_string());
    assert_eq!(f.path, "/d/a.txt");
    assert_eq!(f.name, "a");
    assert_eq!(f.extension, "txt");
    assert!(!f.is_selected);
}

#[test]
fn toggle_selection_flips_and_restores() {
    let mut f = File::init("/d/a.txt".to_string(), "a".to_string(), "txt".to_string());
    f.toggle_selection();
    assert!(f.is_selected);
    f.toggle_selection();
    assert!(!f.is_selected);
    assert_eq!(f.name, "a");
}

#[test]
fn new_list_is_empty() {
    let l = FileList::new();
    assert!(l.items.is_empty());
    assert_eq!(l.cursor, None);
    assert_eq!(l.path, "");
    assert_eq!(FileListType::default(), FileListType::FileListFrom);
}

#[test]
fn select_on_empty_list_is_noop() {
    let mut l = FileList::new();
    l.select_next();
    assert_eq!(l.cursor, None);
    l.select_previous();
    assert_eq!(l.cursor, None);
}

#[test]
fn select_next_stops_at_last() {
    let mut l = list_of(vec![file("a", "txt", false), file("b", "jpg", false), file("c", "png", false)]);
    assert_eq!(l.cursor, Some(0));
    l.select_next();
    assert_eq!(l.cursor, Some(1));
    l.select_next();
    assert_eq!(l.cursor, Some(2));
    l.select_next();
    assert_eq!(l.cursor, Some(2));
}

#[test]
fn select_previous_stops_at_first() {
    let mut l = list_of(vec![file("a", "txt", false), file("b", "jpg", false)]);
    l.select_next();
    assert_eq!(l.cursor, Some(1));
    l.select_previous();
    assert_eq!(l.cursor, Some(0));
    l.select_previous();
    assert_eq!(l.cursor, Some(0));
}

#[test]
fn select_from_no_cursor() {
    let mut l = FileList { items: vec![file("a", "txt", false), file("b", "jpg", false)], cursor: None, path: String::new() };
    l.select_next();
    assert_eq!(l.cursor, Some(0));
    l.cursor = None;
    l.select_previous();
    assert_eq!(l.cursor, Some(1));
}

#[test]
fn cursor_stays_in_range_over_many_steps() {
    let mut l = list_of(vec![file("a", "txt", false), file("b", "jpg", false), file("c", "png", false)]);
    let steps = [true, true, true, true, false, true, false, false, false, false, true];
    for down in steps {
        if down {
            l.select_next();
        } else {
            l.select_previous();
        }
        let i = l.cursor.expect("cursor present");
        assert!(i < 3);
    }
}

#[test]
fn change_status_twice_restores_and_touches_only_cursor() {
    let mut l = list_of(vec![file("a", "txt", false), file("b", "jpg", true), file("c", "png", false)]);
    l.select_next();
    l.change_status();
    assert!(!l.items[0].is_selected);
    assert!(!l.items[1].is_selected);
    assert!(!l.items[2].is_selected);
    l.change_status();
    assert!(!l.items[0].is_selected);
    assert!(l.items[1].is_selected);
    assert!(!l.items[2].is_selected);
}

#[test]
fn change_status_without_cursor_is_noop() {
    let mut l = FileList { items: vec![file("a", "txt", false)], cursor: None, path: String::new() };
    l.change_status();
    assert!(!l.items[0].is_selected);
}

#[test]
fn selected_count_empty_is_zero() {
    let l = FileList::new();
    assert_eq!(l.selected_count(), 0);
}

#[test]
fn selected_count_two_of_three() {
    let l = list_of(vec![file("a", "txt", true), file("b", "jpg", false), file("c", "png", true)]);
    assert_eq!(l.selected_count(), 2);
}

#[test]
fn clear_selection_unmarks_all() {
    let mut l = list_of(vec![file("a", "txt", true), file("b", "jpg", true)]);
    l.clear_selection();
    assert_eq!(l.selected_count(), 0);
    assert_eq!(l.items.len(), 2);
    assert_eq!(l.items[1].name, "b");
}

#[test]
fn replace_contents_resets_cursor() {
    let mut l = list_of(vec![file("a", "txt", false), file("b", "jpg", false)]);
    l.select_next();
    l.replace_contents(vec![file("c", "png", false)], "/other".to_string());
    assert_eq!(l.cursor, Some(0));
    assert_eq!(l.path, "/other");
    l.replace_contents(Vec::new(), "/empty".to_string());
    assert_eq!(l.cursor, None);
    assert!(l.items.is_empty());
}

#[test]
fn duplicate_keeps_fields() {
    let f = file("a", "txt", true);
    let g = f.duplicate();
    assert_eq!(g.path, f.path);
    assert_eq!(g.name, "a");
    assert!(g.is_selected);
}
