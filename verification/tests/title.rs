use diary_store::title::{title_for, window_title};
use std::path::PathBuf;

#[test]
fn title_with_file_name() {
    assert_eq!(title_for(Some("diary.db".to_string())), "Diary - diary.db");
}

#[test]
fn title_without_file_name() {
    assert_eq!(title_for(None), "Diary");
}

#[test]
fn title_with_empty_file_name() {
    assert_eq!(title_for(Some(String::new())), "Diary - ");
}

#[test]
fn window_title_takes_last_component() {
    assert_eq!(window_title(&PathBuf::from("./diary.db")), "Diary - diary.db");
    assert_eq!(window_title(&PathBuf::from("/home/me/journal/2024.db")), "Diary - 2024.db");
    assert_eq!(window_title(&PathBuf::from("plain")), "Diary - plain");
}

#[test]
fn window_title_of_path_without_name() {
    assert_eq!(window_title(&PathBuf::from("..")), "Diary");
    assert_eq!(window_title(&PathBuf::from("/")), "Diary");
    assert_eq!(window_title(&PathBuf::new()), "Diary");
}
