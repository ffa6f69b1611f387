use diary_store::error::StoreError;
use diary_store::session::{
    content_outcome, delete_diary, fetch_dates_internal, get_diary_content, open_and_list_dates,
    save_diary_content, search_diary, write_outcome, States,
};
use std::path::PathBuf;

/// Makes the store at `path` an empty one that `key` unlocks.
fn provision(path: &str, key: &str) {
    let conn = rusqlite::Connection::open(path).unwrap();
    conn.pragma_update(None, "key", key).unwrap();
    conn.execute(
        "CREATE TABLE IF NOT EXISTS diary (\"date\" INTEGER PRIMARY KEY, content TEXT)",
        (),
    )
    .unwrap();
    conn.execute("DELETE FROM diary", ()).unwrap();
}

fn store_path(name: &str) -> String {
    format!("/tmp/diary_store_{}.db", name)
}

/// An unlocked session on an empty store of its own.
fn unlocked(name: &str) -> States {
    let path = store_path(name);
    provision(&path, "secret");
    let mut state = States::new(PathBuf::from(path));
    assert_eq!(open_and_list_dates("secret".to_string(), &mut state), Ok(vec![]));
    state
}

fn memory_table() -> rusqlite::Connection {
    let conn = rusqlite::Connection::open_in_memory().unwrap();
    conn.execute("CREATE TABLE diary (\"date\" INTEGER PRIMARY KEY, content TEXT)", ()).unwrap();
    conn
}

#[test]
fn new_session_is_locked() {
    let state = States::new(PathBuf::from("./diary.db"));
    assert!(!state.unlocked());
    assert_eq!(state.db_path(), &PathBuf::from("./diary.db"));
}

#[test]
fn default_session_is_locked() {
    let state = States::default();
    assert!(!state.unlocked());
}

#[test]
fn locked_session_refuses_search() {
    let state = States::new(PathBuf::from(store_path("locked_search")));
    assert_eq!(search_diary(&state, String::new()), Err(StoreError::NotUnlocked));
    assert_eq!(search_diary(&state, "x".to_string()), Err(StoreError::NotUnlocked));
}

#[test]
fn locked_session_refuses_read() {
    let state = States::new(PathBuf::from(store_path("locked_read")));
    assert_eq!(get_diary_content(&state, 20240101), Err(StoreError::NotUnlocked));
}

#[test]
fn locked_session_refuses_save() {
    let mut state = States::new(PathBuf::from(store_path("locked_save")));
    assert_eq!(
        save_diary_content(&mut state, 20240101, "text".to_string()),
        Err(StoreError::NotUnlocked)
    );
    assert!(!state.unlocked());
}

#[test]
fn locked_session_refuses_delete() {
    let mut state = States::new(PathBuf::from(store_path("locked_delete")));
    assert_eq!(delete_diary(20240101, &mut state), Err(StoreError::NotUnlocked));
    assert!(!state.unlocked());
}

#[test]
fn scenario_unlock_save_search_update_delete() {
    let path = store_path("scenario");
    provision(&path, "secret");
    let mut state = States::new(PathBuf::from(path));
    assert_eq!(open_and_list_dates("secret".to_string(), &mut state), Ok(vec![]));
    assert!(state.unlocked());
    assert_eq!(save_diary_content(&mut state, 20240101, "first entry".to_string()), Ok(()));
    assert_eq!(search_diary(&state, "first".to_string()), Ok(vec![20240101]));
    assert_eq!(save_diary_content(&mut state, 20240101, "updated".to_string()), Ok(()));
    assert_eq!(get_diary_content(&state, 20240101), Ok("updated".to_string()));
    assert_eq!(delete_diary(20240101, &mut state), Ok(()));
    assert_eq!(get_diary_content(&state, 20240101), Err(StoreError::EntryNotFound));
}

#[test]
fn unlock_lists_every_date_descending() {
    let path = store_path("unlock_lists");
    let mut state = unlocked("unlock_lists");
    assert_eq!(save_diary_content(&mut state, 20240101, "a".to_string()), Ok(()));
    assert_eq!(save_diary_content(&mut state, 20240301, "b".to_string()), Ok(()));
    assert_eq!(save_diary_content(&mut state, 20231231, "c".to_string()), Ok(()));
    assert_eq!(save_diary_content(&mut state, 20240215, "d".to_string()), Ok(()));
    let expected: Vec<i64> = vec![20240301, 20240215, 20240101, 20231231];
    assert_eq!(search_diary(&state, String::new()), Ok(expected.clone()));
    let mut again = States::new(PathBuf::from(path));
    assert_eq!(open_and_list_dates("secret".to_string(), &mut again), Ok(expected.clone()));
    assert_eq!(search_diary(&again, String::new()), Ok(expected));
}

#[test]
fn wrong_password_leaves_session_locked() {
    let path = store_path("wrong_password");
    provision(&path, "secret");
    let mut state = States::new(PathBuf::from(path));
    assert_eq!(
        open_and_list_dates("wrong".to_string(), &mut state),
        Err(StoreError::AuthenticationFailed)
    );
    assert!(!state.unlocked());
    assert_eq!(search_diary(&state, String::new()), Err(StoreError::NotUnlocked));
    assert_eq!(get_diary_content(&state, 1), Err(StoreError::NotUnlocked));
    assert_eq!(save_diary_content(&mut state, 1, "x".to_string()), Err(StoreError::NotUnlocked));
    assert_eq!(delete_diary(1, &mut state), Err(StoreError::NotUnlocked));
}

#[test]
fn empty_password_on_encrypted_store_fails() {
    let path = store_path("empty_password");
    provision(&path, "secret");
    let mut state = States::new(PathBuf::from(path));
    assert_eq!(
        open_and_list_dates(String::new(), &mut state),
        Err(StoreError::AuthenticationFailed)
    );
    assert!(!state.unlocked());
}

#[test]
fn right_password_after_wrong_one_unlocks() {
    let path = store_path("retry_password");
    provision(&path, "secret");
    let mut state = States::new(PathBuf::from(path));
    assert_eq!(
        open_and_list_dates("guess".to_string(), &mut state),
        Err(StoreError::AuthenticationFailed)
    );
    assert_eq!(open_and_list_dates("secret".to_string(), &mut state), Ok(vec![]));
    assert!(state.unlocked());
}

#[test]
fn wrong_password_keeps_the_connection_held() {
    let mut state = unlocked("keeps_connection");
    assert_eq!(save_diary_content(&mut state, 5, "kept".to_string()), Ok(()));
    assert_eq!(
        open_and_list_dates("wrong".to_string(), &mut state),
        Err(StoreError::AuthenticationFailed)
    );
    assert!(state.unlocked());
    assert_eq!(get_diary_content(&state, 5), Ok("kept".to_string()));
}

#[test]
fn unlocking_again_replaces_the_connection() {
    let mut state = unlocked("unlock_again");
    assert_eq!(save_diary_content(&mut state, 7, "seven".to_string()), Ok(()));
    assert_eq!(open_and_list_dates("secret".to_string(), &mut state), Ok(vec![7]));
    assert!(state.unlocked());
    assert_eq!(get_diary_content(&state, 7), Ok("seven".to_string()));
}

#[test]
fn password_with_quotes_is_a_key_like_any_other() {
    let path = store_path("quoted_password");
    provision(&path, "it's '; DROP TABLE diary; --");
    let mut state = States::new(PathBuf::from(path));
    assert_eq!(
        open_and_list_dates("it's '; DROP TABLE diary; --".to_string(), &mut state),
        Ok(vec![])
    );
    assert_eq!(save_diary_content(&mut state, 1, "still here".to_string()), Ok(()));
    assert_eq!(
        open_and_list_dates("it's".to_string(), &mut state),
        Err(StoreError::AuthenticationFailed)
    );
    assert_eq!(get_diary_content(&state, 1), Ok("still here".to_string()));
}

#[test]
fn unlock_fails_where_the_file_cannot_be_opened() {
    let mut state = States::new(PathBuf::from("/no_such_directory_for_diary_store/diary.db"));
    let res = open_and_list_dates("secret".to_string(), &mut state);
    assert!(matches!(res, Err(StoreError::StorageUnavailable(_))));
    assert!(!state.unlocked());
    assert_eq!(search_diary(&state, String::new()), Err(StoreError::NotUnlocked));
}

#[test]
fn unlock_without_table_unlocks_and_reports_the_read() {
    let mut state = States::new(PathBuf::from(store_path("no_table")));
    let res = open_and_list_dates("secret".to_string(), &mut state);
    assert!(matches!(res, Err(StoreError::StorageReadFailed(_))));
    assert!(state.unlocked());
    assert!(matches!(
        search_diary(&state, String::new()),
        Err(StoreError::StorageReadFailed(_))
    ));
    assert!(matches!(get_diary_content(&state, 1), Err(StoreError::StorageReadFailed(_))));
    assert!(matches!(
        save_diary_content(&mut state, 1, "x".to_string()),
        Err(StoreError::StorageWriteFailed(_))
    ));
    assert!(matches!(delete_diary(1, &mut state), Err(StoreError::StorageWriteFailed(_))));
    assert!(state.unlocked());
}

#[test]
fn save_then_get_returns_the_text() {
    let mut state = unlocked("round_trip");
    let texts = [
        "first entry",
        "",
        "two\nlines",
        "It's \"quoted\"; DROP TABLE diary; --",
        "Grüße, 日記 ✓",
        "   spaces   ",
    ];
    let mut date: i64 = 20240101;
    for text in texts {
        assert_eq!(save_diary_content(&mut state, date, text.to_string()), Ok(()));
        assert_eq!(get_diary_content(&state, date), Ok(text.to_string()));
        date += 1;
    }
    assert_eq!(get_diary_content(&state, 20240101), Ok("first entry".to_string()));
}

#[test]
fn save_then_get_for_unusual_dates() {
    let mut state = unlocked("unusual_dates");
    for date in [0i64, -1, -20240101, 1, i64::MAX, i64::MIN] {
        let text = format!("entry of {}", date);
        assert_eq!(save_diary_content(&mut state, date, text.clone()), Ok(()));
        assert_eq!(get_diary_content(&state, date), Ok(text));
    }
    assert_eq!(
        search_diary(&state, String::new()),
        Ok(vec![i64::MAX, 1, 0, -1, -20240101, i64::MIN])
    );
}

#[test]
fn second_save_overwrites_the_first() {
    let mut state = unlocked("overwrite");
    assert_eq!(save_diary_content(&mut state, 20240101, "c1".to_string()), Ok(()));
    assert_eq!(save_diary_content(&mut state, 20240101, "c2".to_string()), Ok(()));
    assert_eq!(get_diary_content(&state, 20240101), Ok("c2".to_string()));
    assert_eq!(search_diary(&state, String::new()), Ok(vec![20240101]));
}

#[test]
fn save_leaves_other_dates_alone() {
    let mut state = unlocked("other_dates");
    assert_eq!(save_diary_content(&mut state, 1, "one".to_string()), Ok(()));
    assert_eq!(save_diary_content(&mut state, 2, "two".to_string()), Ok(()));
    assert_eq!(save_diary_content(&mut state, 1, "uno".to_string()), Ok(()));
    assert_eq!(get_diary_content(&state, 2), Ok("two".to_string()));
    assert_eq!(get_diary_content(&state, 1), Ok("uno".to_string()));
}

#[test]
fn delete_of_absent_date_succeeds() {
    let mut state = unlocked("delete_absent");
    assert_eq!(delete_diary(20240101, &mut state), Ok(()));
    assert_eq!(delete_diary(20240101, &mut state), Ok(()));
    assert_eq!(search_diary(&state, String::new()), Ok(vec![]));
}

#[test]
fn delete_of_present_date_removes_it() {
    let mut state = unlocked("delete_present");
    assert_eq!(save_diary_content(&mut state, 20240101, "gone soon".to_string()), Ok(()));
    assert_eq!(save_diary_content(&mut state, 20240102, "stays".to_string()), Ok(()));
    assert_eq!(delete_diary(20240101, &mut state), Ok(()));
    assert_eq!(get_diary_content(&state, 20240101), Err(StoreError::EntryNotFound));
    assert_eq!(get_diary_content(&state, 20240102), Ok("stays".to_string()));
    assert_eq!(search_diary(&state, String::new()), Ok(vec![20240102]));
}

#[test]
fn get_of_absent_date_is_not_found() {
    let state = unlocked("get_absent");
    assert_eq!(get_diary_content(&state, 20240101), Err(StoreError::EntryNotFound));
}

#[test]
fn search_in_store_ignores_case() {
    let mut state = unlocked("search_case");
    assert_eq!(save_diary_content(&mut state, 20240115, "Hello".to_string()), Ok(()));
    assert_eq!(save_diary_content(&mut state, 20240116, "Goodbye".to_string()), Ok(()));
    assert_eq!(search_diary(&state, "hello".to_string()), Ok(vec![20240115]));
    assert_eq!(search_diary(&state, "HELLO".to_string()), Ok(vec![20240115]));
}

#[test]
fn search_in_store_matches_date_text() {
    let mut state = unlocked("search_date");
    assert_eq!(save_diary_content(&mut state, 20240115, "Hello".to_string()), Ok(()));
    assert_eq!(save_diary_content(&mut state, 20240216, "Goodbye".to_string()), Ok(()));
    assert_eq!(search_diary(&state, "0115".to_string()), Ok(vec![20240115]));
    assert_eq!(search_diary(&state, "2024".to_string()), Ok(vec![20240216, 20240115]));
}

#[test]
fn install_with_failed_probe_is_authentication_failure() {
    let mut state = States::new(PathBuf::from("./diary.db"));
    let conn = rusqlite::Connection::open_in_memory().unwrap();
    assert_eq!(
        state.install(conn, Err(rusqlite::Error::InvalidQuery)),
        Err(StoreError::AuthenticationFailed)
    );
    assert!(!state.unlocked());
    assert_eq!(state.db_path(), &PathBuf::from("./diary.db"));
}

#[test]
fn install_with_answered_probe_unlocks() {
    let mut state = States::new(PathBuf::from("./diary.db"));
    assert_eq!(state.install(memory_table(), Ok(0)), Ok(()));
    assert!(state.unlocked());
    assert_eq!(save_diary_content(&mut state, 3, "three".to_string()), Ok(()));
    assert_eq!(state.install(memory_table(), Ok(1)), Ok(()));
    assert!(state.unlocked());
    assert_eq!(get_diary_content(&state, 3), Err(StoreError::EntryNotFound));
}

#[test]
fn install_with_failed_probe_keeps_the_connection_held() {
    let mut state = States::new(PathBuf::from("./diary.db"));
    assert_eq!(state.install(memory_table(), Ok(1)), Ok(()));
    assert_eq!(save_diary_content(&mut state, 3, "three".to_string()), Ok(()));
    assert_eq!(
        state.install(memory_table(), Err(rusqlite::Error::QueryReturnedNoRows)),
        Err(StoreError::AuthenticationFailed)
    );
    assert!(state.unlocked());
    assert_eq!(get_diary_content(&state, 3), Ok("three".to_string()));
}

#[test]
fn content_outcome_of_a_row_is_its_text() {
    assert_eq!(content_outcome(Ok(Some("updated".to_string()))), Ok("updated".to_string()));
    assert_eq!(content_outcome(Ok(Some(String::new()))), Ok(String::new()));
}

#[test]
fn content_outcome_of_no_row_is_not_found() {
    assert_eq!(content_outcome(Ok(None)), Err(StoreError::EntryNotFound));
}

#[test]
fn content_outcome_of_a_failure_is_read_failure() {
    assert_eq!(
        content_outcome(Err(rusqlite::Error::InvalidQuery)),
        Err(StoreError::StorageReadFailed(rusqlite::Error::InvalidQuery.to_string()))
    );
}

#[test]
fn write_outcome_of_any_count_is_success() {
    assert_eq!(write_outcome(Ok(0)), Ok(()));
    assert_eq!(write_outcome(Ok(1)), Ok(()));
    assert_eq!(write_outcome(Ok(12)), Ok(()));
}

#[test]
fn write_outcome_of_a_failure_is_write_failure() {
    assert_eq!(
        write_outcome(Err(rusqlite::Error::InvalidQuery)),
        Err(StoreError::StorageWriteFailed(rusqlite::Error::InvalidQuery.to_string()))
    );
}

#[test]
fn fetch_dates_reads_the_table() {
    let conn = memory_table();
    conn.execute("INSERT INTO diary (date, content) VALUES (20240101, 'first entry')", ())
        .unwrap();
    conn.execute("INSERT INTO diary (date, content) VALUES (20240115, 'Hello')", ()).unwrap();
    conn.execute("INSERT INTO diary (date, content) VALUES (20240120, NULL)", ()).unwrap();
    assert_eq!(fetch_dates_internal(&conn, String::new()), Ok(vec![20240120, 20240115, 20240101]));
    assert_eq!(fetch_dates_internal(&conn, "FIRST".to_string()), Ok(vec![20240101]));
    assert_eq!(fetch_dates_internal(&conn, "012".to_string()), Ok(vec![20240120]));
    assert_eq!(fetch_dates_internal(&conn, "none".to_string()), Ok(vec![]));
}

#[test]
fn fetch_dates_without_table_is_read_failure() {
    let conn = rusqlite::Connection::open_in_memory().unwrap();
    assert!(matches!(
        fetch_dates_internal(&conn, String::new()),
        Err(StoreError::StorageReadFailed(_))
    ));
}
