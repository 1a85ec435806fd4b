use doo::storage::{has_image_path_column, orphaned_image, tasks_from_rows, Store, StoreError, TaskRow};
use std::path::PathBuf;

fn memory() -> PathBuf {
    PathBuf::from(":memory:")
}

const NOW: &str = "2024-08-30T14:57:49.123456Z";

#[test]
fn add_and_list_newest_first() {
    let mut store = Store::open_at(memory()).unwrap();

    store.add("first task", None, NOW).unwrap();
    store.add("second task", Some("/tmp/shot.png"), NOW).unwrap();

    let tasks = store.all().unwrap();
    assert_eq!(tasks.len(), 2);
    assert_eq!(tasks[0].text, "second task");
    assert_eq!(tasks[0].image_path.as_deref(), Some("/tmp/shot.png"));
    assert_eq!(tasks[1].text, "first task");
    assert_eq!(tasks[1].image_path, None);
    assert!(tasks[0].id > tasks[1].id);
    assert!(!tasks[0].created_at.is_empty());

    store.delete(tasks[0].id).unwrap();
    let tasks = store.all().unwrap();
    assert_eq!(tasks.len(), 1);
    assert_eq!(tasks[0].text, "first task");
}

#[test]
fn new_store_is_empty() {
    let mut store = Store::open_at(memory()).unwrap();
    assert!(store.all().unwrap().is_empty());
}

#[test]
fn created_at_is_kept() {
    let mut store = Store::open_at(memory()).unwrap();
    store.add("water plants", None, NOW).unwrap();
    let tasks = store.all().unwrap();
    assert_eq!(tasks[0].created_at, NOW);
}

#[test]
fn delete_hands_back_the_screenshot() {
    let mut store = Store::open_at(memory()).unwrap();
    store.add("with shot", Some("/tmp/a.png"), NOW).unwrap();
    store.add("without shot", None, NOW).unwrap();
    let tasks = store.all().unwrap();
    let without = tasks[0].id;
    let with = tasks[1].id;
    assert_eq!(store.screenshot_of(without), None);
    store.delete(without).unwrap();
    assert_eq!(store.screenshot_of(with), Some("/tmp/a.png".to_string()));
    store.delete(with).unwrap();
    assert_eq!(store.screenshot_of(with), None);
    assert!(store.all().unwrap().is_empty());
}

#[test]
fn delete_of_unknown_id_changes_nothing() {
    let mut store = Store::open_at(memory()).unwrap();
    store.add("keep me", None, NOW).unwrap();
    assert_eq!(store.screenshot_of(424242), None);
    store.delete(424242).unwrap();
    assert_eq!(store.all().unwrap().len(), 1);
}

#[test]
fn ids_increase_with_each_add() {
    let mut store = Store::open_at(memory()).unwrap();
    for i in 0..5 {
        store.add(&format!("task {}", i), None, NOW).unwrap();
    }
    let tasks = store.all().unwrap();
    assert_eq!(tasks.len(), 5);
    for pair in tasks.windows(2) {
        assert!(pair[0].id > pair[1].id);
    }
    assert_eq!(tasks[0].text, "task 4");
    assert_eq!(tasks[4].text, "task 0");
}

#[test]
fn open_fails_on_a_directory_path() {
    assert!(matches!(Store::open_at(PathBuf::from("/")), Err(StoreError::Open(_))));
}

#[test]
fn rows_that_fail_to_read_are_left_out() {
    let rows: Vec<Result<TaskRow, rusqlite::Error>> = vec![
        Ok((3, "c".to_string(), NOW.to_string(), None)),
        Err(rusqlite::Error::InvalidColumnIndex(7)),
        Ok((1, "a".to_string(), NOW.to_string(), Some("/x.png".to_string()))),
    ];
    let tasks = tasks_from_rows(rows);
    assert_eq!(tasks.len(), 2);
    assert_eq!(tasks[0].id, 3);
    assert_eq!(tasks[0].text, "c");
    assert_eq!(tasks[1].id, 1);
    assert_eq!(tasks[1].image_path.as_deref(), Some("/x.png"));
}

#[test]
fn no_rows_no_tasks() {
    assert!(tasks_from_rows(Vec::new()).is_empty());
}

#[test]
fn image_path_column_check() {
    assert!(has_image_path_column(Ok(1)));
    assert!(!has_image_path_column(Ok(0)));
    assert!(!has_image_path_column(Err(rusqlite::Error::QueryReturnedNoRows)));
}

#[test]
fn orphaned_image_of_lookups() {
    assert_eq!(orphaned_image(Ok(Some("/tmp/s.png".to_string()))), Some("/tmp/s.png".to_string()));
    assert_eq!(orphaned_image(Ok(None)), None);
    assert_eq!(orphaned_image(Err(rusqlite::Error::QueryReturnedNoRows)), None);
}

#[test]
fn older_database_gains_the_image_path_column() {
    let uri = "file:doo_migration_test?mode=memory&cache=shared";
    let old = rusqlite::Connection::open(uri).unwrap();
    old.execute_batch(
        "CREATE TABLE tasks (
            id         INTEGER PRIMARY KEY,
            text       TEXT NOT NULL,
            created_at TEXT NOT NULL
        );
        INSERT INTO tasks (text, created_at) VALUES ('from before', '2023-01-01T00:00:00Z');",
    )
    .unwrap();

    let mut store = Store::open_at(PathBuf::from(uri)).unwrap();
    store.add("with a shot", Some("/tmp/new.png"), NOW).unwrap();
    let tasks = store.all().unwrap();
    assert_eq!(tasks.len(), 2);
    assert_eq!(tasks[0].text, "with a shot");
    assert_eq!(tasks[0].image_path.as_deref(), Some("/tmp/new.png"));
    assert_eq!(tasks[1].text, "from before");
    assert_eq!(tasks[1].image_path, None);

    // Opening again finds the column and leaves the table as it is.
    let mut again = Store::open_at(PathBuf::from(uri)).unwrap();
    assert_eq!(again.all().unwrap().len(), 2);
    drop(old);
}

#[test]
fn text_and_image_path_are_stored_verbatim() {
    let mut store = Store::open_at(memory()).unwrap();
    store.add("  spaced  note ", Some("/home/me/.local/share/doo/images/a b.png"), NOW).unwrap();
    let tasks = store.all().unwrap();
    assert_eq!(tasks[0].text, "  spaced  note ");
    assert_eq!(tasks[0].image_path.as_deref(), Some("/home/me/.local/share/doo/images/a b.png"));
}

#[test]
fn listing_twice_gives_the_same_tasks() {
    let mut store = Store::open_at(memory()).unwrap();
    store.add("one", None, NOW).unwrap();
    store.add("two", None, NOW).unwrap();
    let first: Vec<(i64, String)> = store.all().unwrap().into_iter().map(|t| (t.id, t.text)).collect();
    let second: Vec<(i64, String)> = store.all().unwrap().into_iter().map(|t| (t.id, t.text)).collect();
    assert_eq!(first, second);
}
