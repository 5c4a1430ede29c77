use taskify::db::{Database, StoreError};
use taskify::task::Task;

#[test]
fn new_task_has_no_id_and_zero_progress() {
    let t = Task::new("Buy milk", "2%");
    assert_eq!(t.id, None);
    assert_eq!(t.title, "Buy milk");
    assert_eq!(t.description, "2%");
    assert_eq!(t.progress, 0);
}

#[test]
fn fresh_store_lists_nothing() {
    let db = Database::in_memory().unwrap();
    let all = db.get_all().unwrap();
    assert!(all.is_empty());
}

#[test]
fn in_memory_store_is_ephemeral() {
    let db = Database::in_memory().unwrap();
    assert!(db.is_ephemeral());
}

#[test]
fn unopenable_location_falls_back_to_ephemeral_store() {
    // A directory cannot be opened as a database file, so the store falls
    // back to a fresh in-memory database, observably.
    let db = Database::new(String::from(".")).unwrap();
    assert!(db.is_ephemeral());
    assert!(db.get_all().unwrap().is_empty());
}

#[test]
fn init_is_idempotent() {
    let mut db = Database::in_memory().unwrap();
    db.init().unwrap();
    db.init().unwrap();
    assert!(db.get_all().unwrap().is_empty());
}

#[test]
fn create_assigns_an_id_and_keeps_the_fields() {
    let mut db = Database::in_memory().unwrap();
    let created = db.insert(Task::new("Buy milk", "2%")).unwrap();
    assert_eq!(created.id, Some(1));
    assert_eq!(created.title, "Buy milk");
    assert_eq!(created.description, "2%");
    assert_eq!(created.progress, 0);
}

#[test]
fn create_then_get_by_id_round_trips() {
    let mut db = Database::in_memory().unwrap();
    let created = db.insert(Task::new("Buy milk", "2%")).unwrap();
    let fetched = db.get_by_id(created.id.unwrap()).unwrap();
    assert_eq!(fetched.id, created.id);
    assert_eq!(fetched.title, "Buy milk");
    assert_eq!(fetched.description, "2%");
    assert_eq!(fetched.progress, 0);
}

#[test]
fn duplicate_title_is_rejected_and_adds_no_row() {
    let mut db = Database::in_memory().unwrap();
    db.insert(Task::new("Buy milk", "2%")).unwrap();
    let second = db.insert(Task::new("Buy milk", "whole"));
    assert!(matches!(second, Err(StoreError::Storage(_))));
    assert_eq!(db.get_all().unwrap().len(), 1);
}

#[test]
fn distinct_titles_get_distinct_ids() {
    let mut db = Database::in_memory().unwrap();
    let a = db.insert(Task::new("first", "")).unwrap();
    let b = db.insert(Task::new("second", "")).unwrap();
    assert_ne!(a.id, b.id);
    assert_eq!(db.get_all().unwrap().len(), 2);
}

#[test]
fn update_overwrites_every_field_of_the_row() {
    let mut db = Database::in_memory().unwrap();
    let created = db.insert(Task::new("Buy milk", "2%")).unwrap();
    let replacement = Task {
        id: created.id,
        title: String::from("Buy milk"),
        description: String::from("whole"),
        progress: 50,
    };
    db.update_todo(&replacement).unwrap();
    let fetched = db.get_by_id(created.id.unwrap()).unwrap();
    assert_eq!(fetched.title, "Buy milk");
    assert_eq!(fetched.description, "whole");
    assert_eq!(fetched.progress, 50);
}

#[test]
fn update_of_a_missing_id_is_a_no_op_success() {
    let mut db = Database::in_memory().unwrap();
    let ghostless = Task {
        id: Some(42),
        title: String::from("nobody"),
        description: String::new(),
        progress: 7,
    };
    assert!(db.update_todo(&ghostless).is_ok());
    assert!(db.get_all().unwrap().is_empty());
}

#[test]
fn update_to_another_rows_title_fails_and_changes_nothing() {
    let mut db = Database::in_memory().unwrap();
    db.insert(Task::new("first", "")).unwrap();
    let b = db.insert(Task::new("second", "b")).unwrap();
    let clash = Task {
        id: b.id,
        title: String::from("first"),
        description: String::from("taken"),
        progress: 9,
    };
    assert!(matches!(db.update_todo(&clash), Err(StoreError::Storage(_))));
    let unchanged = db.get_by_id(b.id.unwrap()).unwrap();
    assert_eq!(unchanged.title, "second");
    assert_eq!(unchanged.description, "b");
    assert_eq!(unchanged.progress, 0);
}

#[test]
fn delete_twice_succeeds_both_times() {
    let mut db = Database::in_memory().unwrap();
    let created = db.insert(Task::new("Buy milk", "2%")).unwrap();
    let id = created.id.unwrap();
    assert!(db.delete_by_id(id).is_ok());
    assert!(db.delete_by_id(id).is_ok());
    assert!(matches!(db.get_by_id(id), Err(StoreError::NotFound)));
}

#[test]
fn missing_id_lookup_is_a_typed_not_found() {
    let db = Database::in_memory().unwrap();
    assert!(matches!(db.get_by_id(7), Err(StoreError::NotFound)));
}

#[test]
fn error_status_codes_follow_the_taxonomy() {
    assert_eq!(StoreError::NotFound.status_code(), 404);
    assert_eq!(StoreError::Storage(String::from("disk went away")).status_code(), 500);
}

#[test]
fn scenario_create_list_update_delete() {
    let mut db = Database::in_memory().unwrap();
    let created = db.insert(Task::new("Buy milk", "2%")).unwrap();
    assert_eq!(created.id, Some(1));

    let all = db.get_all().unwrap();
    assert_eq!(all.len(), 1);
    assert_eq!(all[0].id, Some(1));

    let replacement = Task {
        id: Some(1),
        title: String::from("Buy milk"),
        description: String::from("whole"),
        progress: 50,
    };
    db.update_todo(&replacement).unwrap();
    let fetched = db.get_by_id(1).unwrap();
    assert_eq!(fetched.progress, 50);
    assert_eq!(fetched.description, "whole");

    db.delete_by_id(1).unwrap();
    assert!(matches!(db.get_by_id(1), Err(StoreError::NotFound)));
}
