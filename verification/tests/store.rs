use todo_store::model::{StoreError, Todo};
use todo_store::store::Database;

/// Listing sorted by id, as (id, task, completed) triples, for comparisons:
/// the store itself promises no order.
fn snapshot(db: &Database) -> Vec<(i64, String, bool)> {
    let mut v: Vec<(i64, String, bool)> = db
        .get_all_todos()
        .unwrap()
        .into_iter()
        .map(|t: Todo| (t.id, t.task, t.completed))
        .collect();
    v.sort();
    v
}

/// A file-backed database path under the system temporary directory, with
/// any table left over from an earlier run dropped.
fn fresh_file(name: &str) -> String {
    let path = format!("/tmp/todo_store_test_{}.db", name);
    let conn = rusqlite::Connection::open(&path).unwrap();
    conn.execute("DROP TABLE IF EXISTS todos", ()).unwrap();
    path
}

#[test]
fn adds_give_distinct_unseen_ids() {
    let mut db = Database::new_in_memory().unwrap();
    db.add_todo("one".to_string()).unwrap();
    db.add_todo("two".to_string()).unwrap();
    db.add_todo("three".to_string()).unwrap();
    let all = db.get_all_todos().unwrap();
    assert_eq!(all.len(), 3);
    for i in 0..all.len() {
        for j in 0..all.len() {
            if i != j {
                assert_ne!(all[i].id, all[j].id);
            }
        }
    }
    // An id, once spent, is never reused: delete the newest record and add
    // again; the new id must differ from every id seen so far.
    let seen: Vec<i64> = all.iter().map(|t| t.id).collect();
    let max_id = *seen.iter().max().unwrap();
    db.delete_todo(max_id).unwrap();
    db.add_todo("four".to_string()).unwrap();
    let again = db.get_all_todos().unwrap();
    assert_eq!(again.len(), 3);
    let new: Vec<&Todo> = again.iter().filter(|t| t.task == "four").collect();
    assert_eq!(new.len(), 1);
    assert!(!seen.contains(&new[0].id));
}

#[test]
fn add_then_list_shows_incomplete_record() {
    let mut db = Database::new_in_memory().unwrap();
    db.add_todo("buy milk".to_string()).unwrap();
    let all = db.get_all_todos().unwrap();
    assert_eq!(all.len(), 1);
    assert_eq!(all[0].task, "buy milk");
    assert!(!all[0].completed);
}

#[test]
fn toggle_flips_only_that_record() {
    let mut db = Database::new_in_memory().unwrap();
    db.add_todo("first".to_string()).unwrap();
    db.add_todo("second".to_string()).unwrap();
    let before = snapshot(&db);
    let first_id = before[0].0;
    db.toggle_todo(first_id).unwrap();
    let after = snapshot(&db);
    assert_eq!(after[0], (before[0].0, before[0].1.clone(), true));
    assert_eq!(after[1], before[1]);
    // Toggling the same id again restores the original state exactly.
    db.toggle_todo(first_id).unwrap();
    assert_eq!(snapshot(&db), before);
}

#[test]
fn delete_removes_only_that_record() {
    let mut db = Database::new_in_memory().unwrap();
    db.add_todo("keep".to_string()).unwrap();
    db.add_todo("drop".to_string()).unwrap();
    let before = snapshot(&db);
    let drop_id = before.iter().find(|r| r.1 == "drop").unwrap().0;
    db.delete_todo(drop_id).unwrap();
    let after = snapshot(&db);
    assert_eq!(after.len(), 1);
    assert!(after.iter().all(|r| r.0 != drop_id));
    assert_eq!(after[0], *before.iter().find(|r| r.1 == "keep").unwrap());
    // Deleting an id that is not there alters nothing.
    db.delete_todo(drop_id).unwrap();
    assert_eq!(snapshot(&db), after);
}

#[test]
fn toggle_and_delete_on_missing_id_are_noops() {
    let mut db = Database::new_in_memory().unwrap();
    db.add_todo("only".to_string()).unwrap();
    let before = snapshot(&db);
    db.toggle_todo(4242).unwrap();
    assert_eq!(snapshot(&db), before);
    db.delete_todo(4242).unwrap();
    assert_eq!(snapshot(&db), before);
}

#[test]
fn scenario_two_records_toggle_then_delete() {
    let mut db = Database::new_in_memory().unwrap();
    db.add_todo("buy milk".to_string()).unwrap();
    db.add_todo("walk dog".to_string()).unwrap();
    let two = snapshot(&db);
    assert_eq!(two.len(), 2);
    assert_ne!(two[0].0, two[1].0);
    let milk_id = two.iter().find(|r| r.1 == "buy milk").unwrap().0;
    let dog_id = two.iter().find(|r| r.1 == "walk dog").unwrap().0;
    assert!(two.iter().all(|r| !r.2));
    db.toggle_todo(milk_id).unwrap();
    let toggled = snapshot(&db);
    assert!(toggled.iter().find(|r| r.0 == milk_id).unwrap().2);
    assert!(!toggled.iter().find(|r| r.0 == dog_id).unwrap().2);
    db.delete_todo(dog_id).unwrap();
    let rest = snapshot(&db);
    assert_eq!(rest, vec![(milk_id, "buy milk".to_string(), true)]);
}

#[test]
fn restart_reproduces_remaining_record() {
    let path = fresh_file("restart");
    let milk_id;
    {
        let mut db = Database::new(&path).unwrap();
        db.add_todo("buy milk".to_string()).unwrap();
        db.add_todo("walk dog".to_string()).unwrap();
        let two = snapshot(&db);
        milk_id = two.iter().find(|r| r.1 == "buy milk").unwrap().0;
        let dog_id = two.iter().find(|r| r.1 == "walk dog").unwrap().0;
        db.toggle_todo(milk_id).unwrap();
        db.delete_todo(dog_id).unwrap();
    }
    let db = Database::new(&path).unwrap();
    assert_eq!(snapshot(&db), vec![(milk_id, "buy milk".to_string(), true)]);
}

#[test]
fn open_failure_reports_init_error() {
    let r = Database::new("/no_such_directory_anywhere/todo.db");
    assert!(matches!(r, Err(StoreError::Init)));
}

#[test]
fn failing_operations_report_query_error() {
    let path = fresh_file("query_err");
    let mut db = Database::new(&path).unwrap();
    db.add_todo("doomed".to_string()).unwrap();
    // Pull the table away behind the store's back: every operation on it
    // must now surface a query error instead of aborting.
    let saboteur = rusqlite::Connection::open(&path).unwrap();
    saboteur.execute("DROP TABLE todos", ()).unwrap();
    assert!(matches!(db.get_all_todos(), Err(StoreError::Query)));
    assert!(matches!(db.add_todo("late".to_string()), Err(StoreError::Query)));
    assert!(matches!(db.toggle_todo(1), Err(StoreError::Query)));
    assert!(matches!(db.delete_todo(1), Err(StoreError::Query)));
}
