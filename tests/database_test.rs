use tuitask::database::{DatabaseError, DatabaseManager, StoredRow};
use tuitask::types::Status;

fn memory_store() -> DatabaseManager {
    DatabaseManager::open(":memory:").expect("in-memory store opens")
}

fn summary(db: &DatabaseManager) -> Vec<(i64, String, String, Status)> {
    db.load_todos()
        .expect("load succeeds")
        .into_iter()
        .map(|t| (t.id, t.title, t.message, t.status))
        .collect()
}

#[test]
fn insert_then_load_round_trip() {
    let db = memory_store();
    let id = db.add_todo("Buy milk", "2%", Status::Todo).expect("insert succeeds");
    let items = db.load_todos().expect("load succeeds");
    assert_eq!(items.len(), 1);
    assert_eq!(items[0].id, id);
    assert_eq!(items[0].title, "Buy milk");
    assert_eq!(items[0].message, "2%");
    assert_eq!(items[0].status, Status::Todo);
    assert!(!items[0].date.is_empty());
}

#[test]
fn toggling_four_times_in_store_returns_to_todo() {
    let db = memory_store();
    let id = db.add_todo("Buy milk", "2%", Status::Todo).unwrap();
    let mut status = Status::Todo;
    for _ in 0..4 {
        status = status.next();
        db.update_todo_status(id, status).unwrap();
    }
    let items = db.load_todos().unwrap();
    assert_eq!(items[0].status, Status::Todo);
}

#[test]
fn update_changes_stored_status() {
    let db = memory_store();
    let id = db.add_todo("Walk", "", Status::Todo).unwrap();
    db.update_todo_status(id, Status::Done).unwrap();
    assert_eq!(db.load_todos().unwrap()[0].status, Status::Done);
}

#[test]
fn deleting_missing_id_changes_nothing() {
    let db = memory_store();
    db.add_todo("A", "a", Status::Todo).unwrap();
    db.add_todo("B", "b", Status::Active).unwrap();
    let before = summary(&db);
    assert!(db.delete_todo(9999).is_ok());
    assert_eq!(summary(&db), before);
}

#[test]
fn updating_missing_id_changes_nothing() {
    let db = memory_store();
    db.add_todo("A", "a", Status::Todo).unwrap();
    let before = summary(&db);
    assert!(db.update_todo_status(4242, Status::Done).is_ok());
    assert_eq!(summary(&db), before);
}

#[test]
fn delete_removes_item() {
    let db = memory_store();
    let a = db.add_todo("A", "", Status::Todo).unwrap();
    let b = db.add_todo("B", "", Status::Todo).unwrap();
    db.delete_todo(a).unwrap();
    let items = db.load_todos().unwrap();
    assert_eq!(items.len(), 1);
    assert_eq!(items[0].id, b);
}

#[test]
fn corrupted_status_loads_as_todo() {
    let db = memory_store();
    db.get_connection()
        .expect("connected")
        .execute(
            "INSERT INTO todos (title, message, status, date) VALUES ('x', 'y', 'Bogus', '2024-05-01T12:00:00+02:00')",
            [],
        )
        .unwrap();
    let items = db.load_todos().expect("a bad status is no error");
    assert_eq!(items.len(), 1);
    assert_eq!(items[0].status, Status::Todo);
    assert_eq!(items[0].date, "2024-05-01T12:00:00+02:00");
}

#[test]
fn unparsable_date_is_replaced_on_load() {
    let db = memory_store();
    db.get_connection()
        .unwrap()
        .execute(
            "INSERT INTO todos (title, message, status, date) VALUES ('x', 'y', 'Done', 'yesterday')",
            [],
        )
        .unwrap();
    let items = db.load_todos().unwrap();
    assert_eq!(items[0].status, Status::Done);
    assert_ne!(items[0].date, "yesterday");
    assert!(!items[0].date.is_empty());
}

#[test]
fn load_orders_by_status_priority_then_id() {
    let db = memory_store();
    let done = db.add_todo("d", "", Status::Done).unwrap();
    let todo1 = db.add_todo("t1", "", Status::Todo).unwrap();
    let cancelled = db.add_todo("c", "", Status::Cancelled).unwrap();
    let active = db.add_todo("a", "", Status::Active).unwrap();
    let todo2 = db.add_todo("t2", "", Status::Todo).unwrap();
    let ids: Vec<i64> = db.load_todos().unwrap().iter().map(|t| t.id).collect();
    assert_eq!(ids, vec![active, todo1, todo2, cancelled, done]);
}

#[test]
fn unavailable_store_reports_connection_error() {
    let db = DatabaseManager::unavailable();
    assert!(db.get_connection().is_none());
    match db.load_todos() {
        Err(DatabaseError::ConnectionError(m)) => assert_eq!(m, "Database connection not available"),
        other => panic!("unexpected {:?}", other.map(|v| v.len())),
    }
    assert!(matches!(db.add_todo("a", "b", Status::Todo), Err(DatabaseError::ConnectionError(_))));
    assert!(matches!(db.update_todo_status(1, Status::Done), Err(DatabaseError::ConnectionError(_))));
    assert!(matches!(db.delete_todo(1), Err(DatabaseError::ConnectionError(_))));
}

#[test]
fn null_message_fails_with_query_error() {
    let db = memory_store();
    db.get_connection()
        .unwrap()
        .execute(
            "INSERT INTO todos (title, message, status, date) VALUES ('x', NULL, 'Todo', '2024-05-01T12:00:00+02:00')",
            [],
        )
        .unwrap();
    assert!(matches!(db.load_todos(), Err(DatabaseError::QueryError(_))));
}

#[test]
fn error_messages_carry_kind_prefix() {
    let e = DatabaseError::ConnectionError("gone".to_string());
    assert_eq!(e.message(), "Database connection error: gone");
    let e = DatabaseError::QueryError("bad".to_string());
    assert_eq!(e.message(), "Database query error: bad");
    let e = DatabaseError::UpdateError("full".to_string());
    assert_eq!(e.message(), "Database update error: full");
}

#[test]
fn rows_convert_in_order() {
    let rows = vec![
        StoredRow {
            id: 3,
            title: "t".to_string(),
            message: "m".to_string(),
            status: "Cancelled".to_string(),
            date: "2023-02-03T04:05:06+00:00".to_string(),
        },
        StoredRow {
            id: 1,
            title: "u".to_string(),
            message: String::new(),
            status: "Bogus".to_string(),
            date: "2023-02-03T04:05:06Z".to_string(),
        },
    ];
    let items = tuitask::database::todos_from_rows(&rows);
    assert_eq!(items.len(), 2);
    assert_eq!(items[0].id, 3);
    assert_eq!(items[0].status, Status::Cancelled);
    assert_eq!(items[0].date, "2023-02-03T04:05:06+00:00");
    assert_eq!(items[1].id, 1);
    assert_eq!(items[1].title, "u");
    assert_eq!(items[1].status, Status::Todo);
}

fn row(id: i64, status: &str) -> StoredRow {
    StoredRow {
        id,
        title: String::new(),
        message: String::new(),
        status: status.to_string(),
        date: String::new(),
    }
}

#[test]
fn display_order_puts_unknown_statuses_last() {
    let rows = vec![
        row(1, "Bogus"),
        row(2, "Done"),
        row(3, "Todo"),
        row(4, "Cancelled"),
        row(5, "Active"),
        row(6, "Todo"),
        row(0, "Active"),
    ];
    let sorted = tuitask::database::sort_for_display(rows);
    let ids: Vec<i64> = sorted.iter().map(|r| r.id).collect();
    assert_eq!(ids, vec![0, 5, 3, 6, 4, 2, 1]);
}

#[test]
fn display_order_of_nothing_is_nothing() {
    assert!(tuitask::database::sort_for_display(Vec::new()).is_empty());
}

#[test]
fn decimal_matches_std_formatting() {
    for n in [0i64, 7, 10, 42, 1234567890, -1, -305, i64::MAX, i64::MIN] {
        assert_eq!(tuitask::database::decimal(n), n.to_string());
    }
}

#[test]
fn statement_parameters_are_exact() {
    let p = tuitask::database::insert_params("Buy milk", "2%", Status::Active, "2024-01-01T00:00:00+00:00".to_string());
    assert_eq!(p, vec!["Buy milk", "2%", "Active", "2024-01-01T00:00:00+00:00"]);
    let p = tuitask::database::update_params(17, Status::Cancelled);
    assert_eq!(p, vec!["Cancelled", "17"]);
    let p = tuitask::database::delete_params(-3);
    assert_eq!(p, vec!["-3"]);
}

#[test]
fn write_outcome_maps_store_errors() {
    assert!(tuitask::database::write_outcome(Ok(1)).is_ok());
    assert!(tuitask::database::write_outcome(Ok(0)).is_ok());
    match tuitask::database::write_outcome(Err(rusqlite::Error::InvalidQuery)) {
        Err(DatabaseError::UpdateError(m)) => assert!(!m.is_empty()),
        _ => panic!("expected an update error"),
    }
}

#[test]
fn reopening_a_store_keeps_its_rows() {
    let db = memory_store();
    db.add_todo("kept", "", Status::Todo).unwrap();
    db.get_connection()
        .unwrap()
        .execute(
            "CREATE TABLE IF NOT EXISTS todos (id INTEGER PRIMARY KEY AUTOINCREMENT, title TEXT NOT NULL, message TEXT, status TEXT NOT NULL, date TEXT NOT NULL)",
            [],
        )
        .unwrap();
    assert_eq!(db.load_todos().unwrap().len(), 1);
}

#[test]
fn load_outcome_orders_and_converts_read_rows() {
    let items = tuitask::database::load_outcome(Ok(vec![row(9, "Done"), row(4, "Active")])).unwrap();
    let got: Vec<(i64, Status)> = items.iter().map(|t| (t.id, t.status)).collect();
    assert_eq!(got, vec![(4, Status::Active), (9, Status::Done)]);
    assert!(matches!(
        tuitask::database::load_outcome(Err(rusqlite::Error::InvalidQuery)),
        Err(DatabaseError::QueryError(_))
    ));
}
