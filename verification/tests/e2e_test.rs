//! End-to-end tests for the notification daemon.
//!
//! A table of records held in memory stands in for the notification
//! database; the daemon is polled against it as the monitoring loop would.

use mattdaemon::daemon::{NotificationDaemon, PollAction};
use mattdaemon::database::{Notification, NotificationDatabase};
use mattdaemon::decoder::{decode, DecodeFailure};
use plist::Value;

/// One record of the table: the columns the tests look at.
#[derive(Clone)]
struct Record {
    rec_id: i64,
    app_id: i64,
    data: Vec<u8>,
}

/// The record table, with the queries the daemon's caller makes.
struct TestDatabase {
    handle: NotificationDatabase,
    records: Vec<Record>,
}

impl TestDatabase {
    fn max_rowid(&self) -> Option<i64> {
        self.records.iter().map(|r| r.rec_id).max()
    }

    fn rows_after(&self, last_rowid: i64) -> Vec<(i64, Vec<u8>)> {
        let mut rows: Vec<(i64, Vec<u8>)> = self
            .records
            .iter()
            .filter(|r| r.rec_id > last_rowid)
            .map(|r| (r.rec_id, r.data.clone()))
            .collect();
        rows.sort_by_key(|r| r.0);
        rows
    }

    fn record(&self, rec_id: i64) -> Record {
        self.records.iter().find(|r| r.rec_id == rec_id).unwrap().clone()
    }

    fn delete_all(&mut self) {
        self.records.clear();
    }
}

/// Helper function to create a test database with no records
fn create_test_database() -> TestDatabase {
    TestDatabase { handle: NotificationDatabase::new("notifications.db"), records: Vec::new() }
}

/// Helper function to create a binary plist notification data
fn create_test_plist_data(title: &str, body: &str, bundle_id: &str, date: f64) -> Vec<u8> {
    let mut req_dict = plist::Dictionary::new();
    req_dict.insert("titl".to_string(), Value::String(title.to_string()));
    req_dict.insert("body".to_string(), Value::String(body.to_string()));

    let mut main_dict = plist::Dictionary::new();
    main_dict.insert("req".to_string(), Value::Dictionary(req_dict));
    main_dict.insert("app".to_string(), Value::String(bundle_id.to_string()));
    main_dict.insert("date".to_string(), Value::Real(date));

    let mut buffer = Vec::new();
    plist::to_writer_binary(&mut buffer, &Value::Dictionary(main_dict)).unwrap();
    buffer
}

/// Helper function to create a notification record in the database
fn insert_notification(
    db: &mut TestDatabase,
    rec_id: i64,
    app_id: i64,
    title: &str,
    body: &str,
    bundle_id: &str,
    date: f64,
) {
    let data = create_test_plist_data(title, body, bundle_id, date);
    db.records.push(Record { rec_id, app_id, data });
}

/// One check of the daemon against the table, as the monitoring loop makes it.
fn check_for_new_notifications(
    daemon: &mut NotificationDaemon,
    db: &TestDatabase,
) -> Vec<Result<Notification, DecodeFailure>> {
    match daemon.check_for_new_notifications(db.max_rowid()) {
        PollAction::Idle => Vec::new(),
        PollAction::Fetch { after } => daemon.query_new_notifications(&db.rows_after(after)),
    }
}

#[test]
fn test_notification_plist_parsing() {
    let mut db = create_test_database();

    // Insert a notification with specific values
    let expected_id = 1;
    let expected_app_id = 42;
    let expected_title = "Test Title";
    let expected_body = "Test Body";
    let expected_bundle_id = "com.test.app";
    let expected_date = 1234567890.5;

    insert_notification(
        &mut db,
        expected_id,
        expected_app_id,
        expected_title,
        expected_body,
        expected_bundle_id,
        expected_date,
    );

    // Retrieve and verify the notification data
    let result = db.record(expected_id);

    assert_eq!(result.rec_id, expected_id);
    assert_eq!(result.app_id, expected_app_id);

    // Parse the plist data to verify it was stored correctly
    let plist_value = plist::from_bytes::<plist::Value>(&result.data).unwrap();
    match &plist_value {
        plist::Value::Dictionary(dict) => {
            assert!(dict.contains_key("app"));
            assert!(dict.contains_key("date"));
            assert!(dict.contains_key("req"));
        }
        _ => panic!("Expected dictionary"),
    }

    // The decoder reads the same values back
    let notification = decode(&result.data, result.rec_id).unwrap();
    assert_eq!(notification.id, expected_id);
    assert_eq!(notification.title, expected_title);
    assert_eq!(notification.subtitle, None);
    assert_eq!(notification.body, expected_body);
    assert_eq!(notification.date, 1234567890);
    assert_eq!(notification.bundle_id, Some(expected_bundle_id.to_string()));
}

#[test]
fn test_daemon_integration_with_mock_db() {
    // This test verifies the daemon's check_for_new_notifications logic
    // by directly calling it on a database with known state

    let mut db = create_test_database();
    let db_path = db.handle.db_path().to_string();

    // Insert initial notification
    insert_notification(&mut db, 1, 1, "Initial Notification", "Initial message", "com.example.testapp", 1234567890.0);

    // Create daemon using the same database path
    let mut daemon = NotificationDaemon::new(&db_path);

    // First check should set initial rowid
    let emitted = check_for_new_notifications(&mut daemon, &db);
    assert!(emitted.is_empty());
    assert_eq!(daemon.last_rowid(), Some(1));

    // Insert a new notification
    insert_notification(&mut db, 2, 1, "New Notification", "New message", "com.example.testapp", 1234567891.0);

    // Second check should detect the new notification
    let emitted = check_for_new_notifications(&mut daemon, &db);
    assert_eq!(daemon.last_rowid(), Some(2));
    assert_eq!(emitted.len(), 1);
    let notification = emitted[0].as_ref().unwrap();
    assert_eq!(notification.id, 2);
    assert_eq!(notification.title, "New Notification");
    assert_eq!(notification.body, "New message");
    assert_eq!(notification.date, 1234567891);
    assert_eq!(notification.bundle_id, Some("com.example.testapp".to_string()));
}

#[test]
fn test_daemon_deletion_scenario() {
    // Notifications are deleted and a new one is inserted
    // This tests the daemon's ability to handle ROWID decrease

    let mut db = create_test_database();
    let db_path = db.handle.db_path().to_string();

    // Insert two notifications
    insert_notification(&mut db, 1, 1, "First", "Message 1", "com.example.testapp", 1234567890.0);
    insert_notification(&mut db, 2, 1, "Second", "Message 2", "com.example.testapp", 1234567891.0);

    // Create daemon and process notifications
    let mut daemon = NotificationDaemon::new(&db_path);

    // First check - sets initial rowid to 2
    check_for_new_notifications(&mut daemon, &db);
    assert_eq!(daemon.last_rowid(), Some(2));

    // Delete all notifications (user dismisses them)
    db.delete_all();

    // Insert a new notification (simulating after deletion)
    insert_notification(&mut db, 1, 1, "Third", "Message 3", "com.example.testapp", 1234567892.0);

    // Check for new notifications - should handle the ROWID change correctly
    let emitted = check_for_new_notifications(&mut daemon, &db);
    assert!(emitted.is_empty());

    // The last_rowid should be updated to 1
    assert_eq!(daemon.last_rowid(), Some(1));
}
