//! The handle on the record store.

use mattdaemon::database::{Notification, NotificationDatabase};

#[test]
fn handle_keeps_its_path() {
    let db = NotificationDatabase::new("/var/db/notifications.db");
    assert_eq!(db.db_path(), "/var/db/notifications.db");
    let db = NotificationDatabase::new("");
    assert_eq!(db.db_path(), "");
}

#[test]
fn missing_file_does_not_exist() {
    let db = NotificationDatabase::new("/nonexistent/directory/for/this/test/notifications.db");
    assert!(!db.file_exists());
}

#[test]
fn present_path_exists() {
    let db = NotificationDatabase::new("/");
    assert!(db.file_exists());
}

#[test]
fn notification_can_be_cloned_and_shown() {
    let n = Notification {
        id: 7,
        title: "Title".to_string(),
        subtitle: Some("Sub".to_string()),
        body: "Body".to_string(),
        date: 1234567890,
        bundle_id: None,
    };
    let copy = n.clone();
    assert_eq!(copy.id, 7);
    assert_eq!(copy.title, "Title");
    assert_eq!(copy.subtitle, Some("Sub".to_string()));
    assert_eq!(copy.body, "Body");
    assert_eq!(copy.date, 1234567890);
    assert_eq!(copy.bundle_id, None);
    assert!(format!("{:?}", copy).contains("Title"));
}
