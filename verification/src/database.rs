//! The notification record and the handle that names the record store.

use vstd::prelude::*;

verus! {

/// A notification as decoded from one row of the record store.
///
/// `id` is the row identifier at the time of observation. Identifiers are
/// reused once a row has been deleted, so `id` says nothing across polls.
#[derive(Debug, Clone)]
pub struct Notification {
    pub id: i64,
    pub title: String,
    pub subtitle: Option<String>,
    pub body: String,
    pub date: i64,
    pub bundle_id: Option<String>,
}

/// The mathematical content of a [`Notification`].
pub struct NotificationView {
    pub id: int,
    pub title: Seq<char>,
    pub subtitle: Option<Seq<char>>,
    pub body: Seq<char>,
    pub date: int,
    pub bundle_id: Option<Seq<char>>,
}

/// The text held by an optional string, if any.
pub open spec fn text_of(s: Option<String>) -> Option<Seq<char>> {
    match s {
        Some(t) => Some(t@),
        None => None,
    }
}

impl View for Notification {
    type V = NotificationView;

    open spec fn view(&self) -> NotificationView {
        NotificationView {
            id: self.id as int,
            title: self.title@,
            subtitle: text_of(self.subtitle),
            body: self.body@,
            date: self.date as int,
            bundle_id: text_of(self.bundle_id),
        }
    }
}

/// Names the record store by the path of its file.
pub struct NotificationDatabase {
    db_path: String,
}

impl NotificationDatabase {
    /// The path this handle was made with.
    pub closed spec fn path(&self) -> Seq<char> {
        self.db_path@
    }

    /// A handle on the store at `db_path`. Nothing is opened or checked.
    pub fn new(db_path: &str) -> (db: Self)
        ensures
            db.path() == db_path@,
    {
        Self { db_path: db_path.to_owned() }
    }

    /// The path of the store's file.
    pub fn db_path(&self) -> (path: &str)
        ensures
            path@ == self.path(),
    {
        self.db_path.as_str()
    }

    /// Whether a file is present at the handle's path right now.
    ///
    /// Calls `std::path::Path::exists`. The answer depends on the file system
    /// at the moment of the call, so nothing is promised about it.
    #[verifier::external_body]
    pub fn file_exists(&self) -> (present: bool) {
        std::path::Path::new(&self.db_path).exists()
    }
}

} // verus!
