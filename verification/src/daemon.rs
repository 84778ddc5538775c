//! The change-detection cursor.
//!
//! A poll has two steps, each fed by one answer of the record store. First
//! the store's highest row identifier is held against the watermark, which
//! decides whether rows are to be fetched and from where. Then the fetched
//! rows are decoded in order and the watermark moves to the last of them.
//! The daemon only decides; the caller queries the store and sleeps.

use crate::database::{Notification, NotificationDatabase, NotificationView};
use crate::decoder::{decode, decode_spec, outcome_view, DecodeFailure, DecodeFailureView};
use vstd::prelude::*;

verus! {

/// Seconds between two polls.
pub const POLL_INTERVAL_SECS: u64 = 5;

/// What the caller is to do after the first step of a poll.
#[derive(Debug, Clone, Copy, PartialEq, Eq, Structural)]
pub enum PollAction {
    /// Nothing to fetch: the poll is over.
    Idle,
    /// Fetch the rows whose identifier is above `after`, in ascending order,
    /// and hand them to `query_new_notifications`.
    Fetch { after: i64 },
}

impl PollAction {
    /// The identifier to fetch above, if rows are to be fetched.
    pub open spec fn fetch_point(self) -> Option<int> {
        match self {
            PollAction::Idle => None,
            PollAction::Fetch { after } => Some(after as int),
        }
    }
}

/// A row of the record store: its identifier and its payload.
pub type Row = (int, Seq<u8>);

/// What decoding one row gives.
pub type Outcome = Result<NotificationView, DecodeFailureView>;

/// An optional identifier as a mathematical integer.
pub open spec fn as_int(id: Option<i64>) -> Option<int> {
    match id {
        Some(n) => Some(n as int),
        None => None,
    }
}

/// The watermark after the store's highest identifier has been looked at.
///
/// An empty store changes nothing. The first sight of a non-empty store puts
/// the watermark at its highest identifier. Later the watermark only moves
/// here when the highest identifier has fallen below it: it then drops to
/// that identifier.
pub open spec fn watermark_after_check(watermark: Option<int>, max_id: Option<int>) -> Option<int> {
    match (max_id, watermark) {
        (None, _) => watermark,
        (Some(m), None) => Some(m),
        (Some(m), Some(w)) => if m < w {
            Some(m)
        } else {
            watermark
        },
    }
}

/// The identifier above which rows are to be fetched, if any are.
///
/// Rows are fetched only once a watermark is set and the highest identifier
/// differs from it: above the watermark when the store has grown, above the
/// new highest identifier when it has shrunk.
pub open spec fn fetch_point_after_check(watermark: Option<int>, max_id: Option<int>) -> Option<
    int,
> {
    match (max_id, watermark) {
        (Some(m), Some(w)) => if m > w {
            Some(w)
        } else if m < w {
            Some(m)
        } else {
            None
        },
        _ => None,
    }
}

/// The watermark after `rows` have been taken in: the identifier of the last
/// row, or the old watermark where there is no row.
pub open spec fn watermark_after_rows(watermark: Option<int>, rows: Seq<Row>) -> Option<int> {
    if rows.len() == 0 {
        watermark
    } else {
        Some(rows.last().0)
    }
}

/// The outcome of decoding each row, in the order of the rows.
pub open spec fn row_outcomes(rows: Seq<Row>) -> Seq<Outcome> {
    Seq::new(rows.len(), |i: int| decode_spec(rows[i].1, rows[i].0))
}

/// The rows that a vector of records stands for.
pub open spec fn rows_view(records: Seq<(i64, Vec<u8>)>) -> Seq<Row> {
    Seq::new(records.len(), |i: int| (records[i].0 as int, records[i].1@))
}

/// The content of a vector of decoding outcomes.
pub open spec fn outcomes_view(outcomes: Seq<Result<Notification, DecodeFailure>>) -> Seq<Outcome> {
    Seq::new(outcomes.len(), |i: int| outcome_view(outcomes[i]))
}

/// The monitor's state: which store it watches and how far it has looked.
pub struct NotificationDaemon {
    db: NotificationDatabase,
    last_rowid: Option<i64>,
}

impl NotificationDaemon {
    /// The highest row identifier accounted for; `None` before the first
    /// poll of a non-empty store.
    pub closed spec fn watermark(&self) -> Option<int> {
        as_int(self.last_rowid)
    }

    /// The path of the store that the daemon watches.
    pub closed spec fn store_path(&self) -> Seq<char> {
        self.db.path()
    }

    /// A daemon for the store at `db_path`, with no watermark yet.
    pub fn new(db_path: &str) -> (daemon: Self)
        ensures
            daemon.watermark() is None,
            daemon.store_path() == db_path@,
    {
        Self { db: NotificationDatabase::new(db_path), last_rowid: None }
    }

    /// The handle on the store.
    pub fn database(&self) -> (db: &NotificationDatabase)
        ensures
            db.path() == self.store_path(),
    {
        &self.db
    }

    /// The watermark.
    pub fn last_rowid(&self) -> (id: Option<i64>)
        ensures
            as_int(id) == self.watermark(),
    {
        self.last_rowid
    }

    /// First step of a poll: takes the store's highest row identifier
    /// (`None` for an empty store), moves the watermark where that alone
    /// decides it, and says whether rows are to be fetched.
    pub fn check_for_new_notifications(&mut self, max_rowid: Option<i64>) -> (action: PollAction)
        ensures
            final(self).store_path() == old(self).store_path(),
            final(self).watermark() == watermark_after_check(
                old(self).watermark(),
                as_int(max_rowid),
            ),
            action.fetch_point() == fetch_point_after_check(
                old(self).watermark(),
                as_int(max_rowid),
            ),
    {
        match max_rowid {
            Some(max_id) => {
                match self.last_rowid {
                    None => {
                        self.last_rowid = Some(max_id);
                        PollAction::Idle
                    },
                    Some(last_rowid) => {
                        if max_id > last_rowid {
                            PollAction::Fetch { after: last_rowid }
                        } else if max_id < last_rowid {
                            self.last_rowid = Some(max_id);
                            PollAction::Fetch { after: max_id }
                        } else {
                            PollAction::Idle
                        }
                    },
                }
            },
            None => PollAction::Idle,
        }
    }

    /// Second step of a poll: decodes the fetched rows in order and moves
    /// the watermark to the identifier of the last one.
    ///
    /// Every row gets its outcome, a notification or the reason it gave
    /// none; a row that fails neither stops the rows after it nor holds the
    /// watermark back.
    pub fn query_new_notifications(&mut self, new_records: &Vec<(i64, Vec<u8>)>) -> (outcomes: Vec<
        Result<Notification, DecodeFailure>,
    >)
        ensures
            final(self).store_path() == old(self).store_path(),
            final(self).watermark() == watermark_after_rows(
                old(self).watermark(),
                rows_view(new_records@),
            ),
            outcomes@.len() == new_records@.len(),
            outcomes_view(outcomes@) == row_outcomes(rows_view(new_records@)),
    {
        let count = new_records.len();
        let mut outcomes: Vec<Result<Notification, DecodeFailure>> = Vec::new();
        let mut i: usize = 0;
        while i < count
            invariant
                count == new_records.len(),
                i <= count,
                outcomes.len() == i,
                forall|k: int|
                    0 <= k < i ==> outcome_view(#[trigger] outcomes[k]) == decode_spec(
                        new_records[k].1@,
                        new_records[k].0 as int,
                    ),
            decreases count - i,
        {
            let outcome = decode(new_records[i].1.as_slice(), new_records[i].0);
            outcomes.push(outcome);
            i += 1;
        }
        if count > 0 {
            self.last_rowid = Some(new_records[count - 1].0);
        }
        assert(outcomes_view(outcomes@) =~= row_outcomes(rows_view(new_records@)));
        outcomes
    }
}

} // verus!
