//! The persisted upload record and the headers stored beside a blob.

use vstd::prelude::*;

verus! {

/// How long an upload is kept: seven days, in microseconds.
pub const RETENTION_MICROS: i64 = 604_800_000_000;

/// Seconds between two reaper cycles.
pub const REAP_INTERVAL_SECS: u64 = 30;

/// One live upload, as the metadata store holds it. Timestamps count
/// microseconds since the Unix epoch, in UTC.
#[derive(Debug, PartialEq, Eq)]
pub struct Upload {
    pub key: String,
    pub filename: String,
    pub expires: i64,
    pub date_created: i64,
}

/// Mathematical value of an [`Upload`].
pub struct UploadView {
    pub key: Seq<char>,
    pub filename: Seq<char>,
    pub expires: int,
    pub date_created: int,
}

impl View for Upload {
    type V = UploadView;

    open spec fn view(&self) -> UploadView {
        UploadView {
            key: self.key@,
            filename: self.filename@,
            expires: self.expires as int,
            date_created: self.date_created as int,
        }
    }
}

impl Clone for Upload {
    fn clone(&self) -> (copy: Self)
        ensures
            copy@ == self@,
    {
        Upload {
            key: self.key.clone(),
            filename: self.filename.clone(),
            expires: self.expires,
            date_created: self.date_created,
        }
    }
}

impl UploadView {
    /// A record as the upload path writes it: it expires exactly one retention
    /// period after its creation, hence strictly later.
    pub open spec fn well_formed(self) -> bool {
        self.expires == self.date_created + RETENTION_MICROS
    }

    /// Whether the record is due for reclamation at time `now`.
    pub open spec fn expired_at(self, now: int) -> bool {
        self.expires < now
    }
}

/// The record written for `key` and `filename` at time `now`.
pub open spec fn record_for(key: Seq<char>, filename: Seq<char>, now: int) -> UploadView {
    UploadView { key, filename, expires: now + RETENTION_MICROS, date_created: now }
}

/// Whether a record created at `now` has a representable expiry.
pub open spec fn stampable(now: int) -> bool {
    now + RETENTION_MICROS <= i64::MAX
}

impl Upload {
    /// Builds the record for a new upload stamped at `now`, or `None` when the
    /// expiry would lie beyond the representable range.
    pub fn stamped(key: String, filename: String, now: i64) -> (record: Option<Upload>)
        ensures
            stampable(now as int) <==> record is Some,
            record matches Some(r) ==> r@ == record_for(key@, filename@, now as int),
    {
        match now.checked_add(RETENTION_MICROS) {
            Some(expires) => Some(Upload { key, filename, expires, date_created: now }),
            None => None,
        }
    }

    /// Whether the record is due for reclamation at time `now`.
    pub fn is_expired(&self, now: i64) -> (due: bool)
        ensures
            due == self@.expired_at(now as int),
    {
        self.expires < now
    }
}

/// Views of a vector of records, element by element.
pub open spec fn records_view(rows: Seq<Upload>) -> Seq<UploadView> {
    rows.map_values(|u: Upload| u@)
}

/// View of an optional string.
pub open spec fn text_view(text: Option<String>) -> Option<Seq<char>> {
    match text {
        Some(s) => Some(s@),
        None => None,
    }
}

/// The two content headers a blob is stored and served with.
#[derive(Debug, PartialEq, Eq)]
pub struct BlobHead {
    pub content_type: Option<String>,
    pub content_disposition: Option<String>,
}

/// Mathematical value of a [`BlobHead`].
pub struct BlobHeadView {
    pub content_type: Option<Seq<char>>,
    pub content_disposition: Option<Seq<char>>,
}

impl View for BlobHead {
    type V = BlobHeadView;

    open spec fn view(&self) -> BlobHeadView {
        BlobHeadView {
            content_type: text_view(self.content_type),
            content_disposition: text_view(self.content_disposition),
        }
    }
}

} // verus!
