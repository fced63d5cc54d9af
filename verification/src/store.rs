//! The narrow interface to the two stores: what this crate may ask of them
//! and what they may answer.
//!
//! The blob store keeps bytes and two content headers under a key. The
//! metadata store keeps one record per live upload and refuses a second
//! record under a key that is taken. Neither shares a transaction with the
//! other.

use vstd::prelude::*;
use crate::model::{records_view, BlobHead, BlobHeadView, Upload, UploadView};

verus! {

/// A request to one of the stores.
#[derive(Debug, PartialEq, Eq)]
pub enum Request {
    /// Does the blob store hold an object under `key`?
    HeadBlob { key: String },
    /// Store `body` with `head` under `key`, replacing what was there.
    PutBlob { key: String, head: BlobHead, body: Vec<u8> },
    /// Fetch the object under `key`.
    GetBlob { key: String },
    /// Remove the object under `key`, if any.
    DeleteBlob { key: String },
    /// Insert `record`, unless its key is taken.
    InsertRecord { record: Upload },
    /// Look up the record under `key`.
    FindRecord { key: String },
    /// Remove the record under `key`, if any, and commit.
    DeleteRecord { key: String },
    /// List the records whose expiry lies before `now`.
    SelectExpired { now: i64 },
}

/// Mathematical value of a [`Request`].
pub enum RequestView {
    HeadBlob { key: Seq<char> },
    PutBlob { key: Seq<char>, head: BlobHeadView, body: Seq<u8> },
    GetBlob { key: Seq<char> },
    DeleteBlob { key: Seq<char> },
    InsertRecord { record: UploadView },
    FindRecord { key: Seq<char> },
    DeleteRecord { key: Seq<char> },
    SelectExpired { now: int },
}

impl View for Request {
    type V = RequestView;

    open spec fn view(&self) -> RequestView {
        match *self {
            Request::HeadBlob { key } => RequestView::HeadBlob { key: key@ },
            Request::PutBlob { key, head, body } => RequestView::PutBlob {
                key: key@,
                head: head@,
                body: body@,
            },
            Request::GetBlob { key } => RequestView::GetBlob { key: key@ },
            Request::DeleteBlob { key } => RequestView::DeleteBlob { key: key@ },
            Request::InsertRecord { record } => RequestView::InsertRecord { record: record@ },
            Request::FindRecord { key } => RequestView::FindRecord { key: key@ },
            Request::DeleteRecord { key } => RequestView::DeleteRecord { key: key@ },
            Request::SelectExpired { now } => RequestView::SelectExpired { now: now as int },
        }
    }
}

/// A store's answer to a request.
#[derive(Debug, PartialEq, Eq)]
pub enum Reply {
    /// The write or removal took effect.
    Done,
    /// Nothing is stored under the key.
    Absent,
    /// An object is stored under the key.
    Present,
    /// The key of the record to insert is taken.
    Conflict,
    /// The store could not carry out the request.
    Failed,
    /// The object under the key, by its headers; its bytes stay with the caller.
    Object { head: BlobHead },
    /// The record under the key.
    Record { record: Upload },
    /// The records selected.
    Rows { rows: Vec<Upload> },
}

/// Mathematical value of a [`Reply`].
pub enum ReplyView {
    Done,
    Absent,
    Present,
    Conflict,
    Failed,
    Object { head: BlobHeadView },
    Record { record: UploadView },
    Rows { rows: Seq<UploadView> },
}

impl View for Reply {
    type V = ReplyView;

    open spec fn view(&self) -> ReplyView {
        match *self {
            Reply::Done => ReplyView::Done,
            Reply::Absent => ReplyView::Absent,
            Reply::Present => ReplyView::Present,
            Reply::Conflict => ReplyView::Conflict,
            Reply::Failed => ReplyView::Failed,
            Reply::Object { head } => ReplyView::Object { head: head@ },
            Reply::Record { record } => ReplyView::Record { record: record@ },
            Reply::Rows { rows } => ReplyView::Rows { rows: records_view(rows@) },
        }
    }
}

impl ReplyView {
    /// Whether the reply confirms that nothing is left under the key: the
    /// removal took effect, or there was nothing to remove.
    pub open spec fn confirms_removal(self) -> bool {
        self is Done || self is Absent
    }
}

} // verus!
