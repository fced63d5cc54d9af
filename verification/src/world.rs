//! A mathematical model of the two stores, against which the coordinators
//! are judged.
//!
//! The model is sequential: one request is answered at a time, and a request
//! that fails leaves its store as it was. It says what the stores may answer
//! ([`World::answers`]) and what an answered request does to them
//! ([`World::after`]). Nothing here is executable.

use vstd::prelude::*;
use crate::model::{BlobHeadView, UploadView};
use crate::store::{ReplyView, RequestView};

verus! {

/// An object of the blob store.
pub struct StoredBlob {
    pub head: BlobHeadView,
    pub body: Seq<u8>,
}

/// The contents of both stores.
pub struct World {
    /// The blob store, by key.
    pub blobs: Map<Seq<char>, StoredBlob>,
    /// The metadata store, by key.
    pub records: Map<Seq<char>, UploadView>,
}

/// Where an upload stands in its life, as the stores show it at a given
/// time.
pub enum Stage {
    /// On file, with its blob, and not yet due.
    Live,
    /// On file, with its blob, and due for reclamation.
    Expired,
    /// On file, its blob already removed.
    BlobDeleted,
    /// Gone from the metadata store. This is final.
    Purged,
}

impl Stage {
    /// The position of a stage in the order in which an upload passes
    /// through them.
    pub open spec fn rank(self) -> int {
        match self {
            Stage::Live => 0,
            Stage::Expired => 1,
            Stage::BlobDeleted => 2,
            Stage::Purged => 3,
        }
    }
}

impl World {
    /// The stage of the upload under `key` at time `now`.
    pub open spec fn stage(self, key: Seq<char>, now: int) -> Stage {
        if !self.has_record(key) {
            Stage::Purged
        } else if !self.has_blob(key) {
            Stage::BlobDeleted
        } else if self.records[key].expired_at(now) {
            Stage::Expired
        } else {
            Stage::Live
        }
    }

    /// Whether the blob store holds an object under `key`.
    pub open spec fn has_blob(self, key: Seq<char>) -> bool {
        self.blobs.dom().contains(key)
    }

    /// Whether the metadata store holds a record under `key`.
    pub open spec fn has_record(self, key: Seq<char>) -> bool {
        self.records.dom().contains(key)
    }

    /// The liveness correspondence between the stores: every record has its
    /// blob.
    pub open spec fn consistent(self) -> bool {
        forall|key: Seq<char>| #[trigger] self.has_record(key) ==> self.has_blob(key)
    }

    /// Whether `upload` is live with the content `body`: its record is the one
    /// on file, and its blob holds `body` under `head`.
    pub open spec fn holds(self, upload: UploadView, head: BlobHeadView, body: Seq<u8>) -> bool {
        &&& self.has_blob(upload.key)
        &&& self.blobs[upload.key] == StoredBlob { head, body }
        &&& self.has_record(upload.key)
        &&& self.records[upload.key] == upload
    }

    /// Whether `rows` is an honest answer to a selection of the records due
    /// at `now`: every row is a record on file, and no due record is left out.
    pub open spec fn lists_due(self, rows: Seq<UploadView>, now: int) -> bool {
        &&& forall|i: int|
            0 <= i < rows.len() ==> {
                &&& self.has_record(#[trigger] rows[i].key)
                &&& self.records[rows[i].key] == rows[i]
            }
        &&& forall|key: Seq<char>|
            #[trigger] self.has_record(key) && self.records[key].expired_at(now) ==> exists|i: int|
                0 <= i < rows.len() && #[trigger] rows[i].key == key
    }

    /// Whether a store may give `reply` to `request`. Any request may fail.
    /// One that does not fail is answered truthfully; writes and removals
    /// then take effect, and removing what is not there is no error.
    pub open spec fn answers(self, request: RequestView, reply: ReplyView) -> bool {
        reply is Failed || match request {
            RequestView::HeadBlob { key } => if self.has_blob(key) {
                reply is Present
            } else {
                reply is Absent
            },
            RequestView::PutBlob { .. } => reply is Done,
            RequestView::GetBlob { key } => if self.has_blob(key) {
                reply == (ReplyView::Object { head: self.blobs[key].head })
            } else {
                reply is Absent
            },
            RequestView::DeleteBlob { key } => reply is Done || (reply is Absent && !self.has_blob(
                key,
            )),
            RequestView::InsertRecord { record } => if self.has_record(record.key) {
                reply is Conflict
            } else {
                reply is Done
            },
            RequestView::FindRecord { key } => if self.has_record(key) {
                reply == (ReplyView::Record { record: self.records[key] })
            } else {
                reply is Absent
            },
            RequestView::DeleteRecord { key } => reply is Done || (reply is Absent
                && !self.has_record(key)),
            RequestView::SelectExpired { now } => reply matches ReplyView::Rows { rows }
                && self.lists_due(rows, now),
        }
    }

    /// The stores after `request` was answered with `reply`.
    pub open spec fn after(self, request: RequestView, reply: ReplyView) -> World {
        if reply is Done {
            match request {
                RequestView::PutBlob { key, head, body } => World {
                    blobs: self.blobs.insert(key, StoredBlob { head, body }),
                    ..self
                },
                RequestView::DeleteBlob { key } => World { blobs: self.blobs.remove(key), ..self },
                RequestView::InsertRecord { record } => World {
                    records: self.records.insert(record.key, record),
                    ..self
                },
                RequestView::DeleteRecord { key } => World {
                    records: self.records.remove(key),
                    ..self
                },
                _ => self,
            }
        } else {
            self
        }
    }

    /// Whether everything stored in `self` is stored unchanged in `later`:
    /// each object with its bytes and headers, and with its record or without
    /// one as before.
    pub open spec fn kept_in(self, later: World) -> bool {
        forall|key: Seq<char>| #[trigger]
            self.has_blob(key) ==> {
                &&& later.has_blob(key)
                &&& later.blobs[key] == self.blobs[key]
                &&& later.has_record(key) == self.has_record(key)
                &&& self.has_record(key) ==> later.records[key] == self.records[key]
            }
    }
}

} // verus!
