//! The reaper: one session per reclamation cycle.
//!
//! A cycle selects the records whose expiry has passed and purges them one
//! by one: first the blob, then, only once the blob is confirmed gone, the
//! record, each removal committed on its own. A record whose removal fails
//! is noted and left for the next cycle; the cycle goes on with the others.

use vstd::prelude::*;
use crate::clock::now_micros;
use crate::error::{any_error, AppError, Failure};
use crate::model::{records_view, Upload, UploadView};
use crate::store::{Reply, ReplyView, Request, RequestView};

verus! {

/// Where a cycle stands.
#[derive(Clone, Copy, Debug, PartialEq, Eq, Structural)]
pub enum ReapPhase {
    /// Asked the metadata store for the expired records.
    Selecting,
    /// Asked the blob store to remove the blob of the record at the cursor.
    DeletingBlob,
    /// Asked the metadata store to remove the record at the cursor.
    DeletingRecord,
}

/// The state of one cycle.
#[derive(Debug, PartialEq, Eq)]
pub struct ReapSession {
    /// The time the cycle goes by.
    pub now: i64,
    /// The records to purge in this cycle.
    pub queue: Vec<Upload>,
    /// Index into `queue` of the record being purged.
    pub cursor: usize,
    /// Keys purged from both stores, in the order of the queue.
    pub purged: Vec<String>,
    /// Keys of which a removal failed, in the order of the queue.
    pub failed: Vec<String>,
    pub phase: ReapPhase,
}

/// Mathematical value of a [`ReapSession`].
pub struct ReapSessionView {
    pub now: int,
    pub queue: Seq<UploadView>,
    pub cursor: nat,
    pub purged: Seq<Seq<char>>,
    pub failed: Seq<Seq<char>>,
    pub phase: ReapPhase,
}

/// Views of a vector of keys, element by element.
pub open spec fn keys_view(keys: Seq<String>) -> Seq<Seq<char>> {
    keys.map_values(|k: String| k@)
}

impl View for ReapSession {
    type V = ReapSessionView;

    open spec fn view(&self) -> ReapSessionView {
        ReapSessionView {
            now: self.now as int,
            queue: records_view(self.queue@),
            cursor: self.cursor as nat,
            purged: keys_view(self.purged@),
            failed: keys_view(self.failed@),
            phase: self.phase,
        }
    }
}

/// What a cycle did.
#[derive(Debug, PartialEq, Eq)]
pub struct ReapReport {
    /// Keys purged from both stores.
    pub purged: Vec<String>,
    /// Keys left behind because a removal failed.
    pub failed: Vec<String>,
}

/// Mathematical value of a [`ReapReport`].
pub struct ReapReportView {
    pub purged: Seq<Seq<char>>,
    pub failed: Seq<Seq<char>>,
}

impl View for ReapReport {
    type V = ReapReportView;

    open spec fn view(&self) -> ReapReportView {
        ReapReportView { purged: keys_view(self.purged@), failed: keys_view(self.failed@) }
    }
}

/// What the caller does next.
#[derive(Debug, PartialEq, Eq)]
pub enum ReapTurn {
    /// Send the request to its store and report the answer.
    Send { session: ReapSession, request: Request },
    /// The cycle is over: its report, or the reason it could not start.
    Finish { result: Result<ReapReport, AppError> },
}

/// Mathematical value of a [`ReapTurn`].
pub enum ReapTurnView {
    Send { session: ReapSessionView, request: RequestView },
    Finish { result: Result<ReapReportView, AppError> },
}

impl View for ReapTurn {
    type V = ReapTurnView;

    open spec fn view(&self) -> ReapTurnView {
        match *self {
            ReapTurn::Send { session, request } => ReapTurnView::Send {
                session: session@,
                request: request@,
            },
            ReapTurn::Finish { result } => ReapTurnView::Finish {
                result: match result {
                    Ok(report) => Ok(report@),
                    Err(e) => Err(e),
                },
            },
        }
    }
}

/// The records of `rows` that are due at `now`, in their order.
pub open spec fn expired_rows(rows: Seq<UploadView>, now: int) -> Seq<UploadView>
    decreases rows.len(),
{
    if rows.len() == 0 {
        Seq::empty()
    } else if rows.last().expired_at(now) {
        expired_rows(rows.drop_last(), now).push(rows.last())
    } else {
        expired_rows(rows.drop_last(), now)
    }
}

/// The first turn of a cycle that goes by the time `now`.
pub open spec fn reap_start(now: int) -> ReapTurnView {
    ReapTurnView::Send {
        session: ReapSessionView {
            now,
            queue: Seq::empty(),
            cursor: 0,
            purged: Seq::empty(),
            failed: Seq::empty(),
            phase: ReapPhase::Selecting,
        },
        request: RequestView::SelectExpired { now },
    }
}

/// Turns to the record at the cursor, or ends the cycle when the queue is
/// used up.
pub open spec fn reap_advance(s: ReapSessionView) -> ReapTurnView {
    if s.cursor < s.queue.len() {
        ReapTurnView::Send {
            session: ReapSessionView { phase: ReapPhase::DeletingBlob, ..s },
            request: RequestView::DeleteBlob { key: s.queue[s.cursor as int].key },
        }
    } else {
        ReapTurnView::Finish {
            result: Ok(ReapReportView { purged: s.purged, failed: s.failed }),
        }
    }
}

/// Notes the record at the cursor as left behind and moves on.
pub open spec fn reap_skip(s: ReapSessionView) -> ReapTurnView {
    reap_advance(
        ReapSessionView {
            failed: s.failed.push(s.queue[s.cursor as int].key),
            cursor: s.cursor + 1,
            ..s
        },
    )
}

/// The transition function of the reaper.
pub open spec fn reap_next(s: ReapSessionView, reply: ReplyView) -> ReapTurnView {
    match s.phase {
        ReapPhase::Selecting => match reply {
            ReplyView::Rows { rows } => reap_advance(
                ReapSessionView { queue: expired_rows(rows, s.now), cursor: 0, ..s },
            ),
            _ => ReapTurnView::Finish {
                result: Err(AppError { inner: Failure::StoreUnavailable }),
            },
        },
        ReapPhase::DeletingBlob => if s.cursor >= s.queue.len() {
            reap_advance(s)
        } else if reply.confirms_removal() {
            ReapTurnView::Send {
                session: ReapSessionView { phase: ReapPhase::DeletingRecord, ..s },
                request: RequestView::DeleteRecord { key: s.queue[s.cursor as int].key },
            }
        } else {
            reap_skip(s)
        },
        ReapPhase::DeletingRecord => if s.cursor >= s.queue.len() {
            reap_advance(s)
        } else if reply.confirms_removal() {
            reap_advance(
                ReapSessionView {
                    purged: s.purged.push(s.queue[s.cursor as int].key),
                    cursor: s.cursor + 1,
                    ..s
                },
            )
        } else {
            reap_skip(s)
        },
    }
}

/// Keeps the records that are due at `now`.
pub fn select_expired(rows: Vec<Upload>, now: i64) -> (due: Vec<Upload>)
    ensures
        records_view(due@) == expired_rows(records_view(rows@), now as int),
{
    let mut due: Vec<Upload> = Vec::new();
    let mut i: usize = 0;
    while i < rows.len()
        invariant
            i <= rows@.len(),
            records_view(due@) == expired_rows(records_view(rows@).take(i as int), now as int),
        decreases rows@.len() - i,
    {
        let ghost seen = records_view(rows@).take(i as int);
        let ghost next = records_view(rows@).take(i + 1);
        assert(next.drop_last() == seen);
        assert(next.last() == rows@[i as int]@);
        if rows[i].is_expired(now) {
            let ghost before = records_view(due@);
            due.push(rows[i].clone());
            assert(records_view(due@) == before.push(rows@[i as int]@));
        }
        i = i + 1;
    }
    assert(records_view(rows@).take(i as int) == records_view(rows@));
    due
}

fn advance(session: ReapSession) -> (turn: ReapTurn)
    ensures
        turn@ == reap_advance(session@),
{
    if session.cursor < session.queue.len() {
        let request = Request::DeleteBlob { key: session.queue[session.cursor].key.clone() };
        ReapTurn::Send {
            session: ReapSession {
                now: session.now,
                queue: session.queue,
                cursor: session.cursor,
                purged: session.purged,
                failed: session.failed,
                phase: ReapPhase::DeletingBlob,
            },
            request,
        }
    } else {
        ReapTurn::Finish {
            result: Ok(ReapReport { purged: session.purged, failed: session.failed }),
        }
    }
}

fn skip(session: ReapSession) -> (turn: ReapTurn)
    requires
        session.cursor < session.queue@.len(),
    ensures
        turn@ == reap_skip(session@),
{
    let ghost before = session@;
    let len = session.queue.len();
    assert(session.cursor < len);
    let mut failed = session.failed;
    failed.push(session.queue[session.cursor].key.clone());
    assert(keys_view(failed@) == before.failed.push(before.queue[before.cursor as int].key));
    advance(
        ReapSession {
            now: session.now,
            queue: session.queue,
            cursor: session.cursor + 1,
            purged: session.purged,
            failed,
            phase: session.phase,
        },
    )
}

fn confirms_removal(reply: &Reply) -> (gone: bool)
    ensures
        gone == reply@.confirms_removal(),
{
    match reply {
        Reply::Done => true,
        Reply::Absent => true,
        _ => false,
    }
}

/// Opens a cycle that goes by the time `now`.
pub fn delete_expired_begin_at(now: i64) -> (turn: ReapTurn)
    ensures
        turn@ == reap_start(now as int),
{
    let queue: Vec<Upload> = Vec::new();
    let purged: Vec<String> = Vec::new();
    let failed: Vec<String> = Vec::new();
    assert(records_view(queue@) =~= Seq::empty());
    assert(keys_view(purged@) =~= Seq::empty());
    assert(keys_view(failed@) =~= Seq::empty());
    ReapTurn::Send {
        session: ReapSession { now, queue, cursor: 0, purged, failed, phase: ReapPhase::Selecting },
        request: Request::SelectExpired { now },
    }
}

/// Opens a cycle that goes by the current time.
pub fn delete_expired_begin() -> (turn: ReapTurn)
    ensures
        exists|now: int| i64::MIN <= now <= i64::MAX && #[trigger] reap_start(now) == turn@,
{
    delete_expired_begin_at(now_micros())
}

/// One step of the reaper.
pub fn delete_expired(session: ReapSession, reply: Reply) -> (turn: ReapTurn)
    ensures
        turn@ == reap_next(session@, reply@),
{
    match session.phase {
        ReapPhase::Selecting => match reply {
            Reply::Rows { rows } => {
                let queue = select_expired(rows, session.now);
                advance(
                    ReapSession {
                        now: session.now,
                        queue,
                        cursor: 0,
                        purged: session.purged,
                        failed: session.failed,
                        phase: session.phase,
                    },
                )
            },
            _ => ReapTurn::Finish { result: Err(any_error(Failure::StoreUnavailable)) },
        },
        ReapPhase::DeletingBlob => if session.cursor >= session.queue.len() {
            advance(session)
        } else if confirms_removal(&reply) {
            let request = Request::DeleteRecord {
                key: session.queue[session.cursor].key.clone(),
            };
            ReapTurn::Send {
                session: ReapSession {
                    now: session.now,
                    queue: session.queue,
                    cursor: session.cursor,
                    purged: session.purged,
                    failed: session.failed,
                    phase: ReapPhase::DeletingRecord,
                },
                request,
            }
        } else {
            skip(session)
        },
        ReapPhase::DeletingRecord => if session.cursor >= session.queue.len() {
            advance(session)
        } else if confirms_removal(&reply) {
            let ghost before = session@;
            let mut purged = session.purged;
            purged.push(session.queue[session.cursor].key.clone());
            assert(keys_view(purged@) == before.purged.push(
                before.queue[before.cursor as int].key,
            ));
            advance(
                ReapSession {
                    now: session.now,
                    queue: session.queue,
                    cursor: session.cursor + 1,
                    purged,
                    failed: session.failed,
                    phase: session.phase,
                },
            )
        } else {
            skip(session)
        },
    }
}

} // verus!
