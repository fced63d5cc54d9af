//! What the reaper guarantees against the model of the stores.

use vstd::prelude::*;
use crate::error::{AppError, Failure};
use crate::fetch::FetchTurnView;
use crate::fetch_laws::{fetch_exchange, fetch_outcome, law_fetch_refuses_dead_key};
use crate::model::UploadView;
use crate::reaper::{
    expired_rows, reap_advance, reap_next, reap_start, ReapPhase, ReapReportView, ReapSessionView,
    ReapTurnView,
};
use crate::store::{ReplyView, RequestView};
use crate::world::World;

verus! {

/// The turn that follows `turn` on `reply`. A cycle that is over stays as it
/// is.
pub open spec fn reap_turn_after(turn: ReapTurnView, reply: ReplyView) -> ReapTurnView {
    match turn {
        ReapTurnView::Send { session, .. } => reap_next(session, reply),
        ReapTurnView::Finish { .. } => turn,
    }
}

/// The stores after the request of `turn`, if it sends one, was answered
/// with `reply`.
pub open spec fn reap_world_after(turn: ReapTurnView, w: World, reply: ReplyView) -> World {
    match turn {
        ReapTurnView::Send { request, .. } => w.after(request, reply),
        ReapTurnView::Finish { .. } => w,
    }
}

/// Whether `reply` is an answer that the stores of `w` may give to the
/// request that `turn` sends.
pub open spec fn reap_faithful(turn: ReapTurnView, w: World, reply: ReplyView) -> bool {
    turn matches ReapTurnView::Send { request, .. } && w.answers(request, reply)
}

/// The turn and the stores reached from `turn` and `w` by the steps that
/// `replies` answer, in order.
pub open spec fn reap_run(turn: ReapTurnView, w: World, replies: Seq<ReplyView>) -> (
    ReapTurnView,
    World,
)
    decreases replies.len(),
{
    if replies.len() == 0 {
        (turn, w)
    } else {
        let (t, v) = reap_run(turn, w, replies.drop_last());
        (reap_turn_after(t, replies.last()), reap_world_after(t, v, replies.last()))
    }
}

/// Whether every step of the run is faithful.
pub open spec fn reap_run_faithful(turn: ReapTurnView, w: World, replies: Seq<ReplyView>) -> bool
    decreases replies.len(),
{
    replies.len() == 0 || {
        let (t, v) = reap_run(turn, w, replies.drop_last());
        reap_run_faithful(turn, w, replies.drop_last()) && reap_faithful(t, v, replies.last())
    }
}

/// What the stores let happen to one due record in a cycle.
pub enum Fate {
    /// Both removals succeed.
    Purged,
    /// The removal of the blob fails; the record is then left alone.
    BlobKept,
    /// The blob is removed, but the removal of the record fails.
    RecordKept,
}

/// The answers of a cycle in which the selection returns `rows` and the due
/// records meet the given fates, one after the other.
pub open spec fn cycle_replies(rows: Seq<UploadView>, fates: Seq<Fate>) -> Seq<ReplyView>
    decreases fates.len(),
{
    if fates.len() == 0 {
        seq![ReplyView::Rows { rows }]
    } else {
        let before = cycle_replies(rows, fates.drop_last());
        match fates.last() {
            Fate::Purged => before.push(ReplyView::Done).push(ReplyView::Done),
            Fate::BlobKept => before.push(ReplyView::Failed),
            Fate::RecordKept => before.push(ReplyView::Done).push(ReplyView::Failed),
        }
    }
}

/// The keys, among the first `fates.len()` of `due`, whose fate is to be
/// purged.
pub open spec fn purged_keys(due: Seq<UploadView>, fates: Seq<Fate>) -> Seq<Seq<char>>
    decreases fates.len(),
{
    if fates.len() == 0 {
        Seq::empty()
    } else if fates.last() is Purged {
        purged_keys(due, fates.drop_last()).push(due[fates.len() - 1].key)
    } else {
        purged_keys(due, fates.drop_last())
    }
}

/// The keys, among the first `fates.len()` of `due`, of which a removal
/// fails.
pub open spec fn failed_keys(due: Seq<UploadView>, fates: Seq<Fate>) -> Seq<Seq<char>>
    decreases fates.len(),
{
    if fates.len() == 0 {
        Seq::empty()
    } else if fates.last() is Purged {
        failed_keys(due, fates.drop_last())
    } else {
        failed_keys(due, fates.drop_last()).push(due[fates.len() - 1].key)
    }
}

/// The stores once the first `fates.len()` of `due` have met their fates.
pub open spec fn reaped(w: World, due: Seq<UploadView>, fates: Seq<Fate>) -> World
    decreases fates.len(),
{
    if fates.len() == 0 {
        w
    } else {
        let v = reaped(w, due, fates.drop_last());
        let key = due[fates.len() - 1].key;
        match fates.last() {
            Fate::Purged => World { blobs: v.blobs.remove(key), records: v.records.remove(key) },
            Fate::BlobKept => v,
            Fate::RecordKept => World { blobs: v.blobs.remove(key), ..v },
        }
    }
}

/// The session of a cycle at time `now` that has dealt with the first
/// `fates.len()` records of its queue `due`.
pub open spec fn reap_progress(
    now: int,
    due: Seq<UploadView>,
    fates: Seq<Fate>,
) -> ReapSessionView {
    ReapSessionView {
        now,
        queue: due,
        cursor: fates.len(),
        purged: purged_keys(due, fates),
        failed: failed_keys(due, fates),
        phase: ReapPhase::Selecting,
    }
}

proof fn lemma_reap_run_push(
    turn: ReapTurnView,
    w: World,
    replies: Seq<ReplyView>,
    reply: ReplyView,
)
    ensures
        reap_run(turn, w, replies.push(reply)) == (
            reap_turn_after(reap_run(turn, w, replies).0, reply),
            reap_world_after(reap_run(turn, w, replies).0, reap_run(turn, w, replies).1, reply),
        ),
        reap_run_faithful(turn, w, replies.push(reply)) == (reap_run_faithful(turn, w, replies)
            && reap_faithful(reap_run(turn, w, replies).0, reap_run(turn, w, replies).1, reply)),
{
    assert(replies.push(reply).drop_last() == replies);
}

proof fn lemma_reap_cycle(w: World, now: int, rows: Seq<UploadView>, fates: Seq<Fate>)
    requires
        w.lists_due(rows, now),
        fates.len() <= expired_rows(rows, now).len(),
    ensures
        reap_run_faithful(reap_start(now), w, cycle_replies(rows, fates)),
        reap_run(reap_start(now), w, cycle_replies(rows, fates)) == (
            reap_advance(reap_progress(now, expired_rows(rows, now), fates)),
            reaped(w, expired_rows(rows, now), fates),
        ),
    decreases fates.len(),
{
    let due = expired_rows(rows, now);
    let start = reap_start(now);
    if fates.len() == 0 {
        let none = Seq::<ReplyView>::empty();
        assert(seq![ReplyView::Rows { rows }] == none.push(ReplyView::Rows { rows }));
        assert(reap_run(start, w, none) == (start, w));
        assert(reap_run_faithful(start, w, none));
        lemma_reap_run_push(start, w, none, ReplyView::Rows { rows });
    } else {
        let fewer = fates.drop_last();
        lemma_reap_cycle(w, now, rows, fewer);
        let before = cycle_replies(rows, fewer);
        let (t, v) = reap_run(start, w, before);
        let s = reap_progress(now, due, fewer);
        assert(t == reap_advance(s));
        assert(s.cursor < due.len());
        let key = due[s.cursor as int].key;
        match fates.last() {
            Fate::Purged => {
                lemma_reap_run_push(start, w, before, ReplyView::Done);
                lemma_reap_run_push(start, w, before.push(ReplyView::Done), ReplyView::Done);
            },
            Fate::BlobKept => {
                lemma_reap_run_push(start, w, before, ReplyView::Failed);
            },
            Fate::RecordKept => {
                lemma_reap_run_push(start, w, before, ReplyView::Done);
                lemma_reap_run_push(start, w, before.push(ReplyView::Done), ReplyView::Failed);
            },
        }
    }
}

proof fn lemma_due_rows_are_expired_rows(rows: Seq<UploadView>, now: int)
    ensures
        forall|j: int|
            0 <= j < expired_rows(rows, now).len() ==> {
                &&& (#[trigger] expired_rows(rows, now)[j]).expired_at(now)
                &&& exists|i: int|
                    0 <= i < rows.len() && #[trigger] rows[i] == expired_rows(rows, now)[j]
            },
        forall|i: int|
            0 <= i < rows.len() && (#[trigger] rows[i]).expired_at(now) ==> exists|j: int|
                0 <= j < expired_rows(rows, now).len() && #[trigger] expired_rows(rows, now)[j]
                    == rows[i],
    decreases rows.len(),
{
    if rows.len() > 0 {
        let fewer = rows.drop_last();
        lemma_due_rows_are_expired_rows(fewer, now);
        let due = expired_rows(rows, now);
        let before = expired_rows(fewer, now);
        assert forall|j: int| 0 <= j < due.len() implies {
            &&& (#[trigger] due[j]).expired_at(now)
            &&& exists|i: int| 0 <= i < rows.len() && #[trigger] rows[i] == due[j]
        } by {
            if j < before.len() {
                assert(due[j] == before[j]);
                let i = choose|i: int| 0 <= i < fewer.len() && #[trigger] fewer[i] == before[j];
                assert(rows[i] == due[j]);
            } else {
                assert(rows[rows.len() - 1] == due[j]);
            }
        }
        assert forall|i: int| 0 <= i < rows.len() && (#[trigger] rows[i]).expired_at(
            now,
        ) implies exists|j: int| 0 <= j < due.len() && #[trigger] due[j] == rows[i] by {
            if i < fewer.len() {
                assert(fewer[i] == rows[i]);
                let j = choose|j: int| 0 <= j < before.len() && #[trigger] before[j] == fewer[i];
                assert(due[j] == rows[i]);
            } else {
                assert(due[due.len() - 1] == rows[i]);
            }
        }
    }
}

proof fn lemma_reaped_only_removes(w: World, due: Seq<UploadView>, fates: Seq<Fate>, key: Seq<char>)
    ensures
        reaped(w, due, fates).has_blob(key) ==> w.has_blob(key) && reaped(w, due, fates).blobs[key]
            == w.blobs[key],
        reaped(w, due, fates).has_record(key) ==> w.has_record(key) && reaped(
            w,
            due,
            fates,
        ).records[key] == w.records[key],
    decreases fates.len(),
{
    if fates.len() > 0 {
        lemma_reaped_only_removes(w, due, fates.drop_last(), key);
    }
}

proof fn lemma_reaped_removes_purged(w: World, due: Seq<UploadView>, fates: Seq<Fate>, j: int)
    requires
        0 <= j < fates.len(),
        fates[j] is Purged,
    ensures
        !reaped(w, due, fates).has_blob(due[j].key),
        !reaped(w, due, fates).has_record(due[j].key),
    decreases fates.len(),
{
    let fewer = fates.drop_last();
    if j < fewer.len() {
        assert(fewer[j] == fates[j]);
        lemma_reaped_removes_purged(w, due, fewer, j);
    }
}

proof fn lemma_reaped_spares_others(
    w: World,
    due: Seq<UploadView>,
    fates: Seq<Fate>,
    key: Seq<char>,
)
    requires
        forall|j: int| 0 <= j < fates.len() ==> (#[trigger] due[j]).key != key,
    ensures
        reaped(w, due, fates).has_blob(key) == w.has_blob(key),
        reaped(w, due, fates).has_record(key) == w.has_record(key),
        reaped(w, due, fates).blobs[key] == w.blobs[key],
        reaped(w, due, fates).records[key] == w.records[key],
    decreases fates.len(),
{
    if fates.len() > 0 {
        lemma_reaped_spares_others(w, due, fates.drop_last(), key);
        assert(due[fates.len() - 1].key != key);
    }
}

/// A cycle whose selection is answered with `rows` runs to its end whatever
/// becomes of the single records: it takes the due rows in order, removes of
/// each the blob and then the record, passes on after a failure, and reports
/// as purged exactly the keys of which both removals succeeded and as failed
/// all the others. The stores end up without what was removed, and
/// otherwise as they were.
pub proof fn law_reap_cycle_completes(w: World, now: int, rows: Seq<UploadView>, fates: Seq<Fate>)
    requires
        w.lists_due(rows, now),
        fates.len() == expired_rows(rows, now).len(),
    ensures
        reap_run_faithful(reap_start(now), w, cycle_replies(rows, fates)),
        reap_run(reap_start(now), w, cycle_replies(rows, fates)) == (
            ReapTurnView::Finish {
                result: Ok(
                    ReapReportView {
                        purged: purged_keys(expired_rows(rows, now), fates),
                        failed: failed_keys(expired_rows(rows, now), fates),
                    },
                ),
            },
            reaped(w, expired_rows(rows, now), fates),
        ),
{
    lemma_reap_cycle(w, now, rows, fates);
}

/// A failure on one record holds up no other: every due record of which
/// both removals succeed is gone from both stores when the cycle ends, and
/// is not found from then on, whatever became of the other records of the
/// cycle.
pub proof fn law_failure_is_isolated(
    w: World,
    now: int,
    rows: Seq<UploadView>,
    fates: Seq<Fate>,
    j: int,
    first: ReplyView,
    second: ReplyView,
)
    requires
        w.lists_due(rows, now),
        fates.len() == expired_rows(rows, now).len(),
        0 <= j < fates.len(),
        fates[j] is Purged,
        fetch_exchange(
            reap_run(reap_start(now), w, cycle_replies(rows, fates)).1,
            expired_rows(rows, now)[j].key,
            first,
            second,
        ),
    ensures
        ({
            let w1 = reap_run(reap_start(now), w, cycle_replies(rows, fates)).1;
            let key = expired_rows(rows, now)[j].key;
            &&& !w1.has_blob(key)
            &&& !w1.has_record(key)
            &&& fetch_outcome(key, first, second) == (FetchTurnView::Respond {
                result: Err(AppError { inner: Failure::NotFound }),
            })
        }),
{
    lemma_reap_cycle(w, now, rows, fates);
    let due = expired_rows(rows, now);
    lemma_reaped_removes_purged(w, due, fates, j);
    law_fetch_refuses_dead_key(reaped(w, due, fates), due[j].key, first, second);
}

/// Once a record's expiry has passed, one cycle that meets no failure
/// reclaims it: its blob is gone, its record is gone, and a retrieval of
/// its key is answered with not-found.
pub proof fn law_expired_upload_is_reclaimed(
    w: World,
    now: int,
    rows: Seq<UploadView>,
    fates: Seq<Fate>,
    key: Seq<char>,
    first: ReplyView,
    second: ReplyView,
)
    requires
        w.lists_due(rows, now),
        fates.len() == expired_rows(rows, now).len(),
        forall|j: int| 0 <= j < fates.len() ==> (#[trigger] fates[j]) is Purged,
        w.has_record(key),
        w.records[key].expired_at(now),
        fetch_exchange(
            reap_run(reap_start(now), w, cycle_replies(rows, fates)).1,
            key,
            first,
            second,
        ),
    ensures
        ({
            let w1 = reap_run(reap_start(now), w, cycle_replies(rows, fates)).1;
            &&& !w1.has_blob(key)
            &&& !w1.has_record(key)
            &&& fetch_outcome(key, first, second) == (FetchTurnView::Respond {
                result: Err(AppError { inner: Failure::NotFound }),
            })
        }),
{
    let due = expired_rows(rows, now);
    lemma_due_rows_are_expired_rows(rows, now);
    let i = choose|i: int| 0 <= i < rows.len() && #[trigger] rows[i].key == key;
    assert(rows[i] == w.records[key]);
    let j = choose|j: int| 0 <= j < due.len() && #[trigger] due[j] == rows[i];
    assert(fates[j] is Purged);
    law_failure_is_isolated(w, now, rows, fates, j, first, second);
}

/// The reaper touches nothing but what has expired: an upload whose expiry
/// has not passed keeps its record and its blob through the cycle, whatever
/// the selection returned and whatever became of the due records.
pub proof fn law_reaper_spares_live_uploads(
    w: World,
    now: int,
    rows: Seq<UploadView>,
    fates: Seq<Fate>,
    key: Seq<char>,
)
    requires
        w.lists_due(rows, now),
        fates.len() == expired_rows(rows, now).len(),
        w.has_record(key),
        !w.records[key].expired_at(now),
    ensures
        ({
            let w1 = reap_run(reap_start(now), w, cycle_replies(rows, fates)).1;
            &&& w1.has_record(key)
            &&& w1.records[key] == w.records[key]
            &&& w1.has_blob(key) == w.has_blob(key)
            &&& w1.blobs[key] == w.blobs[key]
        }),
{
    let due = expired_rows(rows, now);
    lemma_reap_cycle(w, now, rows, fates);
    lemma_due_rows_are_expired_rows(rows, now);
    assert forall|j: int| 0 <= j < fates.len() implies (#[trigger] due[j]).key != key by {
        if due[j].key == key {
            let i = choose|i: int| 0 <= i < rows.len() && #[trigger] rows[i] == due[j];
            assert(w.has_record(rows[i].key));
            assert(w.records[key] == due[j]);
            assert(due[j].expired_at(now));
        }
    }
    lemma_reaped_spares_others(w, due, fates, key);
}

/// The reaper only removes: whatever the stores hold after a cycle, they
/// held before it, unchanged.
pub proof fn law_reaper_only_removes(
    w: World,
    now: int,
    rows: Seq<UploadView>,
    fates: Seq<Fate>,
    key: Seq<char>,
)
    requires
        w.lists_due(rows, now),
        fates.len() == expired_rows(rows, now).len(),
    ensures
        ({
            let w1 = reap_run(reap_start(now), w, cycle_replies(rows, fates)).1;
            &&& w1.has_blob(key) ==> w.has_blob(key) && w1.blobs[key] == w.blobs[key]
            &&& w1.has_record(key) ==> w.has_record(key) && w1.records[key] == w.records[key]
        }),
{
    lemma_reap_cycle(w, now, rows, fates);
    lemma_reaped_only_removes(w, expired_rows(rows, now), fates, key);
}

/// A cycle moves an upload only forward in its life, from expired to
/// blob-deleted to purged, and a live upload not at all. A cycle that is
/// cut short between the two removals of a record leaves the record
/// blob-deleted, from where a later cycle takes it up again.
pub proof fn law_reaper_moves_forward(
    w: World,
    now: int,
    rows: Seq<UploadView>,
    fates: Seq<Fate>,
    key: Seq<char>,
)
    requires
        w.lists_due(rows, now),
        fates.len() == expired_rows(rows, now).len(),
    ensures
        ({
            let w1 = reap_run(reap_start(now), w, cycle_replies(rows, fates)).1;
            &&& w.stage(key, now).rank() <= w1.stage(key, now).rank()
            &&& w.stage(key, now) is Live ==> w1.stage(key, now) is Live
        }),
{
    law_reaper_only_removes(w, now, rows, fates, key);
    if w.stage(key, now) is Live {
        law_reaper_spares_live_uploads(w, now, rows, fates, key);
    }
}

proof fn lemma_reaped_stays_consistent(w: World, due: Seq<UploadView>, fates: Seq<Fate>)
    requires
        w.consistent(),
        forall|j: int| 0 <= j < fates.len() ==> !((#[trigger] fates[j]) is RecordKept),
    ensures
        reaped(w, due, fates).consistent(),
    decreases fates.len(),
{
    if fates.len() > 0 {
        let fewer = fates.drop_last();
        assert forall|j: int| 0 <= j < fewer.len() implies !((#[trigger] fewer[j])
            is RecordKept) by {
            assert(fewer[j] == fates[j]);
        }
        lemma_reaped_stays_consistent(w, due, fewer);
        let v = reaped(w, due, fewer);
        let v1 = reaped(w, due, fates);
        assert(!(fates[fates.len() - 1] is RecordKept));
        assert forall|key: Seq<char>| #[trigger] v1.has_record(key) implies v1.has_blob(key) by {
            assert(v.has_record(key));
            assert(v.has_blob(key));
        }
    }
}

/// The reaper leaves no record without its blob, unless the removal of a
/// record fails after its blob is gone: from stores in which every record
/// has its blob, a cycle in which no such failure occurs leads to such
/// stores again. After such a failure the record stays on file without its
/// blob until a later cycle removes it; a retrieval of its key is not found
/// in the meantime.
pub proof fn law_reaper_stays_consistent(
    w: World,
    now: int,
    rows: Seq<UploadView>,
    fates: Seq<Fate>,
)
    requires
        w.consistent(),
        w.lists_due(rows, now),
        fates.len() == expired_rows(rows, now).len(),
        forall|j: int| 0 <= j < fates.len() ==> !((#[trigger] fates[j]) is RecordKept),
    ensures
        reap_run(reap_start(now), w, cycle_replies(rows, fates)).1.consistent(),
{
    lemma_reap_cycle(w, now, rows, fates);
    lemma_reaped_stays_consistent(w, expired_rows(rows, now), fates);
}

/// A step changes nothing in the stores but what lies under the key of
/// the record at the cursor.
pub proof fn law_reap_step_is_local(
    s: ReapSessionView,
    reply: ReplyView,
    answer: ReplyView,
    w: World,
    key: Seq<char>,
)
    requires
        reap_next(s, reply) matches ReapTurnView::Send { session, .. } ==> !(session.cursor
            < session.queue.len() && key == session.queue[session.cursor as int].key),
    ensures
        ({
            let v = reap_world_after(reap_next(s, reply), w, answer);
            &&& v.has_blob(key) == w.has_blob(key)
            &&& v.blobs[key] == w.blobs[key]
            &&& v.has_record(key) == w.has_record(key)
            &&& v.records[key] == w.records[key]
        }),
{
}

/// No record is removed without a preceding, confirmed removal of its blob:
/// the reaper asks for the removal of a record only in answer to a reply
/// that confirms that the blob of that very record is gone.
pub proof fn law_record_goes_after_blob(s: ReapSessionView, reply: ReplyView, now: int)
    ensures
        !(reap_start(now) matches ReapTurnView::Send { request, .. } && request is DeleteRecord),
        !(reap_advance(s) matches ReapTurnView::Send { request, .. } && request is DeleteRecord),
        reap_next(s, reply) matches ReapTurnView::Send {
            request: RequestView::DeleteRecord { key },
            ..
        } ==> {
            &&& s.phase is DeletingBlob
            &&& s.cursor < s.queue.len()
            &&& key == s.queue[s.cursor as int].key
            &&& reply.confirms_removal()
        },
{
}

} // verus!
