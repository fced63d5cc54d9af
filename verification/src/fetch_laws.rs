//! What the retrieval coordinator guarantees against the model of the
//! stores.

use vstd::prelude::*;
use crate::error::{AppError, Failure, STATUS_NOT_FOUND};
use crate::fetch::{fetch_next, fetch_start, FetchSessionView, FetchTurnView};
use crate::store::ReplyView;
use crate::world::World;

verus! {

/// The turn that follows `turn` on `reply`. A retrieval that has responded
/// stays as it is.
pub open spec fn fetch_turn_after(turn: FetchTurnView, reply: ReplyView) -> FetchTurnView {
    match turn {
        FetchTurnView::Send { session, .. } => fetch_next(session, reply),
        FetchTurnView::Respond { .. } => turn,
    }
}

/// Whether `reply` is an answer that the stores of `w` may give, without
/// failing, to the request that `turn` sends. Nothing is demanded of a reply
/// that no request is waiting for.
pub open spec fn fetch_answered(turn: FetchTurnView, w: World, reply: ReplyView) -> bool {
    turn matches FetchTurnView::Send { request, .. } ==> w.answers(request, reply) && !(reply
        is Failed)
}

/// Where the retrieval of `key` stands after the replies `first` and
/// `second`.
pub open spec fn fetch_outcome(
    key: Seq<char>,
    first: ReplyView,
    second: ReplyView,
) -> FetchTurnView {
    fetch_turn_after(fetch_turn_after(fetch_start(key), first), second)
}

/// Whether `first` and `second` are what the stores of `w` answer, without
/// failing, to the requests that the retrieval of `key` makes.
pub open spec fn fetch_exchange(
    w: World,
    key: Seq<char>,
    first: ReplyView,
    second: ReplyView,
) -> bool {
    &&& fetch_answered(fetch_start(key), w, first)
    &&& fetch_answered(fetch_turn_after(fetch_start(key), first), w, second)
}

/// A key whose blob and record are both on file is served, with the headers
/// that the blob is stored under.
pub proof fn law_fetch_serves_live_key(
    w: World,
    key: Seq<char>,
    first: ReplyView,
    second: ReplyView,
)
    requires
        w.has_blob(key),
        w.has_record(key),
        fetch_exchange(w, key, first, second),
    ensures
        fetch_outcome(key, first, second) == (FetchTurnView::Respond {
            result: Ok(w.blobs[key].head),
        }),
{
}

/// A key that lacks its blob or its record is not found, and the client is
/// told so with the not-found status. This covers a key that was never
/// issued, which has no record, and a key that has been reclaimed.
pub proof fn law_fetch_refuses_dead_key(
    w: World,
    key: Seq<char>,
    first: ReplyView,
    second: ReplyView,
)
    requires
        !w.has_blob(key) || !w.has_record(key),
        fetch_exchange(w, key, first, second),
    ensures
        fetch_outcome(key, first, second) == (FetchTurnView::Respond {
            result: Err(AppError { inner: Failure::NotFound }),
        }),
        (AppError { inner: Failure::NotFound }).spec_status() == STATUS_NOT_FOUND,
{
}

/// A retrieval that overlaps a reclamation ends cleanly. Let the stores
/// change between its two requests, from `before` to `after`. Then the
/// content is served only if the blob was there at the first request and
/// the record still at the second; otherwise the key is not found. A key
/// whose record has been reclaimed in between is never served.
pub proof fn law_fetch_across_changes(
    before: World,
    after: World,
    key: Seq<char>,
    first: ReplyView,
    second: ReplyView,
)
    requires
        fetch_answered(fetch_start(key), before, first),
        fetch_answered(fetch_turn_after(fetch_start(key), first), after, second),
    ensures
        fetch_outcome(key, first, second) == (FetchTurnView::Respond {
            result: if before.has_blob(key) && after.has_record(key) {
                Ok(before.blobs[key].head)
            } else {
                Err(AppError { inner: Failure::NotFound })
            },
        }),
{
}

/// A retrieval only reads: no request that it sends changes either store,
/// whatever the answer.
pub proof fn law_fetch_reads_only(
    w: World,
    session: FetchSessionView,
    reply: ReplyView,
    answer: ReplyView,
)
    ensures
        fetch_start(session.key) matches FetchTurnView::Send { request, .. } && w.after(
            request,
            answer,
        ) == w,
        fetch_next(session, reply) matches FetchTurnView::Send { request, .. } ==> w.after(
            request,
            answer,
        ) == w,
{
}

} // verus!
