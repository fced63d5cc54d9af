//! What the upload coordinator guarantees against the model of the stores.

use vstd::prelude::*;
use crate::error::{status_of, AppError, Failure, STATUS_OK};
use crate::fetch::FetchTurnView;
use crate::fetch_laws::{fetch_exchange, fetch_outcome, law_fetch_serves_live_key};
use crate::keygen::MAX_KEY_ATTEMPTS;
use crate::media::head_of;
use crate::model::{record_for, stampable, UploadView};
use crate::store::{ReplyView, RequestView};
use crate::upload::{
    field_kind, upload_fails, upload_next, upload_start, FieldKind, UploadEventView, UploadPhase,
    UploadSessionView, UploadTurnView,
};
use crate::world::{StoredBlob, World};

verus! {

/// Everything that enters one step of the coordinator from outside: the
/// event, the candidate key drawn, and the clock read.
pub struct UploadInput {
    pub event: UploadEventView,
    pub candidate: Seq<char>,
    pub now: int,
}

/// The turn that follows `turn` on `input`. A request that has been answered
/// stays as it is.
pub open spec fn upload_turn_after(turn: UploadTurnView, input: UploadInput) -> UploadTurnView {
    match turn {
        UploadTurnView::NextField { session } => upload_next(
            session,
            input.event,
            input.candidate,
            input.now,
        ),
        UploadTurnView::ReadBody { session } => upload_next(
            session,
            input.event,
            input.candidate,
            input.now,
        ),
        UploadTurnView::Send { session, .. } => upload_next(
            session,
            input.event,
            input.candidate,
            input.now,
        ),
        UploadTurnView::Respond { .. } => turn,
    }
}

/// The stores after the request of `turn`, if it sends one, was answered as
/// `input` reports.
pub open spec fn upload_world_after(turn: UploadTurnView, w: World, input: UploadInput) -> World {
    match turn {
        UploadTurnView::Send { request, .. } => w.after(request, input.event.reply()),
        _ => w,
    }
}

/// Whether `input` reports what `turn` asked for, and, where that is a
/// store's answer, one that the stores of `w` may give.
pub open spec fn upload_faithful(turn: UploadTurnView, w: World, input: UploadInput) -> bool {
    match turn {
        UploadTurnView::NextField { .. } => input.event is Field || input.event is End
            || input.event is Malformed,
        UploadTurnView::ReadBody { .. } => input.event is Body || input.event is Malformed,
        UploadTurnView::Send { request, .. } => input.event matches UploadEventView::Store { reply }
            && w.answers(request, reply),
        UploadTurnView::Respond { .. } => false,
    }
}

/// The turn and the stores reached from `turn` and `w` by the steps that
/// `inputs` report, in order.
pub open spec fn upload_run(turn: UploadTurnView, w: World, inputs: Seq<UploadInput>) -> (
    UploadTurnView,
    World,
)
    decreases inputs.len(),
{
    if inputs.len() == 0 {
        (turn, w)
    } else {
        let (t, v) = upload_run(turn, w, inputs.drop_last());
        (upload_turn_after(t, inputs.last()), upload_world_after(t, v, inputs.last()))
    }
}

/// Whether every step of the run is faithful.
pub open spec fn upload_run_faithful(
    turn: UploadTurnView,
    w: World,
    inputs: Seq<UploadInput>,
) -> bool
    decreases inputs.len(),
{
    inputs.len() == 0 || {
        let (t, v) = upload_run(turn, w, inputs.drop_last());
        upload_run_faithful(turn, w, inputs.drop_last()) && upload_faithful(t, v, inputs.last())
    }
}

/// Whether the session holds a blob of its own under its key, or is about
/// to write one.
pub open spec fn upload_owns_key(s: UploadSessionView) -> bool {
    s.phase is Writing || s.phase is Recording || s.phase is Discarding || s.phase is Compensating
}

/// Whether a turn is one that the coordinator itself produces: the session's
/// phase goes with the turn, and the request sent is the one of the phase.
pub open spec fn upload_coherent(turn: UploadTurnView) -> bool {
    match turn {
        UploadTurnView::NextField { session } => session.phase is AwaitField,
        UploadTurnView::ReadBody { session } => session.phase is AwaitBody,
        UploadTurnView::Send { session, request } => match session.phase {
            UploadPhase::Probing => request == (RequestView::HeadBlob { key: session.key }),
            UploadPhase::Writing => request == (RequestView::PutBlob {
                key: session.key,
                head: head_of(session.file_name),
                body: session.body,
            }),
            UploadPhase::Recording => request == (RequestView::InsertRecord {
                record: session.record(),
            }) && session.record().well_formed(),
            UploadPhase::Discarding => request == (RequestView::DeleteBlob { key: session.key }),
            UploadPhase::Compensating => request == (RequestView::DeleteBlob { key: session.key }),
            _ => false,
        },
        UploadTurnView::Respond { .. } => true,
    }
}

/// Whether the coordinator, at `turn` with the stores at `w`, stands clear of
/// everything that `base` holds: the key it owns is none of `base`, and all
/// of `base` is still in place. While a record is being written, the blob
/// under the session's key is the part's.
pub open spec fn upload_guards(turn: UploadTurnView, w: World, base: World) -> bool {
    &&& upload_coherent(turn)
    &&& base.kept_in(w)
    &&& turn matches UploadTurnView::Send { session, .. } ==> {
        &&& upload_owns_key(session) ==> !base.has_blob(session.key)
        &&& session.phase is Recording ==> w.has_blob(session.key) && w.blobs[session.key] == (
        StoredBlob { head: head_of(session.file_name), body: session.body })
    }
}

/// Every turn that the coordinator takes is coherent, whatever it is told.
pub proof fn law_upload_turns_are_coherent(
    s: UploadSessionView,
    e: UploadEventView,
    candidate: Seq<char>,
    now: int,
)
    ensures
        upload_coherent(upload_start()),
        upload_coherent(upload_next(s, e, candidate, now)),
{
}

/// A step changes nothing in the stores but what lies under the session's
/// own key: whatever else is stored, by whomever, is out of its reach.
pub proof fn law_upload_step_is_local(
    turn: UploadTurnView,
    w: World,
    input: UploadInput,
    key: Seq<char>,
)
    requires
        upload_coherent(turn),
        turn matches UploadTurnView::Send { session, .. } ==> key != session.key,
    ensures
        ({
            let v = upload_world_after(turn, w, input);
            &&& v.has_blob(key) == w.has_blob(key)
            &&& v.blobs[key] == w.blobs[key]
            &&& v.has_record(key) == w.has_record(key)
            &&& v.records[key] == w.records[key]
        }),
{
}

proof fn lemma_upload_step_guards(turn: UploadTurnView, w: World, base: World, input: UploadInput)
    requires
        upload_guards(turn, w, base),
        upload_faithful(turn, w, input),
    ensures
        upload_guards(upload_turn_after(turn, input), upload_world_after(turn, w, input), base),
{
}

proof fn lemma_upload_run_guards(
    turn: UploadTurnView,
    w: World,
    base: World,
    inputs: Seq<UploadInput>,
)
    requires
        upload_guards(turn, w, base),
        upload_run_faithful(turn, w, inputs),
    ensures
        upload_guards(upload_run(turn, w, inputs).0, upload_run(turn, w, inputs).1, base),
    decreases inputs.len(),
{
    if inputs.len() > 0 {
        lemma_upload_run_guards(turn, w, base, inputs.drop_last());
        let (t, v) = upload_run(turn, w, inputs.drop_last());
        lemma_upload_step_guards(t, v, base, inputs.last());
    }
}

/// Whatever a request goes on to do once no part is in flight, and however
/// it ends, everything stored before stays stored unchanged: a later part
/// that fails takes nothing back from the parts completed before it.
pub proof fn law_upload_keeps_stored(turn: UploadTurnView, w: World, inputs: Seq<UploadInput>)
    requires
        turn is NextField || turn is ReadBody,
        upload_coherent(turn),
        upload_run_faithful(turn, w, inputs),
    ensures
        w.kept_in(upload_run(turn, w, inputs).1),
{
    lemma_upload_run_guards(turn, w, w, inputs);
}

/// How far the part that `s0` was waiting for, with the bytes `bytes`, has
/// come: still in flight with what was submitted, or stored with it.
pub open spec fn upload_part_progress(
    turn: UploadTurnView,
    w: World,
    s0: UploadSessionView,
    bytes: Seq<u8>,
) -> bool {
    match turn {
        UploadTurnView::ReadBody { session } => session == s0,
        UploadTurnView::Send { session, .. } => {
            &&& upload_coherent(turn)
            &&& session.uploads == s0.uploads
            &&& session.file_name == s0.file_name
            &&& session.body == bytes
            &&& session.phase is Recording ==> w.has_blob(session.key) && w.blobs[session.key] == (
            StoredBlob { head: head_of(session.file_name), body: session.body })
        },
        UploadTurnView::NextField { session } => {
            &&& session.uploads.len() == s0.uploads.len() + 1
            &&& session.uploads == s0.uploads.push(session.uploads.last())
            &&& session.uploads.last().filename == s0.file_name
            &&& session.uploads.last().well_formed()
            &&& w.holds(session.uploads.last(), head_of(s0.file_name), bytes)
        },
        UploadTurnView::Respond { .. } => true,
    }
}

/// Whether `inputs` report the handling of one part and nothing else: the
/// part's bytes first, then only answers of the stores.
pub open spec fn upload_part_inputs(inputs: Seq<UploadInput>, bytes: Seq<u8>) -> bool {
    &&& inputs.len() > 0
    &&& inputs[0].event == (UploadEventView::Body { bytes })
    &&& forall|i: int| 1 <= i < inputs.len() ==> (#[trigger] inputs[i]).event is Store
}

proof fn lemma_upload_part_progress(
    s0: UploadSessionView,
    bytes: Seq<u8>,
    w0: World,
    inputs: Seq<UploadInput>,
)
    requires
        s0.phase is AwaitBody,
        inputs.len() == 0 || upload_part_inputs(inputs, bytes),
        upload_run_faithful(UploadTurnView::ReadBody { session: s0 }, w0, inputs),
    ensures
        upload_part_progress(
            upload_run(UploadTurnView::ReadBody { session: s0 }, w0, inputs).0,
            upload_run(UploadTurnView::ReadBody { session: s0 }, w0, inputs).1,
            s0,
            bytes,
        ),
    decreases inputs.len(),
{
    if inputs.len() > 0 {
        let start = UploadTurnView::ReadBody { session: s0 };
        let before = inputs.drop_last();
        assert(before.len() == 0 || upload_part_inputs(before, bytes)) by {
            if before.len() > 0 {
                assert(before[0] == inputs[0]);
                assert forall|i: int| 1 <= i < before.len() implies (#[trigger] before[i]).event
                    is Store by {
                    assert(before[i] == inputs[i]);
                }
            }
        }
        lemma_upload_part_progress(s0, bytes, w0, before);
        let (t, v) = upload_run(start, w0, before);
        let input = inputs.last();
        if before.len() == 0 {
            assert(input == inputs[0]);
        } else {
            assert(input == inputs[inputs.len() - 1]);
            assert(input.event is Store);
        }
    }
}

/// Every part whose upload completes can be fetched afterwards under the
/// key it was given, and what is served is what was submitted: the same
/// bytes, under the content type and content disposition of the file name.
///
/// The run starts where the coordinator waits for the part's bytes and
/// covers the handling of that part; it completes where the coordinator asks
/// for the next field. The last entry of its list is then the new record.
pub proof fn law_upload_then_fetch(
    s0: UploadSessionView,
    bytes: Seq<u8>,
    w0: World,
    inputs: Seq<UploadInput>,
    first: ReplyView,
    second: ReplyView,
)
    requires
        s0.phase is AwaitBody,
        upload_part_inputs(inputs, bytes),
        upload_run_faithful(UploadTurnView::ReadBody { session: s0 }, w0, inputs),
        upload_run(UploadTurnView::ReadBody { session: s0 }, w0, inputs).0 is NextField,
        fetch_exchange(
            upload_run(UploadTurnView::ReadBody { session: s0 }, w0, inputs).1,
            upload_run(
                UploadTurnView::ReadBody { session: s0 },
                w0,
                inputs,
            ).0->NextField_session.uploads.last().key,
            first,
            second,
        ),
    ensures
        ({
            let (t1, w1) = upload_run(UploadTurnView::ReadBody { session: s0 }, w0, inputs);
            let s1 = t1->NextField_session;
            let record = s1.uploads.last();
            &&& s1.uploads == s0.uploads.push(record)
            &&& record.filename == s0.file_name
            &&& record.well_formed()
            &&& w1.holds(record, head_of(s0.file_name), bytes)
            &&& fetch_outcome(record.key, first, second) == (FetchTurnView::Respond {
                result: Ok(head_of(s0.file_name)),
            })
        }),
{
    lemma_upload_part_progress(s0, bytes, w0, inputs);
    let (t1, w1) = upload_run(UploadTurnView::ReadBody { session: s0 }, w0, inputs);
    let record = t1->NextField_session.uploads.last();
    law_fetch_serves_live_key(w1, record.key, first, second);
}

/// Once stored, a part stays retrievable: whatever the rest of the request
/// does, and even if it ends in an error, an upload that was live with its
/// content when no part was in flight is still live with that content, and
/// is served with the same headers.
pub proof fn law_completed_part_survives(
    turn: UploadTurnView,
    w: World,
    inputs: Seq<UploadInput>,
    upload: UploadView,
    body: Seq<u8>,
    first: ReplyView,
    second: ReplyView,
)
    requires
        turn is NextField || turn is ReadBody,
        upload_coherent(turn),
        w.holds(upload, head_of(upload.filename), body),
        upload_run_faithful(turn, w, inputs),
        fetch_exchange(upload_run(turn, w, inputs).1, upload.key, first, second),
    ensures
        upload_run(turn, w, inputs).1.holds(upload, head_of(upload.filename), body),
        fetch_outcome(upload.key, first, second) == (FetchTurnView::Respond {
            result: Ok(head_of(upload.filename)),
        }),
{
    law_upload_keeps_stored(turn, w, inputs);
    let w1 = upload_run(turn, w, inputs).1;
    assert(w.has_blob(upload.key));
    law_fetch_serves_live_key(w1, upload.key, first, second);
}

/// Whether `upload` is on file with a blob under the headers of its file
/// name.
pub open spec fn upload_live(w: World, upload: UploadView) -> bool {
    &&& w.has_blob(upload.key)
    &&& w.blobs[upload.key].head == head_of(upload.filename)
    &&& w.has_record(upload.key)
    &&& w.records[upload.key] == upload
}

/// Whether every part that the session lists as stored is live, and the
/// key that the session owns is none of theirs.
pub open spec fn upload_lists_live(turn: UploadTurnView, w: World) -> bool {
    &&& upload_coherent(turn)
    &&& match turn {
        UploadTurnView::NextField { session } => forall|i: int|
            0 <= i < session.uploads.len() ==> upload_live(w, #[trigger] session.uploads[i]),
        UploadTurnView::ReadBody { session } => forall|i: int|
            0 <= i < session.uploads.len() ==> upload_live(w, #[trigger] session.uploads[i]),
        UploadTurnView::Send { session, .. } => {
            &&& forall|i: int|
                0 <= i < session.uploads.len() ==> upload_live(w, #[trigger] session.uploads[i])
            &&& upload_owns_key(session) ==> forall|i: int|
                0 <= i < session.uploads.len() ==> (#[trigger] session.uploads[i]).key
                    != session.key
            &&& session.phase is Recording ==> w.has_blob(session.key) && w.blobs[session.key]
                == (StoredBlob { head: head_of(session.file_name), body: session.body })
        },
        UploadTurnView::Respond { .. } => true,
    }
}

proof fn lemma_upload_step_lists_live(turn: UploadTurnView, w: World, input: UploadInput)
    requires
        upload_lists_live(turn, w),
        upload_faithful(turn, w, input),
    ensures
        upload_lists_live(upload_turn_after(turn, input), upload_world_after(turn, w, input)),
{
    let next = upload_turn_after(turn, input);
    let v = upload_world_after(turn, w, input);
    match turn {
        UploadTurnView::Send { session, request } => {
            if session.phase is Probing && input.event.reply() is Absent {
                assert forall|i: int| 0 <= i < session.uploads.len() implies (
                #[trigger] session.uploads[i]).key != session.key by {
                    assert(upload_live(w, session.uploads[i]));
                }
            }
            if session.phase is Recording && input.event.reply() is Done {
                let listed = next->NextField_session.uploads;
                assert forall|i: int| 0 <= i < listed.len() implies upload_live(
                    v,
                    #[trigger] listed[i],
                ) by {
                    if i < session.uploads.len() {
                        assert(listed[i] == session.uploads[i]);
                        assert(upload_live(w, session.uploads[i]));
                        assert(session.uploads[i].key != session.key);
                    }
                }
            } else {
                assert forall|i: int| 0 <= i < session.uploads.len() implies upload_live(
                    v,
                    #[trigger] session.uploads[i],
                ) by {
                    assert(upload_live(w, session.uploads[i]));
                    if upload_owns_key(session) {
                        assert(session.uploads[i].key != session.key);
                    }
                }
            }
        },
        _ => {},
    }
}

proof fn lemma_upload_run_lists_live(w: World, inputs: Seq<UploadInput>)
    requires
        upload_run_faithful(upload_start(), w, inputs),
    ensures
        upload_lists_live(
            upload_run(upload_start(), w, inputs).0,
            upload_run(upload_start(), w, inputs).1,
        ),
    decreases inputs.len(),
{
    if inputs.len() > 0 {
        lemma_upload_run_lists_live(w, inputs.drop_last());
        let (t, v) = upload_run(upload_start(), w, inputs.drop_last());
        lemma_upload_step_lists_live(t, v, inputs.last());
    }
}

proof fn lemma_upload_run_split(turn: UploadTurnView, w: World, inputs: Seq<UploadInput>, n: int)
    requires
        0 <= n <= inputs.len(),
    ensures
        upload_run(turn, w, inputs) == upload_run(
            upload_run(turn, w, inputs.take(n)).0,
            upload_run(turn, w, inputs.take(n)).1,
            inputs.skip(n),
        ),
        upload_run_faithful(turn, w, inputs) ==> upload_run_faithful(turn, w, inputs.take(n))
            && upload_run_faithful(
            upload_run(turn, w, inputs.take(n)).0,
            upload_run(turn, w, inputs.take(n)).1,
            inputs.skip(n),
        ),
    decreases inputs.len(),
{
    if n == inputs.len() {
        assert(inputs.take(n) == inputs);
        assert(inputs.skip(n).len() == 0);
    } else {
        let before = inputs.drop_last();
        lemma_upload_run_split(turn, w, before, n);
        assert(before.take(n) == inputs.take(n));
        assert(inputs.skip(n).drop_last() == before.skip(n));
        assert(inputs.skip(n).last() == inputs.last());
    }
}

/// A request that fails keeps what it stored. Take any request and any
/// moment in it at which the coordinator asks for the next field. Every
/// part that it lists as stored at that moment is live then, and is still
/// live when the request is over, however it ends: it is served under its
/// key with the headers of its file name, even if a later part failed and
/// the client was answered with an error.
pub proof fn law_failed_request_keeps_completed_parts(
    w: World,
    inputs: Seq<UploadInput>,
    n: int,
    i: int,
    first: ReplyView,
    second: ReplyView,
)
    requires
        upload_run_faithful(upload_start(), w, inputs),
        0 <= n <= inputs.len(),
        upload_run(upload_start(), w, inputs.take(n)).0 is NextField,
        0 <= i < upload_run(upload_start(), w, inputs.take(n)).0->NextField_session.uploads.len(),
        fetch_exchange(
            upload_run(upload_start(), w, inputs).1,
            upload_run(upload_start(), w, inputs.take(n)).0->NextField_session.uploads[i].key,
            first,
            second,
        ),
    ensures
        ({
            let (then, stores_then) = upload_run(upload_start(), w, inputs.take(n));
            let stores_at_end = upload_run(upload_start(), w, inputs).1;
            let upload = then->NextField_session.uploads[i];
            &&& upload_live(stores_then, upload)
            &&& upload_live(stores_at_end, upload)
            &&& stores_at_end.blobs[upload.key] == stores_then.blobs[upload.key]
            &&& fetch_outcome(upload.key, first, second) == (FetchTurnView::Respond {
                result: Ok(head_of(upload.filename)),
            })
        }),
{
    let start = upload_start();
    lemma_upload_run_split(start, w, inputs, n);
    lemma_upload_run_lists_live(w, inputs.take(n));
    let (then, stores_then) = upload_run(start, w, inputs.take(n));
    let upload = then->NextField_session.uploads[i];
    assert(upload_live(stores_then, upload));
    law_upload_keeps_stored(then, stores_then, inputs.skip(n));
    let stores_at_end = upload_run(start, w, inputs).1;
    assert(stores_then.has_blob(upload.key));
    law_fetch_serves_live_key(stores_at_end, upload.key, first, second);
}

/// An upper bound on the store requests that the part in flight may still
/// have answered before the coordinator leaves it: four for every candidate
/// not yet drawn, and what is left of the handling of the current one.
pub open spec fn upload_steps_left(turn: UploadTurnView) -> int {
    match turn {
        UploadTurnView::ReadBody { .. } => 4 * MAX_KEY_ATTEMPTS + 1,
        UploadTurnView::Send { session, .. } => {
            let later = 4 * (MAX_KEY_ATTEMPTS - session.attempts);
            match session.phase {
                UploadPhase::Probing => later + 4,
                UploadPhase::Writing => later + 3,
                UploadPhase::Recording => later + 2,
                UploadPhase::Discarding => later + 1,
                _ => 1,
            }
        },
        _ => 0,
    }
}

proof fn lemma_upload_part_is_bounded(
    s0: UploadSessionView,
    bytes: Seq<u8>,
    w0: World,
    inputs: Seq<UploadInput>,
)
    requires
        s0.phase is AwaitBody,
        inputs.len() == 0 || upload_part_inputs(inputs, bytes),
        upload_run_faithful(UploadTurnView::ReadBody { session: s0 }, w0, inputs),
    ensures
        ({
            let turn = upload_run(UploadTurnView::ReadBody { session: s0 }, w0, inputs).0;
            &&& upload_coherent(turn)
            &&& turn matches UploadTurnView::Send { session, .. } ==> 1 <= session.attempts
                <= MAX_KEY_ATTEMPTS
            &&& turn is ReadBody ==> inputs.len() == 0
            &&& inputs.len() + upload_steps_left(turn) <= 4 * MAX_KEY_ATTEMPTS + 1
        }),
    decreases inputs.len(),
{
    if inputs.len() > 0 {
        let before = inputs.drop_last();
        assert(before.len() == 0 || upload_part_inputs(before, bytes)) by {
            if before.len() > 0 {
                assert(before[0] == inputs[0]);
                assert forall|i: int| 1 <= i < before.len() implies (#[trigger] before[i]).event
                    is Store by {
                    assert(before[i] == inputs[i]);
                }
            }
        }
        lemma_upload_part_is_bounded(s0, bytes, w0, before);
        let input = inputs.last();
        if before.len() == 0 {
            assert(input == inputs[0]);
        } else {
            assert(input == inputs[inputs.len() - 1]);
            assert(input.event is Store);
        }
    }
}

/// The handling of a part always comes to an end: however the stores
/// answer, the coordinator leaves the part, stored or failed, after the
/// part's bytes and at most four answers for each of its attempts.
pub proof fn law_upload_part_is_bounded(
    s0: UploadSessionView,
    bytes: Seq<u8>,
    w0: World,
    inputs: Seq<UploadInput>,
)
    requires
        s0.phase is AwaitBody,
        upload_part_inputs(inputs, bytes),
        upload_run_faithful(UploadTurnView::ReadBody { session: s0 }, w0, inputs),
    ensures
        inputs.len() <= 4 * MAX_KEY_ATTEMPTS + 1,
{
    lemma_upload_part_is_bounded(s0, bytes, w0, inputs);
}

/// No record is written without its blob: the coordinator asks for the
/// insertion of a record only in answer to the reply that the blob under
/// the record's key has been written.
pub proof fn law_record_comes_after_blob(
    s: UploadSessionView,
    e: UploadEventView,
    candidate: Seq<char>,
    now: int,
)
    ensures
        !(upload_start() matches UploadTurnView::Send { request, .. } && request is InsertRecord),
        upload_next(s, e, candidate, now) matches UploadTurnView::Send {
            request: RequestView::InsertRecord { record },
            ..
        } ==> {
            &&& s.phase is Writing
            &&& e.reply() is Done
            &&& record == record_for(s.key, s.file_name, now)
        },
{
}

/// Whether the coordinator, at `turn` with the stores at `w`, keeps every
/// record with its blob: the stores are consistent, and the key that the
/// session owns has no record yet.
pub open spec fn upload_sound(turn: UploadTurnView, w: World) -> bool {
    &&& upload_coherent(turn)
    &&& w.consistent()
    &&& turn matches UploadTurnView::Send { session, .. } ==> {
        &&& upload_owns_key(session) ==> !w.has_record(session.key)
        &&& session.phase is Recording ==> w.has_blob(session.key)
    }
}

proof fn lemma_upload_step_sound(turn: UploadTurnView, w: World, input: UploadInput)
    requires
        upload_sound(turn, w),
        upload_faithful(turn, w, input),
    ensures
        upload_sound(upload_turn_after(turn, input), upload_world_after(turn, w, input)),
{
    let v = upload_world_after(turn, w, input);
    assert forall|key: Seq<char>| #[trigger] v.has_record(key) implies v.has_blob(key) by {
        if w.has_record(key) {
            assert(w.has_blob(key));
        }
    }
    if let UploadTurnView::Send { session, .. } = turn {
        if session.phase is Probing && input.event.reply() is Absent {
            assert(!w.has_blob(session.key));
            assert(!w.has_record(session.key));
        }
    }
}

/// The upload path never leaves a record without its blob: from stores in
/// which every record has its blob, every step of a request leads to such
/// stores again, however the request ends. The blob is written before the
/// record is committed, and a blob is dropped only while its key has no
/// record.
pub proof fn law_upload_stays_consistent(turn: UploadTurnView, w: World, inputs: Seq<UploadInput>)
    requires
        turn is NextField || turn is ReadBody,
        upload_coherent(turn),
        w.consistent(),
        upload_run_faithful(turn, w, inputs),
    ensures
        upload_sound(upload_run(turn, w, inputs).0, upload_run(turn, w, inputs).1),
        upload_run(turn, w, inputs).1.consistent(),
    decreases inputs.len(),
{
    if inputs.len() > 0 {
        law_upload_stays_consistent(turn, w, inputs.drop_last());
        let (t, v) = upload_run(turn, w, inputs.drop_last());
        lemma_upload_step_sound(t, v, inputs.last());
    }
}

/// A candidate becomes the key of a part only once the blob store has
/// confirmed that nothing is stored under it. Where every record has its
/// blob, no live upload has that key.
pub proof fn law_reserved_key_is_unused(
    s: UploadSessionView,
    w: World,
    input: UploadInput,
)
    requires
        upload_faithful(
            UploadTurnView::Send { session: s, request: RequestView::HeadBlob { key: s.key } },
            w,
            input,
        ),
        upload_next(s, input.event, input.candidate, input.now) matches UploadTurnView::Send {
            session,
            ..
        } && session.phase is Writing,
    ensures
        s.phase is Probing,
        input.event.reply() is Absent,
        upload_next(s, input.event, input.candidate, input.now) == (UploadTurnView::Send {
            session: UploadSessionView { phase: UploadPhase::Writing, ..s },
            request: RequestView::PutBlob { key: s.key, head: head_of(s.file_name), body: s.body },
        }),
        !w.has_blob(s.key),
        w.consistent() ==> !w.has_record(s.key),
{
    if w.has_record(s.key) && w.consistent() {
        assert(w.has_blob(s.key));
    }
}

proof fn lemma_upload_run_push(
    turn: UploadTurnView,
    w: World,
    inputs: Seq<UploadInput>,
    input: UploadInput,
)
    ensures
        upload_run(turn, w, inputs.push(input)) == (
            upload_turn_after(upload_run(turn, w, inputs).0, input),
            upload_world_after(upload_run(turn, w, inputs).0, upload_run(turn, w, inputs).1, input),
        ),
        upload_run_faithful(turn, w, inputs.push(input)) == (upload_run_faithful(turn, w, inputs)
            && upload_faithful(
            upload_run(turn, w, inputs).0,
            upload_run(turn, w, inputs).1,
            input,
        )),
{
    assert(inputs.push(input).drop_last() == inputs);
}

/// The inputs of a part with the bytes `bytes` up to the probe of the last
/// of `candidates`: every candidate before it is drawn, probed and reported
/// as taken.
pub open spec fn upload_probes(bytes: Seq<u8>, candidates: Seq<Seq<char>>) -> Seq<UploadInput>
    decreases candidates.len(),
{
    if candidates.len() <= 1 {
        seq![
            UploadInput {
                event: UploadEventView::Body { bytes },
                candidate: candidates.last(),
                now: 0,
            },
        ]
    } else {
        upload_probes(bytes, candidates.drop_last()).push(
            UploadInput {
                event: UploadEventView::Store { reply: ReplyView::Present },
                candidate: candidates.last(),
                now: 0,
            },
        )
    }
}

/// The inputs of a part that no store fails: the probes of `candidates`, of
/// which the last is confirmed as unused, then the blob written and the
/// record, stamped at `now`, committed.
pub open spec fn upload_completion(
    bytes: Seq<u8>,
    candidates: Seq<Seq<char>>,
    now: int,
) -> Seq<UploadInput> {
    upload_probes(bytes, candidates).push(
        UploadInput {
            event: UploadEventView::Store { reply: ReplyView::Absent },
            candidate: Seq::empty(),
            now: 0,
        },
    ).push(
        UploadInput {
            event: UploadEventView::Store { reply: ReplyView::Done },
            candidate: Seq::empty(),
            now,
        },
    ).push(
        UploadInput {
            event: UploadEventView::Store { reply: ReplyView::Done },
            candidate: Seq::empty(),
            now: 0,
        },
    )
}

proof fn lemma_upload_probes(
    s0: UploadSessionView,
    bytes: Seq<u8>,
    w: World,
    candidates: Seq<Seq<char>>,
)
    requires
        s0.phase is AwaitBody,
        1 <= candidates.len() <= MAX_KEY_ATTEMPTS,
        forall|i: int| 0 <= i < candidates.len() - 1 ==> w.has_blob(#[trigger] candidates[i]),
    ensures
        upload_run_faithful(
            UploadTurnView::ReadBody { session: s0 },
            w,
            upload_probes(bytes, candidates),
        ),
        upload_run(UploadTurnView::ReadBody { session: s0 }, w, upload_probes(bytes, candidates))
            == (
            UploadTurnView::Send {
                session: UploadSessionView {
                    body: bytes,
                    key: candidates.last(),
                    attempts: candidates.len(),
                    phase: UploadPhase::Probing,
                    ..s0
                },
                request: RequestView::HeadBlob { key: candidates.last() },
            },
            w,
        ),
    decreases candidates.len(),
{
    let start = UploadTurnView::ReadBody { session: s0 };
    if candidates.len() == 1 {
        let none = Seq::<UploadInput>::empty();
        let input = UploadInput {
            event: UploadEventView::Body { bytes },
            candidate: candidates.last(),
            now: 0,
        };
        assert(upload_probes(bytes, candidates) == none.push(input));
        assert(upload_run(start, w, none) == (start, w));
        assert(upload_run_faithful(start, w, none));
        lemma_upload_run_push(start, w, none, input);
    } else {
        let fewer = candidates.drop_last();
        assert forall|i: int| 0 <= i < fewer.len() - 1 implies w.has_blob(#[trigger] fewer[i]) by {
            assert(fewer[i] == candidates[i]);
        }
        lemma_upload_probes(s0, bytes, w, fewer);
        let input = UploadInput {
            event: UploadEventView::Store { reply: ReplyView::Present },
            candidate: candidates.last(),
            now: 0,
        };
        assert(w.has_blob(fewer.last())) by {
            assert(fewer.last() == candidates[candidates.len() - 2]);
        }
        lemma_upload_run_push(start, w, upload_probes(bytes, fewer), input);
    }
}

/// Success is owed where the stores do not fail: a part of which fewer
/// candidates collide than it has attempts is stored under the first
/// candidate that is unused, with a record that expires one retention
/// period after `now`. The stores gain that blob and that record and are
/// otherwise unchanged, and the request goes on to its next field.
pub proof fn law_upload_succeeds_within_bound(
    s0: UploadSessionView,
    bytes: Seq<u8>,
    w: World,
    candidates: Seq<Seq<char>>,
    now: int,
)
    requires
        s0.phase is AwaitBody,
        1 <= candidates.len() <= MAX_KEY_ATTEMPTS,
        forall|i: int| 0 <= i < candidates.len() - 1 ==> w.has_blob(#[trigger] candidates[i]),
        !w.has_blob(candidates.last()),
        !w.has_record(candidates.last()),
        stampable(now),
    ensures
        ({
            let start = UploadTurnView::ReadBody { session: s0 };
            let inputs = upload_completion(bytes, candidates, now);
            let key = candidates.last();
            let record = record_for(key, s0.file_name, now);
            &&& upload_run_faithful(start, w, inputs)
            &&& upload_run(start, w, inputs) == (
                UploadTurnView::NextField {
                    session: UploadSessionView {
                        uploads: s0.uploads.push(record),
                        body: Seq::empty(),
                        key,
                        attempts: candidates.len(),
                        created: record.date_created,
                        expires: record.expires,
                        phase: UploadPhase::AwaitField,
                        ..s0
                    },
                },
                World {
                    blobs: w.blobs.insert(
                        key,
                        StoredBlob { head: head_of(s0.file_name), body: bytes },
                    ),
                    records: w.records.insert(key, record),
                },
            )
        }),
{
    let start = UploadTurnView::ReadBody { session: s0 };
    let probes = upload_probes(bytes, candidates);
    lemma_upload_probes(s0, bytes, w, candidates);
    let absent = UploadInput {
        event: UploadEventView::Store { reply: ReplyView::Absent },
        candidate: Seq::empty(),
        now: 0,
    };
    let written = UploadInput {
        event: UploadEventView::Store { reply: ReplyView::Done },
        candidate: Seq::empty(),
        now,
    };
    let committed = UploadInput {
        event: UploadEventView::Store { reply: ReplyView::Done },
        candidate: Seq::empty(),
        now: 0,
    };
    lemma_upload_run_push(start, w, probes, absent);
    lemma_upload_run_push(start, w, probes.push(absent), written);
    lemma_upload_run_push(start, w, probes.push(absent).push(written), committed);
}

/// A part gives up when its attempts are used up: once as many candidates
/// as it has attempts have all been reported as taken, the request ends
/// with `KeyExhausted`, and the stores are as they were.
pub proof fn law_upload_gives_up_at_bound(
    s0: UploadSessionView,
    bytes: Seq<u8>,
    w: World,
    candidates: Seq<Seq<char>>,
    spare: Seq<char>,
)
    requires
        s0.phase is AwaitBody,
        candidates.len() == MAX_KEY_ATTEMPTS,
        forall|i: int| 0 <= i < candidates.len() ==> w.has_blob(#[trigger] candidates[i]),
    ensures
        ({
            let start = UploadTurnView::ReadBody { session: s0 };
            let inputs = upload_probes(bytes, candidates).push(
                UploadInput {
                    event: UploadEventView::Store { reply: ReplyView::Present },
                    candidate: spare,
                    now: 0,
                },
            );
            &&& upload_run_faithful(start, w, inputs)
            &&& upload_run(start, w, inputs) == (upload_fails(Failure::KeyExhausted), w)
        }),
{
    let start = UploadTurnView::ReadBody { session: s0 };
    lemma_upload_probes(s0, bytes, w, candidates);
    let taken = UploadInput {
        event: UploadEventView::Store { reply: ReplyView::Present },
        candidate: spare,
        now: 0,
    };
    assert(w.has_blob(candidates.last())) by {
        assert(candidates.last() == candidates[candidates.len() - 1]);
    }
    lemma_upload_run_push(start, w, upload_probes(bytes, candidates), taken);
}

/// A request fails with `KeyExhausted` only when the part has used up its
/// attempts, and in no other way than by a candidate that could not be
/// confirmed as unused.
pub proof fn law_key_exhaustion_is_last_resort(
    s: UploadSessionView,
    e: UploadEventView,
    candidate: Seq<char>,
    now: int,
)
    requires
        upload_next(s, e, candidate, now) == upload_fails(Failure::KeyExhausted),
    ensures
        s.attempts >= MAX_KEY_ATTEMPTS,
        s.phase is Discarding || (s.phase is Probing && !(e.reply() is Absent)),
{
}

/// Whether `input` reports a field that is no upload and is not refused: a
/// field of another name than `file` and `expires`, or a `file` field
/// without a file name.
pub open spec fn upload_passes_over(input: UploadInput) -> bool {
    input.event matches UploadEventView::Field { name, file_name } && match field_kind(name) {
        FieldKind::Reserved => false,
        FieldKind::File => file_name is None,
        FieldKind::Other => true,
    }
}

proof fn lemma_upload_passes_over(w: World, fields: Seq<UploadInput>)
    requires
        forall|i: int| 0 <= i < fields.len() ==> upload_passes_over(#[trigger] fields[i]),
    ensures
        upload_run_faithful(upload_start(), w, fields),
        upload_run(upload_start(), w, fields) == (upload_start(), w),
    decreases fields.len(),
{
    if fields.len() > 0 {
        let fewer = fields.drop_last();
        assert forall|i: int| 0 <= i < fewer.len() implies upload_passes_over(
            #[trigger] fewer[i],
        ) by {
            assert(fewer[i] == fields[i]);
        }
        lemma_upload_passes_over(w, fewer);
        assert(upload_passes_over(fields[fields.len() - 1]));
    }
}

/// A request without a file part is answered with success and an empty
/// body, and leaves the stores as they were, however many other fields it
/// carries.
pub proof fn law_no_file_part_empty_listing(w: World, fields: Seq<UploadInput>, end: UploadInput)
    requires
        forall|i: int| 0 <= i < fields.len() ==> upload_passes_over(#[trigger] fields[i]),
        end.event is End,
    ensures
        upload_run_faithful(upload_start(), w, fields.push(end)),
        upload_run(upload_start(), w, fields.push(end)) == (
            UploadTurnView::Respond { result: Ok(Seq::<char>::empty()) },
            w,
        ),
        status_of(Ok::<Seq<char>, AppError>(Seq::<char>::empty())) == STATUS_OK,
{
    lemma_upload_passes_over(w, fields);
    assert(fields.push(end).drop_last() == fields);
}

} // verus!
