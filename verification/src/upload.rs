//! The upload coordinator: one session per multipart request.
//!
//! The session asks for the request's fields one by one. For each file part
//! it reserves a key, writes the blob, and only then commits the metadata
//! record, so that a visible record always has its blob. A part that fails
//! ends the request with an error; parts completed before it stay stored.

use vstd::prelude::*;
use vstd::string::*;
use crate::clock::now_micros;
use crate::error::{any_error, AppError, Failure};
use crate::keygen::{gen_key, generated_key, MAX_KEY_ATTEMPTS};
use crate::media::{head_for, head_of};
use crate::model::{
    records_view, stampable, text_view, Upload, UploadView, RETENTION_MICROS,
};
use crate::store::{Reply, ReplyView, Request, RequestView};

verus! {

/// The address under which stored files are listed.
pub const BASE_URL: &'static str = "http://127.0.0.1:5000";

/// What a multipart field means to the upload path.
#[derive(Clone, Copy, Debug, PartialEq, Eq, Structural)]
pub enum FieldKind {
    /// A field named `file`: an upload, if it comes with a file name.
    File,
    /// The field named `expires`: reserved, and refused.
    Reserved,
    /// Any other field, named or not: passed over.
    Other,
}

/// The meaning of a field with the given name.
pub open spec fn field_kind(name: Option<Seq<char>>) -> FieldKind {
    match name {
        Some(n) => if n == "expires"@ {
            FieldKind::Reserved
        } else if n == "file"@ {
            FieldKind::File
        } else {
            FieldKind::Other
        },
        None => FieldKind::Other,
    }
}

/// Classifies a multipart field by its name.
pub fn classify_field(name: &Option<String>) -> (kind: FieldKind)
    ensures
        kind == field_kind(text_view(*name)),
{
    match name {
        Some(n) => {
            let reserved = String::from_str("expires");
            let file = String::from_str("file");
            if *n == reserved {
                FieldKind::Reserved
            } else if *n == file {
                FieldKind::File
            } else {
                FieldKind::Other
            }
        },
        None => FieldKind::Other,
    }
}

/// The response line for one stored file.
pub open spec fn listing_line(upload: UploadView, base: Seq<char>) -> Seq<char> {
    upload.filename + ": "@ + base + "/"@ + upload.key + "\r\n"@
}

/// The response body for the files stored by one request, one line each, in
/// the order of their parts.
pub open spec fn listing(uploads: Seq<UploadView>, base: Seq<char>) -> Seq<char>
    decreases uploads.len(),
{
    if uploads.len() == 0 {
        Seq::empty()
    } else {
        listing(uploads.drop_last(), base) + listing_line(uploads.last(), base)
    }
}

/// Writes the response body for the stored files.
pub fn render_listing(uploads: &Vec<Upload>, base: &str) -> (text: String)
    ensures
        text@ == listing(records_view(uploads@), base@),
{
    let mut text = String::new();
    let mut i: usize = 0;
    while i < uploads.len()
        invariant
            i <= uploads@.len(),
            text@ == listing(records_view(uploads@).take(i as int), base@),
        decreases uploads@.len() - i,
    {
        let ghost done = records_view(uploads@).take(i as int);
        let ghost next = records_view(uploads@).take(i + 1);
        assert(next.drop_last() == done);
        assert(next.last() == uploads@[i as int]@);
        let upload = &uploads[i];
        text.append(upload.filename.as_str());
        text.append(": ");
        text.append(base);
        text.append("/");
        text.append(upload.key.as_str());
        text.append("\r\n");
        i = i + 1;
    }
    assert(records_view(uploads@).take(i as int) == records_view(uploads@));
    text
}

/// Where a session stands.
#[derive(Clone, Copy, Debug, PartialEq, Eq, Structural)]
pub enum UploadPhase {
    /// Waiting for the next field of the request.
    AwaitField,
    /// Waiting for the bytes of the current file part.
    AwaitBody,
    /// Asked whether the candidate key is in use.
    Probing,
    /// Asked the blob store to write the part.
    Writing,
    /// Asked the metadata store to insert the record.
    Recording,
    /// The key turned out to be taken: asked to drop the blob just written,
    /// before trying another key.
    Discarding,
    /// The record could not be written: asked to drop the orphaned blob,
    /// before reporting the failure.
    Compensating,
}

/// The state of one upload request.
#[derive(Debug, PartialEq, Eq)]
pub struct UploadSession {
    /// Parts stored so far, in order.
    pub uploads: Vec<Upload>,
    /// File name of the current part.
    pub file_name: String,
    /// Bytes of the current part.
    pub body: Vec<u8>,
    /// Candidate key of the current part.
    pub key: String,
    /// Candidates drawn for the current part, this one included.
    pub attempts: usize,
    /// Creation time of the record in flight.
    pub created: i64,
    /// Expiry of the record in flight.
    pub expires: i64,
    pub phase: UploadPhase,
}

/// Mathematical value of an [`UploadSession`].
pub struct UploadSessionView {
    pub uploads: Seq<UploadView>,
    pub file_name: Seq<char>,
    pub body: Seq<u8>,
    pub key: Seq<char>,
    pub attempts: nat,
    pub created: int,
    pub expires: int,
    pub phase: UploadPhase,
}

impl View for UploadSession {
    type V = UploadSessionView;

    open spec fn view(&self) -> UploadSessionView {
        UploadSessionView {
            uploads: records_view(self.uploads@),
            file_name: self.file_name@,
            body: self.body@,
            key: self.key@,
            attempts: self.attempts as nat,
            created: self.created as int,
            expires: self.expires as int,
            phase: self.phase,
        }
    }
}

impl UploadSessionView {
    /// The record in flight.
    pub open spec fn record(self) -> UploadView {
        UploadView {
            key: self.key,
            filename: self.file_name,
            expires: self.expires,
            date_created: self.created,
        }
    }
}

/// What the caller reports to a session.
#[derive(Debug, PartialEq, Eq)]
pub enum UploadEvent {
    /// The next field of the request, by its name and file name.
    Field { name: Option<String>, file_name: Option<String> },
    /// The bytes of the current part, read to the end.
    Body { bytes: Vec<u8> },
    /// The request has no further field.
    End,
    /// The request body could not be read or parsed.
    Malformed,
    /// A store's answer to the request sent last.
    Store { reply: Reply },
}

/// Mathematical value of an [`UploadEvent`].
pub enum UploadEventView {
    Field { name: Option<Seq<char>>, file_name: Option<Seq<char>> },
    Body { bytes: Seq<u8> },
    End,
    Malformed,
    Store { reply: ReplyView },
}

impl View for UploadEvent {
    type V = UploadEventView;

    open spec fn view(&self) -> UploadEventView {
        match *self {
            UploadEvent::Field { name, file_name } => UploadEventView::Field {
                name: text_view(name),
                file_name: text_view(file_name),
            },
            UploadEvent::Body { bytes } => UploadEventView::Body { bytes: bytes@ },
            UploadEvent::End => UploadEventView::End,
            UploadEvent::Malformed => UploadEventView::Malformed,
            UploadEvent::Store { reply } => UploadEventView::Store { reply: reply@ },
        }
    }
}

impl UploadEventView {
    /// The store's answer that an event carries. An event of another kind,
    /// arriving where an answer is due, counts as a failed request.
    pub open spec fn reply(self) -> ReplyView {
        match self {
            UploadEventView::Store { reply } => reply,
            _ => ReplyView::Failed,
        }
    }
}

/// What the caller does next.
#[derive(Debug, PartialEq, Eq)]
pub enum UploadTurn {
    /// Read the next field and report it.
    NextField { session: UploadSession },
    /// Read the current part's bytes and report them.
    ReadBody { session: UploadSession },
    /// Send the request to its store and report the answer.
    Send { session: UploadSession, request: Request },
    /// Answer the client: the listing of the stored files, or an error.
    Respond { result: Result<String, AppError> },
}

/// Mathematical value of an [`UploadTurn`].
pub enum UploadTurnView {
    NextField { session: UploadSessionView },
    ReadBody { session: UploadSessionView },
    Send { session: UploadSessionView, request: RequestView },
    Respond { result: Result<Seq<char>, AppError> },
}

impl View for UploadTurn {
    type V = UploadTurnView;

    open spec fn view(&self) -> UploadTurnView {
        match *self {
            UploadTurn::NextField { session } => UploadTurnView::NextField { session: session@ },
            UploadTurn::ReadBody { session } => UploadTurnView::ReadBody { session: session@ },
            UploadTurn::Send { session, request } => UploadTurnView::Send {
                session: session@,
                request: request@,
            },
            UploadTurn::Respond { result } => UploadTurnView::Respond {
                result: match result {
                    Ok(text) => Ok(text@),
                    Err(e) => Err(e),
                },
            },
        }
    }
}

/// The session of a request that has just arrived.
pub open spec fn upload_start() -> UploadTurnView {
    UploadTurnView::NextField {
        session: UploadSessionView {
            uploads: Seq::empty(),
            file_name: Seq::empty(),
            body: Seq::empty(),
            key: Seq::empty(),
            attempts: 0,
            created: 0,
            expires: 0,
            phase: UploadPhase::AwaitField,
        },
    }
}

/// The request ends with an error. Nothing is rolled back.
pub open spec fn upload_fails(failure: Failure) -> UploadTurnView {
    UploadTurnView::Respond { result: Err(AppError { inner: failure }) }
}

/// Tries `candidate` as the next key of the current part, or gives up when
/// the attempts are used up.
pub open spec fn upload_probe(s: UploadSessionView, candidate: Seq<char>) -> UploadTurnView {
    if s.attempts < MAX_KEY_ATTEMPTS {
        UploadTurnView::Send {
            session: UploadSessionView {
                key: candidate,
                attempts: s.attempts + 1,
                phase: UploadPhase::Probing,
                ..s
            },
            request: RequestView::HeadBlob { key: candidate },
        }
    } else {
        upload_fails(Failure::KeyExhausted)
    }
}

/// Drops the blob under the current key and moves to `phase`.
pub open spec fn upload_drop_blob(s: UploadSessionView, phase: UploadPhase) -> UploadTurnView {
    UploadTurnView::Send {
        session: UploadSessionView { phase, ..s },
        request: RequestView::DeleteBlob { key: s.key },
    }
}

/// The transition function for a file part: from the arrival of its bytes
/// to its record. `candidate` is the key drawn in this step and `now` the
/// clock read in it; each matters only in the steps that use it (see
/// [`upload_draws_key`], [`upload_reads_clock`]). Where no part is in
/// flight there is nothing to do but to ask for the next field.
pub open spec fn file_part_next(
    s: UploadSessionView,
    e: UploadEventView,
    candidate: Seq<char>,
    now: int,
) -> UploadTurnView {
    match s.phase {
        UploadPhase::AwaitField => UploadTurnView::NextField { session: s },
        UploadPhase::AwaitBody => match e {
            UploadEventView::Body { bytes } => upload_probe(
                UploadSessionView { body: bytes, attempts: 0, ..s },
                candidate,
            ),
            _ => upload_fails(Failure::MalformedMultipart),
        },
        UploadPhase::Probing => if e.reply() is Absent {
            UploadTurnView::Send {
                session: UploadSessionView { phase: UploadPhase::Writing, ..s },
                request: RequestView::PutBlob {
                    key: s.key,
                    head: head_of(s.file_name),
                    body: s.body,
                },
            }
        } else {
            upload_probe(s, candidate)
        },
        UploadPhase::Writing => if e.reply() is Done {
            if stampable(now) {
                let stamped = UploadSessionView {
                    created: now,
                    expires: now + RETENTION_MICROS,
                    phase: UploadPhase::Recording,
                    ..s
                };
                UploadTurnView::Send {
                    session: stamped,
                    request: RequestView::InsertRecord { record: stamped.record() },
                }
            } else {
                upload_drop_blob(s, UploadPhase::Compensating)
            }
        } else {
            upload_fails(Failure::BlobWriteFailed)
        },
        UploadPhase::Recording => match e.reply() {
            ReplyView::Done => UploadTurnView::NextField {
                session: UploadSessionView {
                    uploads: s.uploads.push(s.record()),
                    body: Seq::empty(),
                    phase: UploadPhase::AwaitField,
                    ..s
                },
            },
            ReplyView::Conflict => upload_drop_blob(s, UploadPhase::Discarding),
            _ => upload_drop_blob(s, UploadPhase::Compensating),
        },
        UploadPhase::Discarding => upload_probe(s, candidate),
        UploadPhase::Compensating => upload_fails(Failure::MetadataWriteFailed),
    }
}

/// The transition function of the upload coordinator. Between parts it
/// sorts the fields of the request; a part in flight is handled by
/// [`file_part_next`].
pub open spec fn upload_next(
    s: UploadSessionView,
    e: UploadEventView,
    candidate: Seq<char>,
    now: int,
) -> UploadTurnView {
    match s.phase {
        UploadPhase::AwaitField => match e {
            UploadEventView::Field { name, file_name } => match field_kind(name) {
                FieldKind::Reserved => upload_fails(Failure::UnsupportedField),
                FieldKind::File => match file_name {
                    Some(f) => UploadTurnView::ReadBody {
                        session: UploadSessionView {
                            file_name: f,
                            phase: UploadPhase::AwaitBody,
                            ..s
                        },
                    },
                    None => UploadTurnView::NextField { session: s },
                },
                FieldKind::Other => UploadTurnView::NextField { session: s },
            },
            UploadEventView::End => UploadTurnView::Respond {
                result: Ok(listing(s.uploads, BASE_URL@)),
            },
            _ => upload_fails(Failure::MalformedMultipart),
        },
        _ => file_part_next(s, e, candidate, now),
    }
}

/// Whether the step draws a candidate key.
pub open spec fn upload_draws_key(s: UploadSessionView, e: UploadEventView) -> bool {
    match s.phase {
        UploadPhase::AwaitBody => e is Body,
        UploadPhase::Probing => !(e.reply() is Absent) && s.attempts < MAX_KEY_ATTEMPTS,
        UploadPhase::Discarding => s.attempts < MAX_KEY_ATTEMPTS,
        _ => false,
    }
}

/// Whether the step reads the clock.
pub open spec fn upload_reads_clock(s: UploadSessionView, e: UploadEventView) -> bool {
    s.phase == UploadPhase::Writing && e.reply() is Done
}

fn fails(failure: Failure) -> (turn: UploadTurn)
    ensures
        turn@ == upload_fails(failure),
{
    UploadTurn::Respond { result: Err(any_error(failure)) }
}

fn probe(session: UploadSession, candidate: String) -> (turn: UploadTurn)
    ensures
        turn@ == upload_probe(session@, candidate@),
{
    if session.attempts < MAX_KEY_ATTEMPTS {
        let request = Request::HeadBlob { key: candidate.clone() };
        UploadTurn::Send {
            session: UploadSession {
                uploads: session.uploads,
                file_name: session.file_name,
                body: session.body,
                key: candidate,
                attempts: session.attempts + 1,
                created: session.created,
                expires: session.expires,
                phase: UploadPhase::Probing,
            },
            request,
        }
    } else {
        fails(Failure::KeyExhausted)
    }
}

fn drop_blob(session: UploadSession, phase: UploadPhase) -> (turn: UploadTurn)
    ensures
        turn@ == upload_drop_blob(session@, phase),
{
    let request = Request::DeleteBlob { key: session.key.clone() };
    UploadTurn::Send {
        session: UploadSession {
            uploads: session.uploads,
            file_name: session.file_name,
            body: session.body,
            key: session.key,
            attempts: session.attempts,
            created: session.created,
            expires: session.expires,
            phase,
        },
        request,
    }
}

fn copy_bytes(bytes: &Vec<u8>) -> (copy: Vec<u8>)
    ensures
        copy@ == bytes@,
{
    let copy = bytes.clone();
    assert(copy@ =~= bytes@);
    copy
}

/// Opens the session of a request that has just arrived.
pub fn upload_begin() -> (turn: UploadTurn)
    ensures
        turn@ == upload_start(),
{
    let uploads: Vec<Upload> = Vec::new();
    assert(records_view(uploads@) =~= Seq::empty());
    UploadTurn::NextField {
        session: UploadSession {
            uploads,
            file_name: String::new(),
            body: Vec::new(),
            key: String::new(),
            attempts: 0,
            created: 0,
            expires: 0,
            phase: UploadPhase::AwaitField,
        },
    }
}

/// Handles one event of a file part in flight, for a given draw of the key
/// generator and a given reading of the clock: reserves a key, writes the
/// blob, then commits the record, and cleans up after a record that could
/// not be written.
pub fn handle_file_part(
    session: UploadSession,
    event: UploadEvent,
    candidate: String,
    now: i64,
) -> (turn: UploadTurn)
    ensures
        turn@ == file_part_next(session@, event@, candidate@, now as int),
{
    match session.phase {
        UploadPhase::AwaitField => UploadTurn::NextField { session },
        UploadPhase::AwaitBody => match event {
            UploadEvent::Body { bytes } => probe(
                UploadSession {
                    uploads: session.uploads,
                    file_name: session.file_name,
                    body: bytes,
                    key: session.key,
                    attempts: 0,
                    created: session.created,
                    expires: session.expires,
                    phase: session.phase,
                },
                candidate,
            ),
            _ => fails(Failure::MalformedMultipart),
        },
        UploadPhase::Probing => match event {
            UploadEvent::Store { reply: Reply::Absent } => {
                let request = Request::PutBlob {
                    key: session.key.clone(),
                    head: head_for(session.file_name.as_str()),
                    body: copy_bytes(&session.body),
                };
                UploadTurn::Send {
                    session: UploadSession {
                        uploads: session.uploads,
                        file_name: session.file_name,
                        body: session.body,
                        key: session.key,
                        attempts: session.attempts,
                        created: session.created,
                        expires: session.expires,
                        phase: UploadPhase::Writing,
                    },
                    request,
                }
            },
            _ => probe(session, candidate),
        },
        UploadPhase::Writing => match event {
            UploadEvent::Store { reply: Reply::Done } => {
                match Upload::stamped(session.key.clone(), session.file_name.clone(), now) {
                    Some(record) => UploadTurn::Send {
                        session: UploadSession {
                            uploads: session.uploads,
                            file_name: session.file_name,
                            body: session.body,
                            key: session.key,
                            attempts: session.attempts,
                            created: record.date_created,
                            expires: record.expires,
                            phase: UploadPhase::Recording,
                        },
                        request: Request::InsertRecord { record },
                    },
                    None => drop_blob(session, UploadPhase::Compensating),
                }
            },
            _ => fails(Failure::BlobWriteFailed),
        },
        UploadPhase::Recording => match event {
            UploadEvent::Store { reply: Reply::Done } => {
                let ghost before = session@;
                let mut uploads = session.uploads;
                uploads.push(
                    Upload {
                        key: session.key.clone(),
                        filename: session.file_name.clone(),
                        expires: session.expires,
                        date_created: session.created,
                    },
                );
                assert(records_view(uploads@) == before.uploads.push(before.record()));
                UploadTurn::NextField {
                    session: UploadSession {
                        uploads,
                        file_name: session.file_name,
                        body: Vec::new(),
                        key: session.key,
                        attempts: session.attempts,
                        created: session.created,
                        expires: session.expires,
                        phase: UploadPhase::AwaitField,
                    },
                }
            },
            UploadEvent::Store { reply: Reply::Conflict } => drop_blob(
                session,
                UploadPhase::Discarding,
            ),
            _ => drop_blob(session, UploadPhase::Compensating),
        },
        UploadPhase::Discarding => probe(session, candidate),
        UploadPhase::Compensating => fails(Failure::MetadataWriteFailed),
    }
}

/// One step of the upload coordinator, for a given draw of the key generator
/// and a given reading of the clock.
pub fn upload_with(
    session: UploadSession,
    event: UploadEvent,
    candidate: String,
    now: i64,
) -> (turn: UploadTurn)
    ensures
        turn@ == upload_next(session@, event@, candidate@, now as int),
{
    match session.phase {
        UploadPhase::AwaitField => match event {
            UploadEvent::Field { name, file_name } => match classify_field(&name) {
                FieldKind::Reserved => fails(Failure::UnsupportedField),
                FieldKind::File => match file_name {
                    Some(f) => UploadTurn::ReadBody {
                        session: UploadSession {
                            uploads: session.uploads,
                            file_name: f,
                            body: session.body,
                            key: session.key,
                            attempts: session.attempts,
                            created: session.created,
                            expires: session.expires,
                            phase: UploadPhase::AwaitBody,
                        },
                    },
                    None => UploadTurn::NextField { session },
                },
                FieldKind::Other => UploadTurn::NextField { session },
            },
            UploadEvent::End => UploadTurn::Respond {
                result: Ok(render_listing(&session.uploads, BASE_URL)),
            },
            _ => fails(Failure::MalformedMultipart),
        },
        _ => handle_file_part(session, event, candidate, now),
    }
}

impl UploadSession {
    /// Whether the step on `event` draws a candidate key.
    pub fn draws_key(&self, event: &UploadEvent) -> (draws: bool)
        ensures
            draws == upload_draws_key(self@, event@),
    {
        match self.phase {
            UploadPhase::AwaitBody => match event {
                UploadEvent::Body { .. } => true,
                _ => false,
            },
            UploadPhase::Probing => match event {
                UploadEvent::Store { reply: Reply::Absent } => false,
                _ => self.attempts < MAX_KEY_ATTEMPTS,
            },
            UploadPhase::Discarding => self.attempts < MAX_KEY_ATTEMPTS,
            _ => false,
        }
    }

    /// Whether the step on `event` reads the clock.
    pub fn reads_clock(&self, event: &UploadEvent) -> (reads: bool)
        ensures
            reads == upload_reads_clock(self@, event@),
    {
        match self.phase {
            UploadPhase::Writing => match event {
                UploadEvent::Store { reply: Reply::Done } => true,
                _ => false,
            },
            _ => false,
        }
    }
}

/// One step of the upload coordinator. Where the step needs a candidate key
/// it draws one, and where it stamps a record it reads the clock; the result
/// is that of [`upload_with`] for what was drawn and read.
pub fn upload(session: UploadSession, event: UploadEvent) -> (turn: UploadTurn)
    ensures
        exists|candidate: Seq<char>, now: int|
            {
                &&& upload_draws_key(session@, event@) ==> generated_key(candidate)
                &&& i64::MIN <= now <= i64::MAX
                &&& #[trigger] upload_next(session@, event@, candidate, now) == turn@
            },
{
    let candidate = if session.draws_key(&event) {
        gen_key()
    } else {
        String::new()
    };
    let now = if session.reads_clock(&event) {
        now_micros()
    } else {
        0
    };
    upload_with(session, event, candidate, now)
}

} // verus!
