//! The retrieval coordinator: resolves a key to the headers its content is
//! served with.
//!
//! The blob is fetched first. A key without a blob is not found. A key whose
//! blob exists but whose record is gone is not found either: content is never
//! served once its metadata has been reclaimed. The headers come from the
//! blob store, not from the record, and the bytes are passed on by the
//! caller as they arrive.

use vstd::prelude::*;
use vstd::string::*;
use crate::error::{any_error, AppError, Failure};
use crate::model::{BlobHead, BlobHeadView};
use crate::store::{Reply, ReplyView, Request, RequestView};

verus! {

/// Where a retrieval stands.
#[derive(Clone, Copy, Debug, PartialEq, Eq, Structural)]
pub enum FetchPhase {
    /// Asked the blob store for the object.
    Fetching,
    /// Holds the object; asked the metadata store for the record.
    Confirming,
}

/// The state of one retrieval.
#[derive(Debug, PartialEq, Eq)]
pub struct FetchSession {
    pub key: String,
    /// Headers of the object, once fetched.
    pub head: BlobHead,
    pub phase: FetchPhase,
}

/// Mathematical value of a [`FetchSession`].
pub struct FetchSessionView {
    pub key: Seq<char>,
    pub head: BlobHeadView,
    pub phase: FetchPhase,
}

impl View for FetchSession {
    type V = FetchSessionView;

    open spec fn view(&self) -> FetchSessionView {
        FetchSessionView { key: self.key@, head: self.head@, phase: self.phase }
    }
}

/// What the caller does next.
#[derive(Debug, PartialEq, Eq)]
pub enum FetchTurn {
    /// Send the request to its store and report the answer.
    Send { session: FetchSession, request: Request },
    /// Answer the client: the headers to serve the object's bytes with, or an
    /// error.
    Respond { result: Result<BlobHead, AppError> },
}

/// Mathematical value of a [`FetchTurn`].
pub enum FetchTurnView {
    Send { session: FetchSessionView, request: RequestView },
    Respond { result: Result<BlobHeadView, AppError> },
}

impl View for FetchTurn {
    type V = FetchTurnView;

    open spec fn view(&self) -> FetchTurnView {
        match *self {
            FetchTurn::Send { session, request } => FetchTurnView::Send {
                session: session@,
                request: request@,
            },
            FetchTurn::Respond { result } => FetchTurnView::Respond {
                result: match result {
                    Ok(head) => Ok(head@),
                    Err(e) => Err(e),
                },
            },
        }
    }
}

/// The first turn of a retrieval of `key`.
pub open spec fn fetch_start(key: Seq<char>) -> FetchTurnView {
    FetchTurnView::Send {
        session: FetchSessionView {
            key,
            head: BlobHeadView { content_type: None, content_disposition: None },
            phase: FetchPhase::Fetching,
        },
        request: RequestView::GetBlob { key },
    }
}

/// The retrieval ends with an error.
pub open spec fn fetch_fails(failure: Failure) -> FetchTurnView {
    FetchTurnView::Respond { result: Err(AppError { inner: failure }) }
}

/// The transition function of the retrieval coordinator.
pub open spec fn fetch_next(s: FetchSessionView, reply: ReplyView) -> FetchTurnView {
    match s.phase {
        FetchPhase::Fetching => match reply {
            ReplyView::Object { head } => FetchTurnView::Send {
                session: FetchSessionView { head, phase: FetchPhase::Confirming, ..s },
                request: RequestView::FindRecord { key: s.key },
            },
            ReplyView::Absent => fetch_fails(Failure::NotFound),
            _ => fetch_fails(Failure::StoreUnavailable),
        },
        FetchPhase::Confirming => match reply {
            ReplyView::Record { record } => FetchTurnView::Respond { result: Ok(s.head) },
            ReplyView::Absent => fetch_fails(Failure::NotFound),
            _ => fetch_fails(Failure::StoreUnavailable),
        },
    }
}

fn fails(failure: Failure) -> (turn: FetchTurn)
    ensures
        turn@ == fetch_fails(failure),
{
    FetchTurn::Respond { result: Err(any_error(failure)) }
}

/// Opens the retrieval of `key`.
pub fn get_object_begin(key: String) -> (turn: FetchTurn)
    ensures
        turn@ == fetch_start(key@),
{
    let request = Request::GetBlob { key: key.clone() };
    FetchTurn::Send {
        session: FetchSession {
            key,
            head: BlobHead { content_type: None, content_disposition: None },
            phase: FetchPhase::Fetching,
        },
        request,
    }
}

/// One step of the retrieval coordinator.
pub fn get_object(session: FetchSession, reply: Reply) -> (turn: FetchTurn)
    ensures
        turn@ == fetch_next(session@, reply@),
{
    match session.phase {
        FetchPhase::Fetching => match reply {
            Reply::Object { head } => {
                let request = Request::FindRecord { key: session.key.clone() };
                FetchTurn::Send {
                    session: FetchSession {
                        key: session.key,
                        head,
                        phase: FetchPhase::Confirming,
                    },
                    request,
                }
            },
            Reply::Absent => fails(Failure::NotFound),
            _ => fails(Failure::StoreUnavailable),
        },
        FetchPhase::Confirming => match reply {
            Reply::Record { .. } => FetchTurn::Respond { result: Ok(session.head) },
            Reply::Absent => fails(Failure::NotFound),
            _ => fails(Failure::StoreUnavailable),
        },
    }
}

/// The response headers for an object, by name and value: the content
/// disposition first, then the content type, each only if the object has it.
pub open spec fn header_lines(head: BlobHeadView) -> Seq<(Seq<char>, Seq<char>)> {
    let disposition = match head.content_disposition {
        Some(value) => seq![("content-disposition"@, value)],
        None => Seq::empty(),
    };
    let content_type = match head.content_type {
        Some(value) => seq![("content-type"@, value)],
        None => Seq::empty(),
    };
    disposition + content_type
}

/// Views of a list of headers, element by element.
pub open spec fn headers_view(headers: Seq<(String, String)>) -> Seq<(Seq<char>, Seq<char>)> {
    headers.map_values(|h: (String, String)| (h.0@, h.1@))
}

/// Lists the response headers for an object.
pub fn response_headers(head: BlobHead) -> (headers: Vec<(String, String)>)
    ensures
        headers_view(headers@) == header_lines(head@),
{
    let mut headers: Vec<(String, String)> = Vec::new();
    if let Some(value) = head.content_disposition {
        headers.push((String::from_str("content-disposition"), value));
    }
    if let Some(value) = head.content_type {
        headers.push((String::from_str("content-type"), value));
    }
    assert(headers_view(headers@) =~= header_lines(head@));
    headers
}

} // verus!
