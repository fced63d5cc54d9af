use std::collections::HashMap;

use filedrop::error::{any_error, response_status, AppError, Failure};
use filedrop::fetch::{get_object, get_object_begin, response_headers, FetchTurn};
use filedrop::model::{BlobHead, Upload, RETENTION_MICROS};
use filedrop::reaper::{
    delete_expired, delete_expired_begin, delete_expired_begin_at, select_expired, ReapReport,
    ReapTurn,
};
use filedrop::store::{Reply, Request};
use filedrop::upload::{
    classify_field, handle_file_part, render_listing, upload, upload_begin, upload_with,
    FieldKind, UploadEvent, UploadPhase, UploadSession, UploadTurn, BASE_URL,
};

/// The two stores, in memory, with a switch to make chosen requests fail.
struct Stores {
    blobs: HashMap<String, (Option<String>, Option<String>, Vec<u8>)>,
    records: HashMap<String, Upload>,
    failing: Vec<Request>,
    log: Vec<Request>,
}

fn same_target(a: &Request, b: &Request) -> bool {
    match (a, b) {
        (Request::HeadBlob { key: x }, Request::HeadBlob { key: y }) => x == y,
        (Request::PutBlob { key: x, .. }, Request::PutBlob { key: y, .. }) => x == y,
        (Request::GetBlob { key: x }, Request::GetBlob { key: y }) => x == y,
        (Request::DeleteBlob { key: x }, Request::DeleteBlob { key: y }) => x == y,
        (Request::InsertRecord { record: x }, Request::InsertRecord { record: y }) => {
            x.key == y.key
        }
        (Request::FindRecord { key: x }, Request::FindRecord { key: y }) => x == y,
        (Request::DeleteRecord { key: x }, Request::DeleteRecord { key: y }) => x == y,
        (Request::SelectExpired { .. }, Request::SelectExpired { .. }) => true,
        _ => false,
    }
}

fn copy_request(request: &Request) -> Request {
    match request {
        Request::HeadBlob { key } => Request::HeadBlob { key: key.clone() },
        Request::PutBlob { key, head, body } => Request::PutBlob {
            key: key.clone(),
            head: BlobHead {
                content_type: head.content_type.clone(),
                content_disposition: head.content_disposition.clone(),
            },
            body: body.clone(),
        },
        Request::GetBlob { key } => Request::GetBlob { key: key.clone() },
        Request::DeleteBlob { key } => Request::DeleteBlob { key: key.clone() },
        Request::InsertRecord { record } => Request::InsertRecord { record: record.clone() },
        Request::FindRecord { key } => Request::FindRecord { key: key.clone() },
        Request::DeleteRecord { key } => Request::DeleteRecord { key: key.clone() },
        Request::SelectExpired { now } => Request::SelectExpired { now: *now },
    }
}

impl Stores {
    fn new() -> Stores {
        Stores {
            blobs: HashMap::new(),
            records: HashMap::new(),
            failing: Vec::new(),
            log: Vec::new(),
        }
    }

    fn answer(&mut self, request: Request) -> Reply {
        self.log.push(copy_request(&request));
        if self.failing.iter().any(|f| same_target(f, &request)) {
            return Reply::Failed;
        }
        match request {
            Request::HeadBlob { key } => {
                if self.blobs.contains_key(&key) {
                    Reply::Present
                } else {
                    Reply::Absent
                }
            }
            Request::PutBlob { key, head, body } => {
                self.blobs.insert(key, (head.content_type, head.content_disposition, body));
                Reply::Done
            }
            Request::GetBlob { key } => match self.blobs.get(&key) {
                Some((content_type, content_disposition, _)) => Reply::Object {
                    head: BlobHead {
                        content_type: content_type.clone(),
                        content_disposition: content_disposition.clone(),
                    },
                },
                None => Reply::Absent,
            },
            Request::DeleteBlob { key } => {
                self.blobs.remove(&key);
                Reply::Done
            }
            Request::InsertRecord { record } => {
                if self.records.contains_key(&record.key) {
                    Reply::Conflict
                } else {
                    self.records.insert(record.key.clone(), record);
                    Reply::Done
                }
            }
            Request::FindRecord { key } => match self.records.get(&key) {
                Some(record) => Reply::Record { record: record.clone() },
                None => Reply::Absent,
            },
            Request::DeleteRecord { key } => {
                self.records.remove(&key);
                Reply::Done
            }
            Request::SelectExpired { now } => {
                let mut rows: Vec<Upload> =
                    self.records.values().filter(|r| r.expires < now).map(|r| r.clone()).collect();
                rows.sort_by(|a, b| a.key.cmp(&b.key));
                Reply::Rows { rows }
            }
        }
    }

    fn seed(&mut self, key: &str, filename: &str, expires: i64, body: &[u8]) {
        self.blobs.insert(
            String::from(key),
            (
                Some(String::from("text/plain")),
                Some(format!("inline; filename=\"{}\"", filename)),
                body.to_vec(),
            ),
        );
        self.records.insert(
            String::from(key),
            Upload {
                key: String::from(key),
                filename: String::from(filename),
                expires,
                date_created: expires - RETENTION_MICROS,
            },
        );
    }
}

struct Part {
    name: Option<&'static str>,
    file_name: Option<&'static str>,
    body: Vec<u8>,
}

fn file_part(file_name: &'static str, body: &[u8]) -> Part {
    Part { name: Some("file"), file_name: Some(file_name), body: body.to_vec() }
}

/// Plays a whole request against the stores, the way a server would.
fn run_upload(stores: &mut Stores, parts: Vec<Part>) -> Result<String, AppError> {
    let mut parts = parts.into_iter();
    let mut pending: Option<Vec<u8>> = None;
    let mut turn = upload_begin();
    loop {
        turn = match turn {
            UploadTurn::NextField { session } => match parts.next() {
                Some(part) => {
                    pending = Some(part.body);
                    upload(
                        session,
                        UploadEvent::Field {
                            name: part.name.map(String::from),
                            file_name: part.file_name.map(String::from),
                        },
                    )
                }
                None => upload(session, UploadEvent::End),
            },
            UploadTurn::ReadBody { session } => {
                upload(session, UploadEvent::Body { bytes: pending.take().unwrap() })
            }
            UploadTurn::Send { session, request } => {
                let reply = stores.answer(request);
                upload(session, UploadEvent::Store { reply })
            }
            UploadTurn::Respond { result } => return result,
        };
    }
}

fn run_fetch(stores: &mut Stores, key: &str) -> Result<BlobHead, AppError> {
    let mut turn = get_object_begin(String::from(key));
    loop {
        turn = match turn {
            FetchTurn::Send { session, request } => {
                let reply = stores.answer(request);
                get_object(session, reply)
            }
            FetchTurn::Respond { result } => return result,
        };
    }
}

fn run_reaper(stores: &mut Stores, now: i64) -> Result<ReapReport, AppError> {
    let mut turn = delete_expired_begin_at(now);
    loop {
        turn = match turn {
            ReapTurn::Send { session, request } => {
                let reply = stores.answer(request);
                delete_expired(session, reply)
            }
            ReapTurn::Finish { result } => return result,
        };
    }
}

/// Splits a response body into `(file name, key)` pairs.
fn listed(body: &str) -> Vec<(String, String)> {
    let prefix = format!(": {}/", BASE_URL);
    body.split("\r\n")
        .filter(|line| !line.is_empty())
        .map(|line| {
            let at = line.rfind(&prefix).unwrap();
            (String::from(&line[..at]), String::from(&line[at + prefix.len()..]))
        })
        .collect()
}

fn probing_session(key: &str, attempts: usize) -> UploadSession {
    UploadSession {
        uploads: Vec::new(),
        file_name: String::from("a.txt"),
        body: vec![1, 2, 3],
        key: String::from(key),
        attempts,
        created: 0,
        expires: 0,
        phase: UploadPhase::Probing,
    }
}

fn store_event(reply: Reply) -> UploadEvent {
    UploadEvent::Store { reply }
}

fn file_field(file_name: &str) -> UploadEvent {
    UploadEvent::Field {
        name: Some(String::from("file")),
        file_name: Some(String::from(file_name)),
    }
}

fn row(key: &str, filename: &str, expires: i64) -> Upload {
    Upload {
        key: String::from(key),
        filename: String::from(filename),
        expires,
        date_created: expires - 1,
    }
}

#[test]
fn uploaded_file_is_served_with_what_was_submitted() {
    let mut stores = Stores::new();
    let body = run_upload(&mut stores, vec![file_part("hello.txt", b"hello world")]).unwrap();
    let files = listed(&body);
    assert_eq!(files.len(), 1);
    assert_eq!(files[0].0, "hello.txt");
    let key = files[0].1.clone();
    assert_eq!(key.chars().count(), 7);

    let head = run_fetch(&mut stores, &key).unwrap();
    assert_eq!(head.content_type, Some(String::from("text/plain")));
    assert_eq!(head.content_disposition, Some(String::from("inline; filename=\"hello.txt\"")));
    assert_eq!(stores.blobs[&key].2, b"hello world".to_vec());

    let record = &stores.records[&key];
    assert_eq!(record.filename, "hello.txt");
    assert_eq!(record.expires, record.date_created + RETENTION_MICROS);
    assert!(record.expires > record.date_created);
}

#[test]
fn blob_is_written_before_the_record() {
    let mut stores = Stores::new();
    run_upload(&mut stores, vec![file_part("a.bin", &[9, 9])]).unwrap();
    let kinds: Vec<u8> = stores
        .log
        .iter()
        .map(|r| match r {
            Request::HeadBlob { .. } => 0,
            Request::PutBlob { .. } => 1,
            Request::InsertRecord { .. } => 2,
            _ => 9,
        })
        .collect();
    assert_eq!(kinds, vec![0, 1, 2]);
}

#[test]
fn request_without_file_fields_is_ok_and_empty() {
    let mut stores = Stores::new();
    let none = run_upload(&mut stores, Vec::new());
    assert_eq!(response_status(&none), 200);
    assert_eq!(none.unwrap(), "");

    let others = run_upload(
        &mut stores,
        vec![
            Part { name: Some("comment"), file_name: None, body: b"hi".to_vec() },
            Part { name: None, file_name: Some("x.txt"), body: b"hi".to_vec() },
            Part { name: Some("file"), file_name: None, body: b"hi".to_vec() },
        ],
    );
    assert_eq!(response_status(&others), 200);
    assert_eq!(others.unwrap(), "");
    assert!(stores.blobs.is_empty());
    assert!(stores.records.is_empty());
    assert!(stores.log.is_empty());
}

#[test]
fn fields_are_told_apart_by_name() {
    assert_eq!(classify_field(&Some(String::from("file"))), FieldKind::File);
    assert_eq!(classify_field(&Some(String::from("expires"))), FieldKind::Reserved);
    assert_eq!(classify_field(&Some(String::from("File"))), FieldKind::Other);
    assert_eq!(classify_field(&Some(String::new())), FieldKind::Other);
    assert_eq!(classify_field(&None), FieldKind::Other);
}

#[test]
fn reserved_expires_field_is_refused() {
    let mut stores = Stores::new();
    let result = run_upload(
        &mut stores,
        vec![
            file_part("kept.txt", b"kept"),
            Part { name: Some("expires"), file_name: None, body: b"3600".to_vec() },
            file_part("never.txt", b"never"),
        ],
    );
    assert_eq!(result, Err(any_error(Failure::UnsupportedField)));
    assert_eq!(response_status(&result), 500);
    assert_eq!(stores.records.len(), 1);
}

#[test]
fn listing_has_one_line_per_file_in_order() {
    let uploads = vec![
        row("k1", "a.txt", 2),
        row("k2", "b c.png", 2),
    ];
    assert_eq!(
        render_listing(&uploads, "http://127.0.0.1:5000"),
        "a.txt: http://127.0.0.1:5000/k1\r\nb c.png: http://127.0.0.1:5000/k2\r\n"
    );
    assert_eq!(render_listing(&uploads[..1].to_vec(), "https://x"), "a.txt: https://x/k1\r\n");
    assert_eq!(render_listing(&Vec::new(), BASE_URL), "");
    assert_eq!(BASE_URL, "http://127.0.0.1:5000");
}

#[test]
fn several_parts_are_listed_and_all_retrievable() {
    let mut stores = Stores::new();
    let body = run_upload(
        &mut stores,
        vec![file_part("one.txt", b"1"), file_part("two.png", b"22"), file_part("three", b"333")],
    )
    .unwrap();
    let files = listed(&body);
    assert_eq!(files.len(), 3);
    assert_eq!(files[0].0, "one.txt");
    assert_eq!(files[1].0, "two.png");
    assert_eq!(files[2].0, "three");
    let types = vec!["text/plain", "image/png", "application/octet-stream"];
    let bodies = vec![b"1".to_vec(), b"22".to_vec(), b"333".to_vec()];
    for i in 0..3 {
        let head = run_fetch(&mut stores, &files[i].1).unwrap();
        assert_eq!(head.content_type, Some(String::from(types[i])));
        assert_eq!(stores.blobs[&files[i].1].2, bodies[i]);
    }
}

#[test]
fn failing_part_leaves_earlier_parts_retrievable() {
    let mut stores = Stores::new();
    let mut turn = upload_begin();
    let parts = vec![
        ("first.txt", b"first".to_vec()),
        ("second.txt", b"second".to_vec()),
        ("third.txt", b"third".to_vec()),
    ];
    let mut index = 0;
    let mut puts = 0;
    let mut first_key = String::new();
    let result = loop {
        turn = match turn {
            UploadTurn::NextField { session } => {
                if session.uploads.len() == 1 {
                    first_key = session.uploads[0].key.clone();
                }
                upload(
                    session,
                    UploadEvent::Field {
                        name: Some(String::from("file")),
                        file_name: Some(String::from(parts[index].0)),
                    },
                )
            }
            UploadTurn::ReadBody { session } => {
                let bytes = parts[index].1.clone();
                index += 1;
                upload(session, UploadEvent::Body { bytes })
            }
            UploadTurn::Send { session, request } => {
                let fails = match &request {
                    Request::PutBlob { .. } => {
                        puts += 1;
                        puts == 2
                    }
                    _ => false,
                };
                let reply = if fails { Reply::Failed } else { stores.answer(request) };
                upload(session, UploadEvent::Store { reply })
            }
            UploadTurn::Respond { result } => break result,
        };
    };
    assert_eq!(result, Err(any_error(Failure::BlobWriteFailed)));
    assert_eq!(response_status(&result), 500);
    assert_eq!(index, 2);

    let head = run_fetch(&mut stores, &first_key).unwrap();
    assert_eq!(head.content_disposition, Some(String::from("inline; filename=\"first.txt\"")));
    assert_eq!(stores.blobs[&first_key].2, b"first".to_vec());
    assert_eq!(stores.records.len(), 1);
    assert_eq!(stores.blobs.len(), 1);
}

#[test]
fn unreadable_body_is_malformed_multipart() {
    let turn = upload(
        upload_session(upload_begin()),
        file_field("a"),
    );
    let turn = upload(upload_session(turn), UploadEvent::Malformed);
    assert_eq!(turn, UploadTurn::Respond { result: Err(any_error(Failure::MalformedMultipart)) });

    let turn = upload(upload_session(upload_begin()), UploadEvent::Malformed);
    assert_eq!(turn, UploadTurn::Respond { result: Err(any_error(Failure::MalformedMultipart)) });
}

fn upload_session(turn: UploadTurn) -> UploadSession {
    match turn {
        UploadTurn::NextField { session } => session,
        UploadTurn::ReadBody { session } => session,
        UploadTurn::Send { session, .. } => session,
        UploadTurn::Respond { .. } => panic!("the request is over"),
    }
}

#[test]
fn free_candidate_is_written_under_its_key() {
    let turn = upload_with(
        probing_session("free", 1),
        store_event(Reply::Absent),
        String::from("unused"),
        0,
    );
    match turn {
        UploadTurn::Send { session, request } => {
            assert_eq!(session.phase, UploadPhase::Writing);
            assert_eq!(session.key, "free");
            assert_eq!(
                request,
                Request::PutBlob {
                    key: String::from("free"),
                    head: BlobHead {
                        content_type: Some(String::from("text/plain")),
                        content_disposition: Some(String::from("inline; filename=\"a.txt\"")),
                    },
                    body: vec![1, 2, 3],
                }
            );
        }
        other => panic!("unexpected turn {:?}", other),
    }
}

#[test]
fn forced_collisions_are_retried_until_a_key_is_free() {
    let mut stores = Stores::new();
    stores.seed("taken-1", "old", 10, b"old");
    stores.seed("taken-2", "old", 10, b"old");
    let candidates = vec!["taken-1", "taken-2", "free-key"];
    let mut draw = 0;

    let turn = upload(
        upload_session(upload_begin()),
        file_field("n.txt"),
    );
    let mut turn = upload_with(
        upload_session(turn),
        UploadEvent::Body { bytes: b"new".to_vec() },
        String::from(candidates[draw]),
        0,
    );
    let session = loop {
        turn = match turn {
            UploadTurn::Send { session, request } => {
                let reply = stores.answer(request);
                let event = UploadEvent::Store { reply };
                let candidate = if session.draws_key(&event) {
                    draw += 1;
                    String::from(candidates[draw])
                } else {
                    String::new()
                };
                upload_with(session, event, candidate, 5_000)
            }
            UploadTurn::NextField { session } => break session,
            other => panic!("unexpected turn {:?}", other),
        };
    };
    assert_eq!(draw, 2);
    assert_eq!(session.attempts, 3);
    assert_eq!(
        session.uploads,
        vec![Upload {
            key: String::from("free-key"),
            filename: String::from("n.txt"),
            expires: 5_000 + RETENTION_MICROS,
            date_created: 5_000,
        }]
    );
    assert_eq!(stores.blobs["free-key"].2, b"new".to_vec());
    assert_eq!(stores.blobs["taken-1"].2, b"old".to_vec());
    assert_eq!(stores.blobs["taken-2"].2, b"old".to_vec());
}

#[test]
fn key_exhausted_only_after_the_last_attempt() {
    let mut session = probing_session("c1", 1);
    for attempt in 1..6 {
        assert_eq!(session.attempts, attempt);
        let next = format!("c{}", attempt + 1);
        match upload_with(session, store_event(Reply::Present), next.clone(), 0) {
            UploadTurn::Send { session: s, request } => {
                assert_eq!(request, Request::HeadBlob { key: next.clone() });
                assert_eq!(s.key, next);
                assert_eq!(s.phase, UploadPhase::Probing);
                session = s;
            }
            other => panic!("unexpected turn {:?}", other),
        }
    }
    assert_eq!(session.attempts, 6);
    let turn = upload_with(session, store_event(Reply::Present), String::from("c7"), 0);
    assert_eq!(turn, UploadTurn::Respond { result: Err(any_error(Failure::KeyExhausted)) });
}

#[test]
fn probe_that_fails_counts_as_a_collision() {
    let turn =
        upload_with(probing_session("c1", 2), store_event(Reply::Failed), String::from("c2"), 0);
    match turn {
        UploadTurn::Send { session, request } => {
            assert_eq!(request, Request::HeadBlob { key: String::from("c2") });
            assert_eq!(session.attempts, 3);
        }
        other => panic!("unexpected turn {:?}", other),
    }
}

#[test]
fn key_is_drawn_and_clock_is_read_only_where_needed() {
    let probing = probing_session("k", 1);
    assert!(!probing.draws_key(&store_event(Reply::Absent)));
    assert!(probing.draws_key(&store_event(Reply::Present)));
    assert!(!probing.reads_clock(&store_event(Reply::Absent)));
    let spent = probing_session("k", 6);
    assert!(!spent.draws_key(&store_event(Reply::Present)));
    let mut writing = probing_session("k", 1);
    writing.phase = UploadPhase::Writing;
    assert!(writing.reads_clock(&store_event(Reply::Done)));
    assert!(!writing.reads_clock(&store_event(Reply::Failed)));
    assert!(!writing.draws_key(&store_event(Reply::Done)));
    let mut waiting = probing_session("k", 0);
    waiting.phase = UploadPhase::AwaitBody;
    assert!(waiting.draws_key(&UploadEvent::Body { bytes: Vec::new() }));
    assert!(!waiting.draws_key(&UploadEvent::Malformed));
}

#[test]
fn failed_blob_write_creates_no_record() {
    let mut stores = Stores::new();
    stores.failing.push(Request::PutBlob {
        key: String::new(),
        head: BlobHead { content_type: None, content_disposition: None },
        body: Vec::new(),
    });
    let mut turn = upload(
        upload_session(upload_begin()),
        file_field("a"),
    );
    let body = UploadEvent::Body { bytes: vec![1] };
    turn = upload_with(upload_session(turn), body, String::new(), 0);
    let result = loop {
        turn = match turn {
            UploadTurn::Send { session, request } => {
                let reply = stores.answer(request);
                upload(session, UploadEvent::Store { reply })
            }
            UploadTurn::Respond { result } => break result,
            other => panic!("unexpected turn {:?}", other),
        };
    };
    assert_eq!(result, Err(any_error(Failure::BlobWriteFailed)));
    assert!(stores.records.is_empty());
    assert!(stores.log.iter().all(|r| !matches!(r, Request::InsertRecord { .. })));
}

#[test]
fn failed_record_write_drops_the_orphaned_blob() {
    let mut writing = probing_session("k9", 1);
    writing.phase = UploadPhase::Writing;
    let turn = upload_with(writing, store_event(Reply::Done), String::new(), 77);
    let session = match turn {
        UploadTurn::Send { session, request } => {
            assert_eq!(session.phase, UploadPhase::Recording);
            assert_eq!(
                request,
                Request::InsertRecord {
                    record: Upload {
                        key: String::from("k9"),
                        filename: String::from("a.txt"),
                        expires: 77 + RETENTION_MICROS,
                        date_created: 77,
                    }
                }
            );
            session
        }
        other => panic!("unexpected turn {:?}", other),
    };
    let turn = upload_with(session, store_event(Reply::Failed), String::new(), 0);
    let session = match turn {
        UploadTurn::Send { session, request } => {
            assert_eq!(session.phase, UploadPhase::Compensating);
            assert_eq!(request, Request::DeleteBlob { key: String::from("k9") });
            session
        }
        other => panic!("unexpected turn {:?}", other),
    };
    let turn = upload_with(session, store_event(Reply::Done), String::new(), 0);
    assert_eq!(turn, UploadTurn::Respond { result: Err(any_error(Failure::MetadataWriteFailed)) });
}

#[test]
fn key_conflict_discards_the_blob_and_tries_a_fresh_key() {
    let mut recording = probing_session("dup", 1);
    recording.phase = UploadPhase::Recording;
    recording.created = 1;
    recording.expires = 1 + RETENTION_MICROS;
    let turn = upload_with(recording, store_event(Reply::Conflict), String::new(), 0);
    let session = match turn {
        UploadTurn::Send { session, request } => {
            assert_eq!(session.phase, UploadPhase::Discarding);
            assert_eq!(request, Request::DeleteBlob { key: String::from("dup") });
            session
        }
        other => panic!("unexpected turn {:?}", other),
    };
    let turn = upload_with(session, store_event(Reply::Done), String::from("fresh"), 0);
    match turn {
        UploadTurn::Send { session, request } => {
            assert_eq!(session.phase, UploadPhase::Probing);
            assert_eq!(session.key, "fresh");
            assert_eq!(session.attempts, 2);
            assert_eq!(request, Request::HeadBlob { key: String::from("fresh") });
        }
        other => panic!("unexpected turn {:?}", other),
    }
}

#[test]
fn unrepresentable_expiry_counts_as_a_failed_record_write() {
    let mut writing = probing_session("k", 1);
    writing.phase = UploadPhase::Writing;
    let turn = upload_with(writing, store_event(Reply::Done), String::new(), i64::MAX);
    match turn {
        UploadTurn::Send { session, request } => {
            assert_eq!(session.phase, UploadPhase::Compensating);
            assert_eq!(request, Request::DeleteBlob { key: String::from("k") });
        }
        other => panic!("unexpected turn {:?}", other),
    }
}

#[test]
fn never_issued_key_is_not_found() {
    let mut stores = Stores::new();
    stores.seed("issued1", "a.txt", 10, b"a");
    let result = run_fetch(&mut stores, "AAAAAAA");
    assert_eq!(result, Err(any_error(Failure::NotFound)));
    assert_eq!(response_status(&result), 404);
    assert_eq!(stores.log, vec![Request::GetBlob { key: String::from("AAAAAAA") }]);
}

#[test]
fn blob_without_record_is_not_found() {
    let mut stores = Stores::new();
    stores.seed("orphan1", "a.txt", 10, b"a");
    stores.records.clear();
    let result = run_fetch(&mut stores, "orphan1");
    assert_eq!(result, Err(any_error(Failure::NotFound)));
    assert_eq!(
        stores.log,
        vec![
            Request::GetBlob { key: String::from("orphan1") },
            Request::FindRecord { key: String::from("orphan1") },
        ]
    );
}

#[test]
fn store_failure_on_fetch_is_an_internal_error() {
    let mut stores = Stores::new();
    stores.seed("k", "a.txt", 10, b"a");
    stores.failing.push(Request::GetBlob { key: String::from("k") });
    let result = run_fetch(&mut stores, "k");
    assert_eq!(result, Err(any_error(Failure::StoreUnavailable)));
    assert_eq!(response_status(&result), 500);

    stores.failing.clear();
    stores.failing.push(Request::FindRecord { key: String::from("k") });
    assert_eq!(run_fetch(&mut stores, "k"), Err(any_error(Failure::StoreUnavailable)));
}

#[test]
fn fetch_serves_the_headers_of_the_blob() {
    let mut stores = Stores::new();
    stores.seed("k", "a.txt", 10, b"a");
    stores.blobs.insert(String::from("k"), (Some(String::from("image/png")), None, vec![1]));
    let head = run_fetch(&mut stores, "k").unwrap();
    assert_eq!(
        head,
        BlobHead { content_type: Some(String::from("image/png")), content_disposition: None }
    );
    assert_eq!(
        response_headers(head),
        vec![(String::from("content-type"), String::from("image/png"))]
    );
}

#[test]
fn response_headers_put_the_disposition_first() {
    let both = BlobHead {
        content_type: Some(String::from("text/plain")),
        content_disposition: Some(String::from("inline; filename=\"a\"")),
    };
    assert_eq!(
        response_headers(both),
        vec![
            (String::from("content-disposition"), String::from("inline; filename=\"a\"")),
            (String::from("content-type"), String::from("text/plain")),
        ]
    );
    let neither = BlobHead { content_type: None, content_disposition: None };
    assert!(response_headers(neither).is_empty());
}

#[test]
fn expired_upload_is_gone_after_one_cycle() {
    let mut stores = Stores::new();
    stores.seed("old", "old.txt", 1_000, b"old");
    stores.seed("new", "new.txt", 9_000, b"new");
    assert!(run_fetch(&mut stores, "old").is_ok());

    let report = run_reaper(&mut stores, 5_000).unwrap();
    assert_eq!(report, ReapReport { purged: vec![String::from("old")], failed: Vec::new() });
    assert_eq!(run_fetch(&mut stores, "old"), Err(any_error(Failure::NotFound)));
    assert!(!stores.blobs.contains_key("old"));
    assert!(!stores.records.contains_key("old"));
    assert!(run_fetch(&mut stores, "new").is_ok());
    assert_eq!(stores.blobs["new"].2, b"new".to_vec());
}

#[test]
fn reaper_removes_the_blob_before_the_record() {
    let mut stores = Stores::new();
    stores.seed("a", "a", 1, b"a");
    stores.seed("b", "b", 2, b"b");
    run_reaper(&mut stores, 10).unwrap();
    assert_eq!(
        stores.log,
        vec![
            Request::SelectExpired { now: 10 },
            Request::DeleteBlob { key: String::from("a") },
            Request::DeleteRecord { key: String::from("a") },
            Request::DeleteBlob { key: String::from("b") },
            Request::DeleteRecord { key: String::from("b") },
        ]
    );
}

#[test]
fn one_failing_blob_removal_does_not_stop_the_cycle() {
    let mut stores = Stores::new();
    stores.seed("a", "a", 1, b"a");
    stores.seed("b", "b", 2, b"b");
    stores.seed("c", "c", 3, b"c");
    stores.failing.push(Request::DeleteBlob { key: String::from("b") });

    let report = run_reaper(&mut stores, 10).unwrap();
    assert_eq!(
        report,
        ReapReport {
            purged: vec![String::from("a"), String::from("c")],
            failed: vec![String::from("b")],
        }
    );
    assert!(!stores.blobs.contains_key("a") && !stores.records.contains_key("a"));
    assert!(!stores.blobs.contains_key("c") && !stores.records.contains_key("c"));
    assert!(stores.blobs.contains_key("b") && stores.records.contains_key("b"));
    assert!(stores.log.iter().all(|r| *r != Request::DeleteRecord { key: String::from("b") }));

    stores.failing.clear();
    let again = run_reaper(&mut stores, 10).unwrap();
    assert_eq!(again, ReapReport { purged: vec![String::from("b")], failed: Vec::new() });
    assert!(stores.blobs.is_empty() && stores.records.is_empty());
}

#[test]
fn failed_record_removal_is_resumed_by_the_next_cycle() {
    let mut stores = Stores::new();
    stores.seed("a", "a", 1, b"a");
    stores.failing.push(Request::DeleteRecord { key: String::from("a") });
    let report = run_reaper(&mut stores, 10).unwrap();
    assert_eq!(report, ReapReport { purged: Vec::new(), failed: vec![String::from("a")] });
    assert!(!stores.blobs.contains_key("a"));
    assert!(stores.records.contains_key("a"));
    assert_eq!(run_fetch(&mut stores, "a"), Err(any_error(Failure::NotFound)));

    stores.failing.clear();
    let report = run_reaper(&mut stores, 10).unwrap();
    assert_eq!(report, ReapReport { purged: vec![String::from("a")], failed: Vec::new() });
    assert!(stores.records.is_empty());
}

#[test]
fn reaper_treats_an_absent_blob_as_removed() {
    let turn = delete_expired(
        match delete_expired_begin_at(10) {
            ReapTurn::Send { session, .. } => session,
            other => panic!("unexpected turn {:?}", other),
        },
        Reply::Rows {
            rows: vec![row("a", "a", 1)],
        },
    );
    let session = match turn {
        ReapTurn::Send { session, request } => {
            assert_eq!(request, Request::DeleteBlob { key: String::from("a") });
            session
        }
        other => panic!("unexpected turn {:?}", other),
    };
    match delete_expired(session, Reply::Absent) {
        ReapTurn::Send { request, .. } => {
            assert_eq!(request, Request::DeleteRecord { key: String::from("a") })
        }
        other => panic!("unexpected turn {:?}", other),
    }
}

#[test]
fn reaper_ignores_rows_that_are_not_due() {
    let rows = vec![
        row("due", "a", 9),
        row("edge", "b", 10),
        row("live", "c", 11),
        row("due2", "d", -5),
    ];
    let due = select_expired(rows, 10);
    let keys: Vec<&str> = due.iter().map(|r| r.key.as_str()).collect();
    assert_eq!(keys, vec!["due", "due2"]);
    assert!(select_expired(Vec::new(), 10).is_empty());
}

#[test]
fn cycle_with_nothing_due_finishes_at_once() {
    let mut stores = Stores::new();
    stores.seed("live", "l", 100, b"l");
    let report = run_reaper(&mut stores, 50).unwrap();
    assert_eq!(report, ReapReport { purged: Vec::new(), failed: Vec::new() });
    assert_eq!(stores.log, vec![Request::SelectExpired { now: 50 }]);
    assert!(stores.blobs.contains_key("live"));
}

#[test]
fn failed_selection_ends_the_cycle_with_an_error() {
    let mut stores = Stores::new();
    stores.seed("old", "o", 1, b"o");
    stores.failing.push(Request::SelectExpired { now: 0 });
    assert_eq!(run_reaper(&mut stores, 10), Err(any_error(Failure::StoreUnavailable)));
    assert!(stores.blobs.contains_key("old"));
}

#[test]
fn cycle_opened_by_the_clock_selects_at_its_reading() {
    match delete_expired_begin() {
        ReapTurn::Send { session, request } => {
            assert_eq!(request, Request::SelectExpired { now: session.now });
            assert!(session.now > 1_600_000_000_000_000);
            assert!(session.queue.is_empty());
        }
        other => panic!("unexpected turn {:?}", other),
    }
}

#[test]
fn upload_stamped_by_the_clock_is_reaped_only_after_retention() {
    let mut stores = Stores::new();
    let body = run_upload(&mut stores, vec![file_part("f.txt", b"f")]).unwrap();
    let key = listed(&body)[0].1.clone();
    let created = stores.records[&key].date_created;
    assert!(created > 1_600_000_000_000_000);

    let early = run_reaper(&mut stores, created + RETENTION_MICROS).unwrap();
    assert!(early.purged.is_empty());
    assert!(run_fetch(&mut stores, &key).is_ok());

    let late = run_reaper(&mut stores, created + RETENTION_MICROS + 1).unwrap();
    assert_eq!(late.purged, vec![key.clone()]);
    assert_eq!(run_fetch(&mut stores, &key), Err(any_error(Failure::NotFound)));
}

#[test]
fn part_handler_starts_by_probing_the_first_candidate() {
    let mut waiting = probing_session("", 4);
    waiting.phase = UploadPhase::AwaitBody;
    waiting.body = Vec::new();
    let body = UploadEvent::Body { bytes: vec![7, 8] };
    match handle_file_part(waiting, body, String::from("cand"), 0) {
        UploadTurn::Send { session, request } => {
            assert_eq!(request, Request::HeadBlob { key: String::from("cand") });
            assert_eq!(session.phase, UploadPhase::Probing);
            assert_eq!(session.attempts, 1);
            assert_eq!(session.body, vec![7, 8]);
            assert_eq!(session.file_name, "a.txt");
        }
        other => panic!("unexpected turn {:?}", other),
    }
}

#[test]
fn part_handler_has_nothing_to_do_between_parts() {
    let session = upload_session(upload_begin());
    let turn = handle_file_part(session, store_event(Reply::Done), String::from("x"), 0);
    assert_eq!(turn, upload_begin());
}

#[test]
fn store_reply_between_parts_is_out_of_turn() {
    let turn = upload(upload_session(upload_begin()), store_event(Reply::Done));
    assert_eq!(turn, UploadTurn::Respond { result: Err(any_error(Failure::MalformedMultipart)) });
}

#[test]
fn stored_part_clears_the_buffer_and_joins_the_list() {
    let mut recording = probing_session("key", 2);
    recording.phase = UploadPhase::Recording;
    recording.created = 10;
    recording.expires = 10 + RETENTION_MICROS;
    recording.uploads = vec![row("older", "o.txt", 5)];
    match upload_with(recording, store_event(Reply::Done), String::new(), 0) {
        UploadTurn::NextField { session } => {
            assert_eq!(session.phase, UploadPhase::AwaitField);
            assert!(session.body.is_empty());
            assert_eq!(
                session.uploads,
                vec![
                    row("older", "o.txt", 5),
                    Upload {
                        key: String::from("key"),
                        filename: String::from("a.txt"),
                        expires: 10 + RETENTION_MICROS,
                        date_created: 10,
                    },
                ]
            );
        }
        other => panic!("unexpected turn {:?}", other),
    }
}
