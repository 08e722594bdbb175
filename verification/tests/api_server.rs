//! Files, jobs, routes, WebSockets, indexes, settings, startup.
use roomler::api::background_task::{content_type, download, get, task_request, unreadable};
use roomler::api::error::ApiError;
use roomler::api::file::{
    do_upload, file_request, list_tenant_files, rooms_of, upload_as, upload_dir, upload_failed,
    uploaded, FieldUse, Form, FormField, RoomFile, Upload, UploadStep,
};
use roomler::api::giphy::{answered, configured, default_limit, search, trending};
use roomler::api::jobs::{
    export_request, export_task, pending, recognition_available, recognize_request, recognize_task,
    ExportAction, ExportFormat, ExportJob, ExportStage, RecognizeAction, RecognizeJob,
    RecognizeStage,
};
use roomler::api::recording::{create, create_as, recording_request, CreateRecordingRequest};
use roomler::api::router::{
    build_cors_layer, build_router, prefix, routes, takes_uploads, Group, Handler, Method, Origins,
    UPLOAD_LIMIT,
};
use roomler::api::scope::Admitted;
use roomler::api::transcription::{transcription_request, Counted, CreateTranscriptionRequest};
use roomler::api::wire::{Body, Field, Paginated};
use roomler::api::ws_handler::{
    connect_ready, connected, consume_ready, consumer_created, existing_producer,
    handle_client_message, handle_socket, media_failed, new_producer, peer_left, pong, produce_ready,
    produce_result, producer_closed, room_exists, router_capabilities, say_presence, say_typing,
    send_media_error, transport_created, ws_upgrade, ConnectAsk, ConsumeAsk, Frame, FrameUse,
    MediaCall, MediaKind, ProduceAsk, Request, Upgrade,
};
use roomler::api::ws_storage::WsStorage;
use roomler::api::message::RoomMessage;
use roomler::indexes::{
    collections, create_indexes, ensure_indexes, name, AfterCreate, Collection, Order, Promise,
};
use roomler::models::background_task::{BackgroundTask, TaskCategory, TaskStatus};
use roomler::models::message::MessageType;
use roomler::models::recording::RecordingType;
use roomler::models::transcription::{Transcription, TranscriptFormat, TranscriptionStatus};
use roomler::oid::{DateTime, ObjectId};
use roomler::settings::{
    create_transcription_engine, defaults, giphy_enabled, oauth_enabled, DefaultValue,
    GiphySettings, ModelState, OAuthProviderSettings, OAuthSettings, TranscriptionSettings,
};
use roomler::startup::{check, lease_until, startup_leader, Alarm, LeaseUpdate, Posture, Refusal};

const TENANT: &str = "507f1f77bcf86cd799439011";
const ITEM: &str = "507f1f77bcf86cd799439012";

fn oid(n: u64) -> ObjectId {
    ObjectId { hi: 0, lo: n }
}

fn answer(e: ApiError) -> (u16, String) {
    let (status, body) = e.into_response();
    (status, body.message)
}

fn said(status: u16, m: &str) -> (u16, String) {
    (status, m.to_string())
}

fn fields(b: &Body) -> String {
    b.fields
        .iter()
        .map(|(k, v)| match v {
            Field::Null => format!("{}=null", k),
            Field::Flag(x) => format!("{}={}", k, x),
            Field::Number(x) => format!("{}={}", k, x),
            Field::Text(x) => format!("{}={}", k, x),
            Field::Document(x) => format!("{}:{}", k, x),
        })
        .collect::<Vec<_>>()
        .join(",")
}

fn admitted() -> Admitted<ObjectId> {
    file_request(TENANT, ITEM, oid(1)).unwrap().grant(Ok(true)).unwrap()
}

fn is_uuid(s: &str) -> bool {
    s.len() == 36
        && s.char_indices().all(|(i, c)| match i {
            8 | 13 | 18 | 23 => c == '-',
            14 => c == '4',
            19 => "89ab".contains(c),
            _ => c.is_ascii_digit() || ('a'..='f').contains(&c),
        })
}

#[test]
fn uploads_are_stored_under_their_tenant_and_room() {
    let u = Upload {
        filename: "a.txt".to_string(),
        content_type: "text/plain".to_string(),
        bytes: vec![1, 2, 3],
    };
    let n = upload_as(oid(1), oid(2), oid(3), &u, "xyz");
    assert_eq!(
        n.storage_key,
        format!("{}/room/{}/xyz", oid(1).to_hex(), oid(2).to_hex())
    );
    assert_eq!((n.size, n.storage_provider), (3, "local"));
    let a = do_upload(oid(1), oid(2), oid(3), &u);
    let b = do_upload(oid(1), oid(2), oid(3), &u);
    assert_ne!(a.storage_key, b.storage_key);
    assert!(is_uuid(a.storage_key.rsplit('/').next().unwrap()));
    assert_eq!(a.filename, "a.txt");
    assert_eq!(upload_dir(None), "/tmp/roomler2-uploads");
    assert_eq!(upload_dir(Some("/data".to_string())), "/data");
}

fn form_field(name: Option<&str>, file_name: Option<&str>) -> FormField {
    FormField {
        name: name.map(|s| s.to_string()),
        file_name: file_name.map(|s| s.to_string()),
        content_type: None,
    }
}

#[test]
fn a_form_needs_its_file_and_its_room() {
    assert_eq!(form_field(Some("file"), None).purpose(false), FieldUse::File);
    assert_eq!(form_field(Some("room_id"), None).purpose(false), FieldUse::RoomId);
    assert_eq!(form_field(Some("room_id"), None).purpose(true), FieldUse::Skip);
    assert_eq!(form_field(None, None).purpose(false), FieldUse::Skip);
    let file = || Form::new().with_file(form_field(Some("file"), None), vec![7]);
    assert_eq!(answer(Form::new().upload().unwrap_err()), said(400, "Missing 'file' field"));
    assert_eq!(answer(file().upload().unwrap_err()), said(400, "Missing 'room_id' field"));
    assert_eq!(
        answer(file().with_room("x".to_string()).upload().unwrap_err()),
        said(400, "Invalid room_id")
    );
    let (u, room) = file().with_room(ITEM.to_string()).upload().unwrap();
    assert_eq!((u.filename.as_str(), u.content_type.as_str()), ("unnamed", "application/octet-stream"));
    assert_eq!(room.to_hex(), ITEM);
    assert_eq!(file().upload_room().unwrap().bytes, vec![7]);
    assert_eq!(
        answer(Form::new().with_room(ITEM.to_string()).upload_room().unwrap_err()),
        said(400, "Missing 'file' field")
    );
}

#[test]
fn failed_uploads_say_where() {
    let e = |s| answer(upload_failed(s, "why"));
    assert_eq!(e(UploadStep::NextField), said(400, "Multipart error: why"));
    assert_eq!(e(UploadStep::ReadFile), said(400, "Failed to read file: why"));
    assert_eq!(e(UploadStep::ReadText), said(400, "Failed to read field: why"));
    assert_eq!(e(UploadStep::MakeUploadDir), said(500, "Failed to create upload dir: why"));
    assert_eq!(e(UploadStep::MakeDirs), said(500, "Failed to create dirs: why"));
    assert_eq!(e(UploadStep::Write), said(500, "Failed to write file: why"));
}

fn room_file(id: u64, room: Option<u64>) -> RoomFile {
    RoomFile {
        id: Some(oid(id)),
        room_id: room.map(oid),
        filename: "a \"b\".txt".to_string(),
        content_type: "text/plain".to_string(),
        size: 3,
        url: String::new(),
        storage_key: "k".to_string(),
        uploaded_by: oid(1),
        created_at: DateTime { millis: 0 },
    }
}

#[test]
fn files_are_listed_with_the_names_of_their_rooms() {
    let items = vec![
        room_file(1, Some(8)),
        room_file(2, None),
        room_file(3, Some(9)),
        room_file(4, Some(8)),
    ];
    let mut rooms = rooms_of(&items);
    rooms.sort_by_key(|o| o.lo);
    assert_eq!(rooms, vec![oid(8), oid(9)]);
    let page = Paginated { items, total: 4, page: 1, per_page: 10, total_pages: 1 };
    let r = list_tenant_files(page, &vec![(oid(8), "general".to_string())]);
    assert_eq!(r.items[0].room_name.as_deref(), Some("general"));
    assert_eq!(r.items[1].room_name, None);
    assert_eq!(r.items[2].room_name, None);
    assert_eq!(r.items[3].room_id.as_deref(), Some(oid(8).to_hex().as_str()));
    let f = uploaded(oid(5), &room_file(1, None));
    assert_eq!(
        f.url,
        format!("/api/tenant/{}/file/{}/download", oid(5).to_hex(), oid(1).to_hex())
    );
    let (kind, disposition) = roomler::api::file::download(&room_file(1, None));
    assert_eq!(kind, "text/plain");
    assert_eq!(disposition, "attachment; filename=\"a \"b\".txt\"");
    assert_eq!(answer(file_request(TENANT, "x", oid(1)).unwrap_err()), said(400, "Invalid file_id"));
}

fn task(path: Option<&str>, name: Option<&str>) -> BackgroundTask {
    BackgroundTask {
        id: Some(oid(4)),
        tenant_id: oid(1),
        user_id: oid(2),
        task_type: "export_conversation".to_string(),
        category: TaskCategory::Export,
        status: TaskStatus::Completed,
        params: "{}".to_string(),
        logs: vec!["a".to_string()],
        progress: 100,
        file_path: path.map(|s| s.to_string()),
        file_name: name.map(|s| s.to_string()),
        error: None,
        started_at: None,
        completed_at: None,
        expires_at: DateTime { millis: 0 },
        created_at: DateTime { millis: 0 },
        updated_at: DateTime { millis: 0 },
    }
}

#[test]
fn a_task_is_its_users_own() {
    let t = get(oid(2), &task(None, None)).unwrap();
    assert_eq!((t.status.as_str(), t.progress), ("Completed", 100));
    assert_eq!(t.logs, vec!["a"]);
    assert_eq!(answer(get(oid(3), &task(None, None)).unwrap_err()), said(403, "Not your task"));
    assert_eq!(
        answer(download(oid(3), &task(None, None)).unwrap_err()),
        said(403, "Not your task")
    );
    assert_eq!(
        answer(download(oid(2), &task(None, Some("x.pdf"))).unwrap_err()),
        said(404, "Task has no file")
    );
    let d = download(oid(2), &task(Some("/e/x.xlsx"), Some("x.xlsx"))).unwrap();
    assert_eq!(
        d.content_type,
        "application/vnd.openxmlformats-officedocument.spreadsheetml.sheet"
    );
    assert_eq!(d.disposition, "attachment; filename=\"x.xlsx\"");
    let d = download(oid(2), &task(Some("/e/x"), None)).unwrap();
    assert_eq!(d.content_type, "application/octet-stream");
    assert_eq!(d.disposition, "attachment; filename=\"download\"");
    assert_eq!(content_type("a.pdf"), "application/pdf");
    assert_eq!(content_type(".pdf"), "application/pdf");
    assert_eq!(content_type("pdf"), "application/octet-stream");
    assert_eq!(answer(unreadable(false, "x")), said(404, "File not found on disk"));
    assert_eq!(answer(unreadable(true, "x")), said(500, "Failed to read file: x"));
    assert_eq!(answer(task_request("x").unwrap_err()), said(400, "Invalid task_id"));
}

fn by(author: u64) -> RoomMessage {
    RoomMessage {
        id: Some(oid(1000 + author)),
        room_id: oid(900),
        thread_id: None,
        is_thread_root: false,
        thread_metadata: None,
        author_id: oid(author),
        content: "hello".to_string(),
        message_type: MessageType::Default,
        attachments: vec![],
        reaction_summary: vec![],
        referenced_message_id: None,
        readby: vec![],
        is_pinned: false,
        is_edited: false,
        created_at: DateTime { millis: 0 },
        updated_at: DateTime { millis: 0 },
    }
}

fn run(mut job: ExportJob, messages: Vec<RoomMessage>) -> Vec<String> {
    let mut seen = vec![];
    loop {
        let a = job.action();
        seen.push(match &a {
            ExportAction::FetchMessages(c, page, n) => format!("fetch {} {} {}", c.lo, page, n),
            ExportAction::Progress(n, line) => format!("{} {}", n, line),
            ExportAction::FindUser(u) => format!("user {}", u.lo),
            ExportAction::Render => "render".to_string(),
            ExportAction::MakeDir(d) => format!("dir {}", d),
            ExportAction::Write(n) => format!("write {}", n),
            ExportAction::Complete(n) => format!("complete {}", n),
            ExportAction::Nothing => return seen,
        });
        job = if matches!(a, ExportAction::FetchMessages(..)) {
            job.fetched(Ok(&messages)).unwrap()
        } else if matches!(a, ExportAction::FindUser(_)) {
            job.next(Err("not found".to_string())).unwrap()
        } else {
            job.next(Ok(())).unwrap()
        };
    }
}

#[test]
fn an_export_goes_through_its_stages() {
    let name = format!("conversation-export-{}.xlsx", oid(9).to_hex());
    assert_eq!(
        run(ExportJob::new(ExportFormat::Excel, oid(9), oid(8)), vec![by(2), by(1), by(2)]),
        vec![
            "fetch 8 1 10000".to_string(),
            "30 Fetched messages".to_string(),
            "user 1".to_string(),
            "user 2".to_string(),
            "60 Fetched user data".to_string(),
            "render".to_string(),
            "dir exports".to_string(),
            format!("write {}", name),
            format!("complete {}", name),
        ]
    );
    let pdf = run(ExportJob::new(ExportFormat::Pdf, oid(9), oid(8)), vec![]);
    assert_eq!(pdf.len(), 7);
    assert_eq!(pdf[2], "60 Generating PDF");
    assert!(pdf[5].ends_with(".pdf"));
}

fn failed(format: ExportFormat, stage: ExportStage) -> String {
    let mut job = ExportJob::new(format, oid(9), oid(8));
    if stage == ExportStage::Fetch {
        return job.fetched(Err("why".to_string())).unwrap_err();
    }
    job = job.fetched(Ok(&vec![])).unwrap();
    while job.stage != stage {
        job = job.next(Ok(())).unwrap();
    }
    job.next(Err("why".to_string())).unwrap_err()
}

#[test]
fn a_failed_export_says_where() {
    let x = |s| failed(ExportFormat::Excel, s);
    assert_eq!(x(ExportStage::Fetch), "Failed to fetch messages: why");
    assert_eq!(x(ExportStage::NoteMessages), "Failed to update progress: why");
    assert_eq!(x(ExportStage::NoteUsers), "Failed to update progress: why");
    assert_eq!(x(ExportStage::Render), "Excel export failed: why");
    assert_eq!(x(ExportStage::MakeDir), "Failed to create export dir: why");
    assert_eq!(x(ExportStage::Write), "Failed to write export file: why");
    assert_eq!(x(ExportStage::Complete), "Failed to complete task: why");
    let p = |s| failed(ExportFormat::Pdf, s);
    assert_eq!(p(ExportStage::NoteMessages), "why");
    assert_eq!(p(ExportStage::Render), "why");
    assert_eq!(p(ExportStage::Write), "Failed to write PDF: why");
    assert_eq!(p(ExportStage::Complete), "why");
}

#[test]
fn tasks_are_made_and_wait() {
    let a = export_request(TENANT, ITEM, oid(1)).unwrap().grant(Ok(true)).unwrap();
    let t = export_task(&a, ITEM, ExportFormat::Pdf);
    assert_eq!(t.task_type, "export_conversation_pdf");
    assert_eq!(t.category, TaskCategory::Export);
    assert_eq!(fields(&t.params), format!("channel_id={},format=pdf", ITEM));
    let t = export_task(&a, ITEM, ExportFormat::Excel);
    assert_eq!(t.task_type, "export_conversation");
    assert_eq!(fields(&t.params), format!("channel_id={}", ITEM));
    assert_eq!(
        fields(&pending(oid(3))),
        format!("task_id={},status=pending", oid(3).to_hex())
    );
    assert_eq!(
        answer(export_request(TENANT, "x", oid(1)).unwrap_err()),
        said(400, "Invalid channel_id")
    );
    let a = recognize_request(TENANT, ITEM, oid(1)).unwrap().grant(Ok(true)).unwrap();
    let t = recognize_task(&a, ITEM);
    assert_eq!((t.task_type, t.category), ("document_recognition", TaskCategory::Recognition));
    assert!(recognition_available(true, "Acme").is_ok());
    assert_eq!(
        answer(recognition_available(false, "Acme").unwrap_err()),
        said(400, "Document recognition not configured (missing Acme API key)")
    );
}

#[test]
fn a_recognition_goes_through_its_stages() {
    let mut job = RecognizeJob::new(oid(1), oid(2));
    let mut seen = vec![];
    while job.stage != RecognizeStage::Done {
        seen.push(match job.action("Acme") {
            RecognizeAction::Progress(n, line) => format!("{} {}", n, line),
            RecognizeAction::Read => "read".to_string(),
            RecognizeAction::Recognize => "recognize".to_string(),
            RecognizeAction::Serialize => "serialize".to_string(),
            RecognizeAction::Update(f) => format!("update {}", f.lo),
            RecognizeAction::Complete => "complete".to_string(),
            RecognizeAction::Nothing => "nothing".to_string(),
        });
        let e = job.next(Err("why".to_string())).unwrap_err();
        match job.stage {
            RecognizeStage::Read => assert_eq!(e, "Failed to read file: why"),
            RecognizeStage::Serialize => {
                assert_eq!(e, "Failed to serialize recognized content: why")
            }
            RecognizeStage::Update => assert_eq!(e, "Failed to update file: why"),
            _ => assert_eq!(e, "why"),
        }
        job = job.next(Ok(())).unwrap();
    }
    assert_eq!(
        seen,
        vec![
            "10 Reading file",
            "read",
            "30 Sending to Acme API",
            "recognize",
            "80 Updating file record",
            "serialize",
            "update 2",
            "complete",
        ]
    );
}

#[test]
fn recordings_are_of_video_unless_said_otherwise() {
    let a = admitted();
    let ask = |t: Option<&str>| CreateRecordingRequest { recording_type: t.map(|s| s.to_string()) };
    assert_eq!(create_as(&a, &ask(Some("audio")), "u").recording_type, RecordingType::Audio);
    assert_eq!(
        create_as(&a, &ask(Some("screen_share")), "u").recording_type,
        RecordingType::ScreenShare
    );
    assert_eq!(create_as(&a, &ask(Some("Audio")), "u").recording_type, RecordingType::Video);
    let r = create_as(&a, &ask(None), "u");
    assert_eq!(r.recording_type, RecordingType::Video);
    assert_eq!(r.file.key, format!("{}/{}/u", TENANT, ITEM));
    assert_eq!((r.file.bucket.as_str(), r.file.content_type.as_str()), ("recordings", "video/webm"));
    assert!(is_uuid(create(&a, &ask(None)).file.key.rsplit('/').next().unwrap()));
    assert_eq!(
        answer(recording_request(TENANT, "x", oid(1)).unwrap_err()),
        said(400, "Invalid recording_id")
    );
}

#[test]
fn transcriptions_are_in_american_english_unless_said_otherwise() {
    let a = admitted();
    let ask = |l: Option<&str>, r: Option<&str>| CreateTranscriptionRequest {
        language: l.map(|s| s.to_string()),
        recording_id: r.map(|s| s.to_string()),
    };
    let n = roomler::api::transcription::create(&a, ask(None, Some(ITEM))).unwrap();
    assert_eq!(n.language, "en-US");
    assert_eq!(n.recording_id.unwrap().to_hex(), ITEM);
    let n = roomler::api::transcription::create(&a, ask(Some("de"), None)).unwrap();
    assert_eq!((n.language.as_str(), n.recording_id), ("de", None));
    let e = roomler::api::transcription::create(&a, ask(None, Some("x"))).unwrap_err();
    assert_eq!(answer(e), said(400, "Invalid recording_id"));
    assert_eq!(
        answer(transcription_request(TENANT, "x", oid(1)).unwrap_err()),
        said(400, "Invalid transcription_id")
    );
    let t = Counted {
        transcription: Transcription {
            id: Some(oid(1)),
            tenant_id: oid(2),
            conference_id: oid(3),
            recording_id: None,
            status: TranscriptionStatus::Available,
            language: "en-US".to_string(),
            format: TranscriptFormat::Vtt,
            content_url: String::new(),
            summary: None,
            action_items: vec![],
            created_at: DateTime { millis: 0 },
            updated_at: DateTime { millis: 0 },
        },
        segments: 17,
    };
    let r = roomler::api::transcription::to_response(&t);
    assert_eq!((r.status.as_str(), r.format.as_str(), r.segment_count), ("Available", "Vtt", 17));
    let d = roomler::api::transcription::get(t.transcription);
    assert_eq!(d.created_at, "1970-01-01T00:00:00Z");
}

#[test]
fn pictures_come_twenty_five_at_a_time() {
    assert_eq!(default_limit(), 25);
    let q = search("cat".to_string(), None, Some(50));
    assert_eq!((q.q.as_str(), q.limit, q.offset), ("cat", 25, 50));
    let q = trending(Some(5), None);
    assert_eq!((q.limit, q.offset), (5, 0));
    assert!(configured("key").is_ok());
    assert_eq!(answer(configured("").unwrap_err()), said(400, "Giphy not configured"));
    assert_eq!(answered(Ok("{}".to_string())).unwrap(), "{}");
    assert_eq!(
        answer(answered(Err("503".to_string())).unwrap_err()),
        said(500, "Giphy API error: 503")
    );
}

#[test]
fn every_route_is_there_once() {
    let table = build_router();
    assert_eq!(table.len(), 20);
    assert_eq!(table.iter().map(|(_, r)| r.len()).sum::<usize>(), 86);
    for (group, list) in &table {
        assert!(prefix(*group).starts_with('/'));
        for (i, a) in list.iter().enumerate() {
            for b in &list[i + 1..] {
                assert!(a.method != b.method || a.path != b.path, "{:?} {}", group, a.path);
            }
        }
    }
    let room = routes(Group::Room);
    assert_eq!(room[0].path, "/");
    assert!(room.iter().any(|r| r.path == "/{room_id}/call/start"
        && r.method == Method::Post
        && r.handler == Handler::RoomCallStart));
    assert_eq!(prefix(Group::Message), "/tenant/{tenant_id}/room/{room_id}/message");
    assert!(takes_uploads(Group::RoomFile) && takes_uploads(Group::FileById));
    assert!(!takes_uploads(Group::Room));
    assert_eq!(UPLOAD_LIMIT, 100 * 1024 * 1024);
}

#[test]
fn a_wildcard_or_nothing_allows_every_origin() {
    let list = |v: &[&str]| v.iter().map(|s| s.to_string()).collect::<Vec<String>>();
    assert!(matches!(build_cors_layer(&list(&[])), Origins::Any));
    assert!(matches!(build_cors_layer(&list(&["https://a", "*"])), Origins::Any));
    match build_cors_layer(&list(&["https://a", "https://b"])) {
        Origins::Only(l) => assert_eq!(l, vec!["https://a", "https://b"]),
        Origins::Any => panic!("only two"),
    }
}

#[test]
fn connections_are_kept_by_user() {
    let mut s = WsStorage::default();
    assert_eq!(s.connection_count(), 0);
    assert!(s.all_user_ids().is_empty());
    let big = ObjectId { hi: u32::MAX, lo: u64::MAX };
    s.add(oid(1), 10);
    s.add(oid(1), 11);
    s.add(big, 12);
    assert_eq!(s.get_senders(&oid(1)), vec![10, 11]);
    assert_eq!(s.get_senders(&big), vec![12]);
    assert_eq!(s.connection_count(), 3);
    let mut all = s.all_user_ids();
    all.sort_by_key(|o| o.hi);
    assert_eq!(all, vec![oid(1), big]);
    s.remove(&oid(1), 99);
    assert_eq!(s.get_senders(&oid(1)), vec![10, 11]);
    s.remove(&oid(1), 10);
    assert_eq!(s.get_senders(&oid(1)), vec![11]);
    s.remove(&oid(1), 11);
    assert!(s.get_senders(&oid(1)).is_empty());
    assert_eq!(s.all_user_ids(), vec![big]);
    s.remove(&oid(1), 11);
    assert_eq!(s.connection_count(), 1);
}

#[test]
fn a_websocket_opens_for_a_user() {
    assert_eq!(ws_upgrade(Some(TENANT)).refusal(), None);
    assert_eq!(ws_upgrade(None).refusal(), Some((401, "Unauthorized")));
    assert_eq!(ws_upgrade(Some("x")).refusal(), Some((400, "Invalid user ID")));
    assert!(matches!(ws_upgrade(Some(TENANT)), Upgrade::Open(o) if o.to_hex() == TENANT));
    assert_eq!(
        fields(&connected(oid(1))),
        format!("type=connected,user_id={}", oid(1).to_hex())
    );
    assert_eq!(fields(&pong()), "type=pong");
    assert_eq!(handle_socket(Frame::Text), FrameUse::Handle);
    assert_eq!(handle_socket(Frame::Ping), FrameUse::Pong);
    assert_eq!(handle_socket(Frame::Close), FrameUse::Hang);
    assert_eq!(handle_socket(Frame::Broken), FrameUse::Hang);
    assert_eq!(handle_socket(Frame::Other), FrameUse::Skip);
}

fn media_error(text: &str) -> String {
    match handle_client_message(text) {
        Request::MediaError(m) => m.to_string(),
        other => panic!("{:?}", other),
    }
}

#[test]
fn what_is_no_object_comes_to_nothing() {
    for text in ["", "{", "[]", "7", "\"ping\"", "{}", r#"{"type":7}"#, r#"{"type":"nope"}"#] {
        assert!(matches!(handle_client_message(text), Request::Nothing), "{}", text);
    }
    assert!(matches!(handle_client_message(r#"{"type":"ping"}"#), Request::Pong));
    assert!(matches!(handle_client_message(r#"{"type":"ping","x":[1]}"#), Request::Pong));
}

#[test]
fn typing_and_presence_are_taken_up() {
    let t = format!(r#"{{"type":"typing:stop","data":{{"channel_id":"{}"}}}}"#, ITEM);
    match handle_client_message(&t) {
        Request::Typing(n) => {
            assert!(n.stopped);
            assert_eq!(n.channel.to_hex(), ITEM);
            let e = say_typing(oid(1), &n, &vec![oid(1), oid(2)]);
            assert_eq!((e.kind, e.to), ("typing:stop", vec![oid(2)]));
            assert_eq!(
                fields(&e.data),
                format!("channel_id={},user_id={}", ITEM, oid(1).to_hex())
            );
        }
        other => panic!("{:?}", other),
    }
    for text in [
        r#"{"type":"typing:start"}"#,
        r#"{"type":"typing:start","data":{"channel_id":7}}"#,
        r#"{"type":"typing:start","data":{"channel_id":"x"}}"#,
        r#"{"type":"presence:update","data":[]}"#,
    ] {
        assert!(matches!(handle_client_message(text), Request::Nothing), "{}", text);
    }
    match handle_client_message(r#"{"type":"presence:update","data":{"presence":"away"}}"#) {
        Request::Presence(p) => {
            let e = say_presence(oid(1), &p, vec![oid(1)]);
            assert_eq!(e.kind, "presence:update");
            assert_eq!(
                fields(&e.data),
                format!("user_id={},presence=away", oid(1).to_hex())
            );
        }
        other => panic!("{:?}", other),
    }
}

#[test]
fn media_requests_name_what_is_missing() {
    assert_eq!(media_error(r#"{"type":"media:join"}"#), "Missing conference_id");
    assert_eq!(
        media_error(r#"{"type":"media:join","data":{"conference_id":"x"}}"#),
        "Invalid conference_id"
    );
    for kind in ["media:connect_transport", "media:produce", "media:consume"] {
        assert_eq!(media_error(&format!(r#"{{"type":"{}"}}"#, kind)), "Missing data");
        assert_eq!(
            media_error(&format!(r#"{{"type":"{}","data":{{}}}}"#, kind)),
            "Missing conference_id"
        );
    }
    assert_eq!(
        media_error(r#"{"type":"media:connect_transport","data":{"conference_id":"c"}}"#),
        "Missing transport_id"
    );
    assert_eq!(
        media_error(r#"{"type":"media:consume","data":{"conference_id":"c"}}"#),
        "Missing producer_id"
    );
    for kind in ["media:producer_close", "media:leave"] {
        let t = format!(r#"{{"type":"{}","data":{{"conference_id":"x"}}}}"#, kind);
        assert!(matches!(handle_client_message(&t), Request::Nothing));
    }
}

#[test]
fn media_requests_are_taken_up() {
    let t = format!(r#"{{"type":"media:join","data":{{"conference_id":"{}"}}}}"#, ITEM);
    assert!(matches!(handle_client_message(&t), Request::Join(c) if c.to_hex() == ITEM));
    let t = format!(r#"{{"type":"media:leave","data":{{"conference_id":"{}"}}}}"#, ITEM);
    assert!(matches!(handle_client_message(&t), Request::Leave(c) if c.to_hex() == ITEM));
    let t = format!(
        r#"{{"type":"media:producer_close","data":{{"conference_id":"{}","producer_id":"p"}}}}"#,
        ITEM
    );
    assert!(matches!(handle_client_message(&t), Request::CloseProducer(_, p) if p == "p"));
    let t = r#"{"type":"media:connect_transport","data":
        {"conference_id":"c","transport_id":"t","dtls_parameters":{"a": 1}}}"#;
    match handle_client_message(t) {
        Request::Connect(a) => {
            assert_eq!(a.transport_id, "t");
            assert_eq!(a.dtls_parameters.as_deref(), Some(r#"{"a":1}"#));
        }
        other => panic!("{:?}", other),
    }
    let t = r#"{"type":"media:produce","data":{"conference_id":"c","kind":"audio"}}"#;
    match handle_client_message(t) {
        Request::Produce(a) => {
            assert_eq!(a.kind.as_deref(), Some("\"audio\""));
            assert_eq!(a.rtp_parameters, None);
        }
        other => panic!("{:?}", other),
    }
}

#[test]
fn media_requests_are_read_in_order() {
    let c = ConnectAsk {
        conference_id: "x".to_string(),
        transport_id: "t".to_string(),
        dtls_parameters: None,
    };
    assert_eq!(connect_ready(&c, false), Err("Invalid dtls_parameters"));
    assert_eq!(connect_ready(&c, true), Err("Invalid conference_id"));
    let p = ProduceAsk { conference_id: ITEM.to_string(), kind: None, rtp_parameters: None };
    assert_eq!(produce_ready(&p, false, false), Err("Invalid kind"));
    assert_eq!(produce_ready(&p, true, false), Err("Invalid rtp_parameters"));
    assert_eq!(produce_ready(&p, true, true).unwrap().to_hex(), ITEM);
    let k = |conf: &str| ConsumeAsk {
        conference_id: conf.to_string(),
        producer_id: "p".to_string(),
        rtp_capabilities: None,
    };
    assert_eq!(consume_ready(&k("x"), false, false), Err("Invalid rtp_capabilities"));
    assert_eq!(consume_ready(&k("x"), true, false), Err("Invalid conference_id"));
    assert_eq!(consume_ready(&k(ITEM), true, false), Err("Invalid producer_id"));
    assert!(consume_ready(&k(ITEM), true, true).is_ok());
    assert_eq!(room_exists(false), Err("Room does not exist"));
    assert!(room_exists(true).is_ok());
}

#[test]
fn media_events_go_to_the_right_users() {
    let me = oid(1);
    let e = send_media_error(me, "bad");
    assert_eq!((e.kind, e.to, fields(&e.data)), ("media:error", vec![me], "message=bad".to_string()));
    let f = |c| fields(&media_failed(me, c, "x").data);
    assert_eq!(f(MediaCall::CreateTransports), "message=Failed to create transports: x");
    assert_eq!(f(MediaCall::ConnectTransport), "message=connect_transport failed: x");
    assert_eq!(f(MediaCall::Produce), "message=produce failed: x");
    assert_eq!(f(MediaCall::Consume), "message=consume failed: x");
    assert_eq!(
        fields(&router_capabilities(me, "{}".to_string()).data),
        "rtp_capabilities:{}"
    );
    assert_eq!(
        fields(&transport_created(me, "1".to_string(), "2".to_string()).data),
        "send_transport:1,recv_transport:2"
    );
    assert_eq!(
        fields(&existing_producer(me, "p", oid(2), MediaKind::Audio).data),
        format!("producer_id=p,user_id={},kind=audio", oid(2).to_hex())
    );
    assert_eq!(fields(&produce_result(me, "p").data), "id=p");
    let e = new_producer(me, "p", MediaKind::Video, &vec![me, oid(2)]).unwrap();
    assert_eq!(e.to, vec![oid(2)]);
    assert!(fields(&e.data).ends_with("kind=video"));
    assert!(new_producer(me, "p", MediaKind::Video, &vec![me]).is_none());
    let e = producer_closed(me, "p", &vec![oid(2)]).unwrap();
    assert_eq!(e.kind, "media:producer_closed");
    let e = peer_left(me, oid(9), &vec![me, oid(2)]).unwrap();
    assert_eq!((e.kind, e.to), ("media:peer_left", vec![oid(2)]));
    assert!(peer_left(me, oid(9), &vec![]).is_none());
    let e = consumer_created(me, "1".to_string(), "2".to_string(), "3".to_string(), "4".to_string());
    assert_eq!(fields(&e.data), "id:1,producer_id:2,kind:3,rtp_parameters:4");
}

#[test]
fn the_indexes_are_planned() {
    let all = collections();
    assert_eq!(all.len(), 16);
    assert_eq!(all.iter().map(|c| ensure_indexes(*c).len()).sum::<usize>(), 43);
    assert_eq!(name(Collection::TenantMembers), "tenant_members");
    let logs = ensure_indexes(Collection::AuditLogs);
    assert_eq!(logs[3].promise, Promise::Expiry(90 * 24 * 60 * 60));
    assert_eq!(logs[3].keys, vec![("created_at", Order::Ascending)]);
    let rooms = ensure_indexes(Collection::Rooms);
    assert_eq!(rooms[4].promise, Promise::UniqueSparse);
    assert_eq!(
        rooms[5].keys,
        vec![("name", Order::Text), ("purpose", Order::Text), ("tags", Order::Text)]
    );
    let m = ensure_indexes(Collection::Messages);
    assert_eq!(
        m[0].keys,
        vec![("room_id", Order::Ascending), ("created_at", Order::Descending)]
    );
}

#[test]
fn conflicting_indexes_are_made_anew() {
    assert_eq!(create_indexes(Ok(())), AfterCreate::Created);
    assert_eq!(create_indexes(Err(Some(85))), AfterCreate::DropAndRetry);
    assert_eq!(create_indexes(Err(Some(86))), AfterCreate::DropAndRetry);
    assert_eq!(create_indexes(Err(Some(87))), AfterCreate::Fail);
    assert_eq!(create_indexes(Err(None)), AfterCreate::Fail);
}

#[test]
fn the_settings_have_their_defaults() {
    let all = defaults("Acme");
    assert_eq!(all.len(), 54);
    let at = |k: &str| all.iter().find(|(n, _)| n == k).map(|(_, v)| v);
    let text = |k: &str| match at(k) {
        Some(DefaultValue::Text(t)) => t.clone(),
        _ => panic!("{} is no text", k),
    };
    assert!(matches!(at("app.port"), Some(DefaultValue::Number(3000))));
    assert!(matches!(at("app.cors_origins"), Some(DefaultValue::NoTexts)));
    assert!(matches!(at("jwt.refresh_token_ttl_secs"), Some(DefaultValue::Number(604800))));
    assert_eq!(text("jwt.secret"), "change-me-in-production");
    assert_eq!(text("acme.model"), "acme-sonnet-4-5-20250929");
    assert!(matches!(at("acme.max_tokens"), Some(DefaultValue::Number(4096))));
    assert!(at("acme.api_key").is_none());
    assert!(matches!(at("turn.url"), Some(DefaultValue::Nothing)));
    assert!(matches!(at("turn.force_relay"), Some(DefaultValue::Flag(false))));
    assert!(matches!(
        at("transcription.vad_end_threshold"),
        Some(DefaultValue::Decimal("0.35"))
    ));
    assert!(at("app.static_dir").is_none());
}

fn provider(id: &str) -> OAuthProviderSettings {
    OAuthProviderSettings { client_id: id.to_string(), client_secret: String::new() }
}

#[test]
fn services_are_offered_where_they_are_configured() {
    let oauth = |ms: &str| OAuthSettings {
        base_url: String::new(),
        google: provider(""),
        facebook: provider(""),
        github: provider(""),
        linkedin: provider(""),
        microsoft: provider(ms),
    };
    assert!(!oauth_enabled(&oauth("")));
    assert!(oauth_enabled(&oauth("id")));
    assert!(!giphy_enabled(&GiphySettings { api_key: String::new() }));
    assert!(giphy_enabled(&GiphySettings { api_key: "k".to_string() }));
}

#[test]
fn transcription_needs_a_backend() {
    let s = |backend: &str| TranscriptionSettings {
        enabled: true,
        backend: backend.to_string(),
        whisper_model_path: None,
        language: None,
        vad_model_path: None,
        vad_min_speech_frames: 3,
        vad_min_silence_frames: 15,
        vad_pre_speech_pad_frames: 10,
        nim_endpoint: None,
        onnx_model_path: None,
    };
    let b = create_transcription_engine(&s("local_whisper"), ModelState::Loaded, ModelState::Broken)
        .unwrap();
    assert!(b.whisper && !b.canary);
    assert_eq!(b.default_backend, "whisper");
    let b = create_transcription_engine(&s("local_onnx"), ModelState::Unset, ModelState::Loaded)
        .unwrap();
    assert_eq!(b.default_backend, "canary");
    let b = create_transcription_engine(&s("nim"), ModelState::Unset, ModelState::Loaded).unwrap();
    assert_eq!(b.default_backend, "nim");
    assert!(
        create_transcription_engine(&s("nim"), ModelState::Missing, ModelState::Broken).is_err()
    );
}

fn posture<'a>(environment: &'a str, secret: &'a str, previous: &'a str) -> Posture<'a> {
    Posture {
        environment,
        jwt_secret: secret,
        previous_secrets: previous,
        frontend_url: "https://r.ai",
        default_frontend_url: "http://localhost:5000",
        stripe_secret_key: "",
        stripe_price_pro: "",
        stripe_price_business: "",
    }
}

#[test]
fn the_known_secret_does_not_start_in_production() {
    let known = "change-me-in-production";
    assert_eq!(check(&posture("production", known, "")), Err(Refusal::KnownSecret));
    assert_eq!(
        check(&posture("production", "s3cret", "old, change-me-in-production ,older")),
        Err(Refusal::KnownPreviousSecret)
    );
    assert_eq!(check(&posture("production", "s3cret", "old")), Ok(vec![]));
    assert_eq!(
        check(&posture("development", known, known)),
        Ok(vec![Alarm::KnownSecret, Alarm::KnownPreviousSecret])
    );
    assert!(Refusal::KnownSecret.message().starts_with("Refusing to start: "));
    assert!(Refusal::KnownPreviousSecret.message().ends_with("so this is not a rotation."));
}

#[test]
fn half_configured_servers_say_so() {
    let mut p = posture("production", "s3cret", "");
    p.frontend_url = "http://localhost:5000";
    p.stripe_secret_key = "sk";
    p.stripe_price_pro = "price";
    assert_eq!(
        check(&p),
        Ok(vec![Alarm::DevelopmentFrontend, Alarm::StripeWithoutPrices])
    );
    p.stripe_price_business = "price";
    p.environment = "development";
    assert_eq!(check(&p), Ok(vec![]));
    assert!(Alarm::StripeWithoutPrices.message().contains("checkout WILL fail"));
}

#[test]
fn one_server_does_the_maintenance() {
    assert_eq!(lease_until(1000), Some(121000));
    assert_eq!(lease_until(i64::MAX), None);
    assert!(startup_leader(LeaseUpdate::Updated(1, false)));
    assert!(startup_leader(LeaseUpdate::Updated(0, true)));
    assert!(!startup_leader(LeaseUpdate::Updated(0, false)));
    assert!(!startup_leader(LeaseUpdate::Failed));
}
