//! Files of rooms: uploading, listing, downloading.
use vstd::prelude::*;
use crate::api::background_task::saved_as;
use crate::api::error::{ApiError, DaoError, ErrorKind, bad_request, dao_answer, internal};
use crate::api::scope::{Asked, holds, id_in, item_asked, item_request, parse_id};
use crate::api::wire::{
    Body,
    Paginated,
    done,
    entry,
    find_entry,
    hex_of,
    opt_hex,
    said,
    same_place,
};
use crate::chance::{is_uuid, uuid_v4};
use crate::oid::{DateTime, ObjectId, hex_is_unique, hex_round_trip, oid_hex, time_text};
use crate::text::opt_view;

verus! {

/// A file, for clients.
#[derive(Debug)]
#[allow(missing_docs)]
pub struct FileResponse {
    pub id: String,
    pub filename: String,
    pub content_type: String,
    pub size: u64,
    pub url: String,
    pub uploaded_by: String,
    pub created_at: String,
    pub room_id: Option<String>,
    pub room_name: Option<String>,
}

/// A file of a room, as it is stored.
#[derive(Debug)]
#[allow(missing_docs)]
pub struct RoomFile {
    pub id: Option<ObjectId>,
    pub room_id: Option<ObjectId>,
    pub filename: String,
    pub content_type: String,
    pub size: u64,
    pub url: String,
    pub storage_key: String,
    pub uploaded_by: ObjectId,
    pub created_at: DateTime,
}

/// A request on a file of a tenant.
pub fn file_request(tenant_id: &str, file_id: &str, user: ObjectId) -> (r: Result<Asked<ObjectId>, ApiError>)
    ensures
        match r {
            Ok(a) => item_asked(tenant_id@, file_id@, "file_id"@, user) == Ok::<
                _,
                (ErrorKind, Seq<char>),
            >(a),
            Err(e) => item_asked(tenant_id@, file_id@, "file_id"@, user) == Err::<
                Asked<ObjectId>,
                _,
            >(e@),
        },
{
    item_request(tenant_id, file_id, "file_id", user)
}

/// A file as a client sees it, while the name of its room is not known.
pub open spec fn shows(r: FileResponse, m: RoomFile) -> bool {
    &&& m.id matches Some(id) && r.id@ == oid_hex(id)
    &&& r.filename@ == m.filename@
    &&& r.content_type@ == m.content_type@
    &&& r.size == m.size
    &&& r.url@ == m.url@
    &&& r.uploaded_by@ == oid_hex(m.uploaded_by)
    &&& r.created_at@ == time_text(m.created_at)
    &&& opt_view(r.room_id) == opt_hex(m.room_id)
    &&& r.room_name is None
}

/// A file as a client sees it, while the name of its room is not known.
pub fn to_response(m: &RoomFile) -> (r: FileResponse)
    requires
        m.id is Some,
    ensures
        shows(r, *m),
{
    FileResponse {
        id: m.id.unwrap().to_hex(),
        filename: m.filename.clone(),
        content_type: m.content_type.clone(),
        size: m.size,
        url: m.url.clone(),
        uploaded_by: m.uploaded_by.to_hex(),
        created_at: m.created_at.to_text(),
        room_id: hex_of(m.room_id),
        room_name: None,
    }
}

/// Every one of them has its id.
pub open spec fn identified(list: Seq<RoomFile>) -> bool {
    forall|i: int| 0 <= i < list.len() ==> (#[trigger] list[i]).id is Some
}

/// Files as a client sees them, one for one.
pub open spec fn shows_all(r: Seq<FileResponse>, list: Seq<RoomFile>) -> bool {
    &&& r.len() == list.len()
    &&& forall|i: int| 0 <= i < r.len() ==> shows(#[trigger] r[i], list[i])
}

/// Files as a client sees them, one for one.
pub fn responses(items: &Vec<RoomFile>) -> (r: Vec<FileResponse>)
    requires
        identified(items@),
    ensures
        shows_all(r@, items@),
{
    let mut out: Vec<FileResponse> = Vec::new();
    let mut i: usize = 0;
    while i < items.len()
        invariant
            i <= items@.len(),
            identified(items@),
            shows_all(out@, items@.take(i as int)),
        decreases items@.len() - i,
    {
        let shown: FileResponse = to_response(&items[i]);
        out.push(shown);
        i = i + 1;
    }
    out
}

/// One page of the files of a room.
pub fn list(page: Paginated<RoomFile>) -> (r: Paginated<FileResponse>)
    requires
        identified(page.items@),
    ensures
        same_place(r, page),
        shows_all(r.items@, page.items@),
{
    Paginated {
        items: responses(&page.items),
        total: page.total,
        page: page.page,
        per_page: page.per_page,
        total_pages: page.total_pages,
    }
}

/// A file as a client sees it among those of all rooms: with the name of its
/// room, where it has one that was found.
pub open spec fn shows_named(r: FileResponse, m: RoomFile, names: Seq<(ObjectId, String)>) -> bool {
    &&& shows(FileResponse { room_name: None, ..r }, m)
    &&& opt_view(r.room_name) == (match m.room_id {
        Some(room) => match entry(names, room) {
            Some(n) => Some(n@),
            None => None,
        },
        None => None,
    })
}

/// A file as a client sees it among those of all rooms.
pub fn named_response(m: &RoomFile, names: &Vec<(ObjectId, String)>) -> (r: FileResponse)
    requires
        m.id is Some,
    ensures
        shows_named(r, *m, names@),
{
    let mut r: FileResponse = to_response(m);
    let ghost was = r;
    let name: Option<String> = match m.room_id {
        Some(room) => match find_entry(names, room) {
            Some(n) => Some(n.clone()),
            None => None,
        },
        None => None,
    };
    r.room_name = name;
    proof {
        assert(FileResponse { room_name: None, ..r } == was);
    }
    r
}

/// The files of all rooms, one for one.
pub open spec fn shows_named_all(r: Seq<FileResponse>, list: Seq<RoomFile>, names: Seq<(ObjectId, String)>) -> bool {
    &&& r.len() == list.len()
    &&& forall|i: int| 0 <= i < r.len() ==> shows_named(#[trigger] r[i], list[i], names)
}

/// The files of all rooms, one for one.
pub fn named_responses(items: &Vec<RoomFile>, names: &Vec<(ObjectId, String)>) -> (r: Vec<FileResponse>)
    requires
        identified(items@),
    ensures
        shows_named_all(r@, items@, names@),
{
    let mut out: Vec<FileResponse> = Vec::new();
    let mut i: usize = 0;
    while i < items.len()
        invariant
            i <= items@.len(),
            identified(items@),
            shows_named_all(out@, items@.take(i as int), names@),
        decreases items@.len() - i,
    {
        let shown: FileResponse = named_response(&items[i], names);
        out.push(shown);
        i = i + 1;
    }
    out
}

/// One page of the files of all rooms of a tenant.
pub fn list_tenant_files(page: Paginated<RoomFile>, names: &Vec<(ObjectId, String)>) -> (r: Paginated<FileResponse>)
    requires
        identified(page.items@),
    ensures
        same_place(r, page),
        shows_named_all(r.items@, page.items@, names@),
{
    Paginated {
        items: named_responses(&page.items, names),
        total: page.total,
        page: page.page,
        per_page: page.per_page,
        total_pages: page.total_pages,
    }
}

/// A room that one of the files is in.
pub open spec fn in_some_room(files: Seq<RoomFile>, room: ObjectId) -> bool {
    exists|k: int| 0 <= k < files.len() && (#[trigger] files[k]).room_id == Some(room)
}

/// The rooms that files are in, once each, whose names are to be looked up.
pub fn rooms_of(files: &Vec<RoomFile>) -> (r: Vec<ObjectId>)
    ensures
        r@.no_duplicates(),
        forall|o: ObjectId| #[trigger] r@.contains(o) <==> in_some_room(files@, o),
{
    let mut out: Vec<ObjectId> = Vec::new();
    let mut i: usize = 0;
    while i < files.len()
        invariant
            i <= files@.len(),
            out@.no_duplicates(),
            forall|o: ObjectId| #[trigger]
                out@.contains(o) <==> in_some_room(files@.take(i as int), o),
        decreases files@.len() - i,
    {
        let ghost was = out@;
        let ghost seen = files@.take(i as int);
        let ghost now = files@.take(i + 1);
        proof {
            assert forall|o: ObjectId|
                #![trigger in_some_room(now, o)]
                in_some_room(now, o) <==> (in_some_room(seen, o) || files@[i as int].room_id
                    == Some(o)) by {
                if in_some_room(seen, o) {
                    let k = choose|k: int|
                        0 <= k < seen.len() && (#[trigger] seen[k]).room_id == Some(o);
                    assert(now[k].room_id == Some(o));
                }
                if in_some_room(now, o) {
                    let k = choose|k: int|
                        0 <= k < now.len() && (#[trigger] now[k]).room_id == Some(o);
                    if k < i {
                        assert(seen[k].room_id == Some(o));
                    }
                }
                assert(now[i as int] == files@[i as int]);
            }
        }
        match files[i].room_id {
            Some(room) => {
                if !holds(&out, room) {
                    out.push(room);
                    proof {
                        assert forall|o: ObjectId| #[trigger]
                            out@.contains(o) <==> was.contains(o) || o == room by {
                            assert(out@[was.len() as int] == room);
                            if was.contains(o) {
                                let k = choose|k: int| 0 <= k < was.len() && was[k] == o;
                                assert(out@[k] == o);
                            }
                        }
                    }
                }
            },
            None => {},
        }
        i = i + 1;
    }
    proof {
        assert(files@.take(files@.len() as int) =~= files@);
    }
    out
}

/// An uploaded file, while it is only known what came with it.
#[derive(Debug)]
#[allow(missing_docs)]
pub struct Upload {
    pub filename: String,
    pub content_type: String,
    pub bytes: Vec<u8>,
}

/// What came with a form so far.
#[derive(Debug)]
#[allow(missing_docs)]
pub struct Form {
    pub file: Option<Upload>,
    pub room_id: Option<String>,
}

/// One field of a form.
#[derive(Debug)]
#[allow(missing_docs)]
pub struct FormField {
    pub name: Option<String>,
    pub file_name: Option<String>,
    pub content_type: Option<String>,
}

/// What is to be done with a field of a form.
#[derive(Debug, Clone, Copy, PartialEq, Eq, Structural)]
pub enum FieldUse {
    /// Its bytes are the file.
    File,
    /// Its text is the id of the room.
    RoomId,
    /// Nothing.
    Skip,
}

/// What a field of this name is for; a form for a known room has no use for
/// another room.
pub open spec fn use_of(name: Option<Seq<char>>, room_known: bool) -> FieldUse {
    match name {
        Some(n) => if n == "file"@ {
            FieldUse::File
        } else if n == "room_id"@ && !room_known {
            FieldUse::RoomId
        } else {
            FieldUse::Skip
        },
        None => FieldUse::Skip,
    }
}

impl FormField {
    /// What the field is for.
    pub fn purpose(&self, room_known: bool) -> (r: FieldUse)
        ensures
            r == use_of(opt_view(self.name), room_known),
    {
        match &self.name {
            Some(n) => if crate::text::same(n.as_str(), "file") {
                FieldUse::File
            } else if crate::text::same(n.as_str(), "room_id") && !room_known {
                FieldUse::RoomId
            } else {
                FieldUse::Skip
            },
            None => FieldUse::Skip,
        }
    }
}

impl Form {
    /// A form of which nothing has come yet.
    pub fn new() -> (r: Form)
        ensures
            r.file is None,
            r.room_id is None,
    {
        Form { file: None, room_id: None }
    }

    /// Takes the file of the form; a later one takes the place of an earlier.
    pub fn with_file(self, field: FormField, bytes: Vec<u8>) -> (r: Form)
        ensures
            r.room_id == self.room_id,
            r.file matches Some(u) && {
                &&& u.filename@ == (match field.file_name {
                    Some(n) => n@,
                    None => "unnamed"@,
                })
                &&& u.content_type@ == (match field.content_type {
                    Some(t) => t@,
                    None => "application/octet-stream"@,
                })
                &&& u.bytes == bytes
            },
    {
        let filename: String = match field.file_name {
            Some(n) => n,
            None => "unnamed".to_owned(),
        };
        let content_type: String = match field.content_type {
            Some(t) => t,
            None => "application/octet-stream".to_owned(),
        };
        Form { file: Some(Upload { filename, content_type, bytes }), room_id: self.room_id }
    }

    /// Takes the room of the form; a later one takes the place of an earlier.
    pub fn with_room(self, text: String) -> (r: Form)
        ensures
            r.file == self.file,
            r.room_id == Some(text),
    {
        Form { file: self.file, room_id: Some(text) }
    }

    /// The file of a form for a known room.
    pub fn upload_room(self) -> (r: Result<Upload, ApiError>)
        ensures
            match self.file {
                Some(u) => r == Ok::<Upload, ApiError>(u),
                None => r matches Err(e) && e@ == no_file(),
            },
    {
        match self.file {
            Some(u) => Ok(u),
            None => Err(bad_request("Missing 'file' field")),
        }
    }

    /// The file and the room of a form.
    pub fn upload(self) -> (r: Result<(Upload, ObjectId), ApiError>)
        ensures
            match r {
                Ok((u, room)) => self.file == Some(u) && (self.room_id matches Some(t) && id_in(
                    t@,
                    "room_id"@,
                ) == Ok::<_, (ErrorKind, Seq<char>)>(room)),
                Err(e) => {
                    ||| self.file is None && e@ == no_file()
                    ||| self.file is Some && self.room_id is None && e@ == no_room()
                    ||| self.file is Some && (self.room_id matches Some(t) && id_in(
                        t@,
                        "room_id"@,
                    ) == Err::<ObjectId, _>(e@))
                },
            },
    {
        match self.file {
            Some(u) => match self.room_id {
                Some(t) => {
                    let room: ObjectId = parse_id(t.as_str(), "room_id")?;
                    Ok((u, room))
                },
                None => Err(bad_request("Missing 'room_id' field")),
            },
            None => Err(bad_request("Missing 'file' field")),
        }
    }
}

/// The answer to a form without a file.
pub open spec fn no_file() -> (ErrorKind, Seq<char>) {
    (ErrorKind::BadRequest, "Missing 'file' field"@)
}

/// The answer to a form that names no room.
pub open spec fn no_room() -> (ErrorKind, Seq<char>) {
    (ErrorKind::BadRequest, "Missing 'room_id' field"@)
}

/// The directory of the uploads, where the environment names none.
pub const DEFAULT_UPLOAD_DIR: &'static str = "/tmp/roomler2-uploads";

/// The directory of the uploads.
pub fn upload_dir(from_environment: Option<String>) -> (r: String)
    ensures
        r@ == (match from_environment {
            Some(d) => d@,
            None => DEFAULT_UPLOAD_DIR@,
        }),
{
    match from_environment {
        Some(d) => d,
        None => DEFAULT_UPLOAD_DIR.to_owned(),
    }
}

/// A file to store.
#[derive(Debug)]
#[allow(missing_docs)]
pub struct NewFile {
    pub tenant_id: ObjectId,
    pub room_id: ObjectId,
    pub uploaded_by: ObjectId,
    pub filename: String,
    pub content_type: String,
    pub size: u64,
    pub storage_provider: &'static str,
    pub storage_key: String,
}

/// Where the file that goes by `unique` is stored below the uploads.
pub open spec fn storage_key(tenant: ObjectId, room: ObjectId, unique: Seq<char>) -> Seq<char> {
    oid_hex(tenant) + "/room/"@ + oid_hex(room) + "/"@ + unique
}

/// The file to store for an upload, under a key that ends in `unique`.
pub fn upload_as(
    tenant: ObjectId,
    room: ObjectId,
    user: ObjectId,
    upload: &Upload,
    unique: &str,
) -> (r: NewFile)
    ensures
        r.tenant_id == tenant,
        r.room_id == room,
        r.uploaded_by == user,
        r.filename@ == upload.filename@,
        r.content_type@ == upload.content_type@,
        r.size == upload.bytes@.len(),
        r.storage_provider@ == "local"@,
        r.storage_key@ == storage_key(tenant, room, unique@),
{
    let t: String = tenant.to_hex();
    let m: String = room.to_hex();
    let dir: String = crate::text::cat3(t.as_str(), "/room/", m.as_str());
    NewFile {
        tenant_id: tenant,
        room_id: room,
        uploaded_by: user,
        filename: upload.filename.clone(),
        content_type: upload.content_type.clone(),
        size: upload.bytes.len() as u64,
        storage_provider: "local",
        storage_key: crate::text::cat3(dir.as_str(), "/", unique),
    }
}

/// The file to store for an upload, under a key that nothing else has but by
/// the worst of chances.
pub fn do_upload(tenant: ObjectId, room: ObjectId, user: ObjectId, upload: &Upload) -> (r: NewFile)
    ensures
        r.tenant_id == tenant,
        r.room_id == room,
        r.uploaded_by == user,
        r.filename@ == upload.filename@,
        r.content_type@ == upload.content_type@,
        r.size == upload.bytes@.len(),
        r.storage_provider@ == "local"@,
        exists|u: Seq<char>| #[trigger]
            is_uuid(u) && r.storage_key@ == storage_key(tenant, room, u),
{
    let unique: String = uuid_v4();
    upload_as(tenant, room, user, upload, unique.as_str())
}

/// Files of different tenants, of different rooms or with different endings
/// are stored in different places.
pub proof fn files_do_not_meet(
    tenant: ObjectId,
    room: ObjectId,
    unique: Seq<char>,
    other_tenant: ObjectId,
    other_room: ObjectId,
    other_unique: Seq<char>,
)
    requires
        storage_key(tenant, room, unique) == storage_key(other_tenant, other_room, other_unique),
    ensures
        tenant == other_tenant,
        room == other_room,
        unique == other_unique,
{
    let k = storage_key(tenant, room, unique);
    reveal_strlit("/room/");
    reveal_strlit("/");
    hex_round_trip(tenant);
    hex_round_trip(room);
    hex_round_trip(other_tenant);
    hex_round_trip(other_room);
    assert(oid_hex(tenant) =~= k.subrange(0, 24));
    assert(oid_hex(other_tenant) =~= k.subrange(0, 24));
    assert(oid_hex(room) =~= k.subrange(30, 54));
    assert(oid_hex(other_room) =~= k.subrange(30, 54));
    assert(unique =~= k.skip(55));
    assert(other_unique =~= k.skip(55));
    hex_is_unique(tenant, other_tenant);
    hex_is_unique(room, other_room);
}

/// Where clients get a file from.
pub open spec fn download_url(tenant: ObjectId, file: ObjectId) -> Seq<char> {
    "/api/tenant/"@ + oid_hex(tenant) + "/file/"@ + oid_hex(file) + "/download"@
}

/// The stored file as its uploader sees it, with the address that clients get
/// it from.
pub fn uploaded(tenant: ObjectId, file: &RoomFile) -> (r: FileResponse)
    requires
        file.id is Some,
    ensures
        file.id matches Some(id) && r.url@ == download_url(tenant, id),
        forall|url: String| url@ == file.url@ ==> #[trigger] shows(FileResponse { url, ..r }, *file),
{
    let id: ObjectId = file.id.unwrap();
    let t: String = tenant.to_hex();
    let f: String = id.to_hex();
    let front: String = crate::text::cat3("/api/tenant/", t.as_str(), "/file/");
    let url: String = crate::text::cat3(front.as_str(), f.as_str(), "/download");
    let mut r: FileResponse = to_response(file);
    r.url = url;
    r
}

/// The headers under which a file is sent.
pub fn download(file: &RoomFile) -> (r: (String, String))
    ensures
        r.0@ == file.content_type@,
        r.1@ == saved_as(file.filename@),
{
    (
        file.content_type.clone(),
        crate::text::cat3("attachment; filename=\"", file.filename.as_str(), "\""),
    )
}

/// What an upload can fail at.
#[derive(Debug, Clone, Copy, PartialEq, Eq, Structural)]
#[allow(missing_docs)]
pub enum UploadStep {
    NextField,
    ReadFile,
    ReadText,
    MakeUploadDir,
    MakeDirs,
    Write,
}

/// What the error of a failed step begins with, and its kind.
pub open spec fn upload_blame(step: UploadStep) -> (ErrorKind, Seq<char>) {
    match step {
        UploadStep::NextField => (ErrorKind::BadRequest, "Multipart error: "@),
        UploadStep::ReadFile => (ErrorKind::BadRequest, "Failed to read file: "@),
        UploadStep::ReadText => (ErrorKind::BadRequest, "Failed to read field: "@),
        UploadStep::MakeUploadDir => (ErrorKind::Internal, "Failed to create upload dir: "@),
        UploadStep::MakeDirs => (ErrorKind::Internal, "Failed to create dirs: "@),
        UploadStep::Write => (ErrorKind::Internal, "Failed to write file: "@),
    }
}

/// The answer to an upload that failed.
pub fn upload_failed(step: UploadStep, cause: &str) -> (r: ApiError)
    ensures
        r@ == (upload_blame(step).0, upload_blame(step).1 + cause@),
{
    match step {
        UploadStep::NextField => ApiError::BadRequest(
            crate::text::cat2("Multipart error: ", cause),
        ),
        UploadStep::ReadFile => ApiError::BadRequest(
            crate::text::cat2("Failed to read file: ", cause),
        ),
        UploadStep::ReadText => ApiError::BadRequest(
            crate::text::cat2("Failed to read field: ", cause),
        ),
        UploadStep::MakeUploadDir => internal("Failed to create upload dir: ", cause),
        UploadStep::MakeDirs => internal("Failed to create dirs: ", cause),
        UploadStep::Write => internal("Failed to write file: ", cause),
    }
}

/// The answer to the deletion of a file.
pub fn delete(outcome: Result<(), DaoError>) -> (r: Result<Body, ApiError>)
    ensures
        match outcome {
            Ok(()) => r matches Ok(b) && b@ == said("deleted"@, true),
            Err(e) => r matches Err(a) && a@ == dao_answer(e),
        },
{
    done("deleted", outcome)
}

/// What a client sees of a file is its own.
pub proof fn files_show_their_own(r: FileResponse, m: RoomFile)
    requires
        shows(r, m),
    ensures
        crate::oid::oid_parsed(r.id@) == m.id,
        r.filename@ == m.filename@,
        r.content_type@ == m.content_type@,
        r.size == m.size,
        r.url@ == m.url@,
        crate::oid::oid_parsed(r.uploaded_by@) == Some(m.uploaded_by),
        r.created_at@ == time_text(m.created_at),
        r.room_id is Some <==> m.room_id is Some,
        r.room_id matches Some(s) ==> crate::oid::oid_parsed(s@) == m.room_id,
        r.room_name is None,
{
    crate::oid::hex_round_trip(m.id.unwrap());
    crate::oid::hex_round_trip(m.uploaded_by);
    crate::oid::hex_round_trip(m.room_id.unwrap());
}

/// Of a list everything is shown, one for one and in its order.
pub proof fn files_are_shown_in_order(r: Seq<FileResponse>, list: Seq<RoomFile>, i: int)
    requires
        shows_all(r, list),
    ensures
        r.len() == list.len(),
        0 <= i < r.len() ==> shows(r[i], list[i]),
        0 <= i < r.len() ==> crate::oid::oid_parsed(r[i].id@) == list[i].id,
{
    crate::oid::hex_round_trip(list[i].id.unwrap());
    if 0 <= i < r.len() {
        assert(shows(r[i], list[i]));
    }
}

/// Of a list everything is shown, one for one and in its order.
pub proof fn named_files_are_shown_in_order(
    r: Seq<FileResponse>,
    list: Seq<RoomFile>,
    names: Seq<(ObjectId, String)>,
    i: int,
)
    requires
        shows_named_all(r, list, names),
    ensures
        r.len() == list.len(),
        0 <= i < r.len() ==> shows_named(r[i], list[i], names),
        0 <= i < r.len() ==> crate::oid::oid_parsed(r[i].id@) == list[i].id,
{
    crate::oid::hex_round_trip(list[i].id.unwrap());
    if 0 <= i < r.len() {
        assert(shows_named(r[i], list[i], names));
    }
}

} // verus!
