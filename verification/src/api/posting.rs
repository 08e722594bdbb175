//! Posting a message: from the request to the last notification.
//!
//! Each stage holds what is known so far and says what is to be looked up or
//! sent next; its methods take what came of that and give the next stage.
use vstd::prelude::*;
use crate::api::error::{ApiError, DaoError, ErrorKind, dao_answer, dao_error};
use crate::api::message::{
    CreateMessageRequest,
    MentionRequest,
    MessageResponse,
    RoomMessage,
    shows,
    to_response,
};
use crate::api::scope::{
    Admitted,
    all_but,
    but,
    ids_in,
    leaving_out_spares_the_rest,
    opt_id_in,
    parse_ids,
    parse_opt_id,
};
use crate::api::wire::{Broadcast, display_name, name_or_id};
use crate::models::file::File;
use crate::models::message::{Mentions, MessageAttachment};
use crate::oid::ObjectId;
use crate::text::{opt_view, views};

verus! {

/// A message to store.
#[derive(Debug)]
#[allow(missing_docs)]
pub struct NewMessage {
    pub tenant_id: ObjectId,
    pub room_id: ObjectId,
    pub author_id: ObjectId,
    pub content: String,
    pub thread_id: Option<ObjectId>,
    pub referenced_message_id: Option<ObjectId>,
    pub nonce: Option<String>,
    pub mentions: Option<Mentions>,
    pub attachments: Vec<MessageAttachment>,
}

/// A message whose attached files are being looked up.
#[derive(Debug)]
pub struct FileSearch {
    /// The message, with the files found so far.
    pub message: NewMessage,
    /// The files to look up.
    pub files: Vec<ObjectId>,
    /// How many of them were looked up.
    pub done: usize,
}

/// What is to be done before a message is announced.
#[derive(Debug)]
pub enum Posting {
    /// A file is to be looked up.
    Search(FileSearch),
    /// The message is to be stored.
    Store(NewMessage),
}

impl FileSearch {
    /// Some file is still to be looked up.
    pub open spec fn wf(self) -> bool {
        self.done < self.files@.len()
    }
}

impl Posting {
    /// A search has something to look for.
    pub open spec fn wf(self) -> bool {
        self matches Posting::Search(s) ==> s.wf()
    }

    /// The message as it stands.
    pub open spec fn message(self) -> NewMessage {
        match self {
            Posting::Search(s) => s.message,
            Posting::Store(m) => m,
        }
    }

    /// The files that are still to be looked up.
    pub open spec fn missing(self) -> Seq<ObjectId> {
        match self {
            Posting::Search(s) => s.files@.skip(s.done as int),
            Posting::Store(m) => seq![],
        }
    }
}

/// Whom a message mentions, for a request.
pub open spec fn mentions_of(m: Option<Mentions>, req: Option<MentionRequest>) -> bool {
    match req {
        None => m is None,
        Some(req) => m matches Some(m) && {
            &&& m.users@ == ids_in(views(req.users@))
            &&& m.roles@.len() == 0
            &&& m.channels@.len() == 0
            &&& m.everyone == req.everyone
            &&& m.here == req.here
        },
    }
}

/// The answer to a request whose thread or referenced message is no id.
pub open spec fn complaint(body: CreateMessageRequest) -> Option<(ErrorKind, Seq<char>)> {
    match opt_id_in(opt_view(body.thread_id), "thread_id"@) {
        Err(e) => Some(e),
        Ok(_) => match opt_id_in(
            opt_view(body.referenced_message_id),
            "referenced_message_id"@,
        ) {
            Err(e) => Some(e),
            Ok(_) => None,
        },
    }
}

fn mentions_from(req: &Option<MentionRequest>) -> (r: Option<Mentions>)
    ensures
        mentions_of(r, *req),
{
    match req {
        None => None,
        Some(m) => Some(
            Mentions {
                users: parse_ids(&m.users),
                roles: Vec::new(),
                channels: Vec::new(),
                everyone: m.everyone,
                here: m.here,
            },
        ),
    }
}

/// Takes up a request: its ids, whom it mentions, which files it names.
/// Mentioned users and files whose ids are no ids are passed over.
pub fn begin(asked: &Admitted<ObjectId>, body: CreateMessageRequest) -> (r: Result<
    Posting,
    ApiError,
>)
    ensures
        match r {
            Err(e) => complaint(body) == Some(e@),
            Ok(p) => {
                &&& complaint(body) is None
                &&& p.wf()
                &&& p.missing() == ids_in(views(body.attachment_ids@))
                &&& p.message().tenant_id == asked.request().tenant
                &&& p.message().room_id == asked.request().part
                &&& p.message().author_id == asked.request().user
                &&& p.message().content == body.content
                &&& opt_id_in(opt_view(body.thread_id), "thread_id"@) == Ok::<
                    _,
                    (ErrorKind, Seq<char>),
                >(p.message().thread_id)
                &&& opt_id_in(
                    opt_view(body.referenced_message_id),
                    "referenced_message_id"@,
                ) == Ok::<_, (ErrorKind, Seq<char>)>(p.message().referenced_message_id)
                &&& p.message().nonce == body.nonce
                &&& mentions_of(p.message().mentions, body.mentions)
                &&& p.message().attachments@.len() == 0
            },
        },
{
    let thread_id: Option<ObjectId> = parse_opt_id(&body.thread_id, "thread_id")?;
    let referenced: Option<ObjectId> = parse_opt_id(
        &body.referenced_message_id,
        "referenced_message_id",
    )?;
    let mentions: Option<Mentions> = mentions_from(&body.mentions);
    let files: Vec<ObjectId> = parse_ids(&body.attachment_ids);
    let message = NewMessage {
        tenant_id: asked.tenant(),
        room_id: *asked.part(),
        author_id: asked.user(),
        content: body.content,
        thread_id,
        referenced_message_id: referenced,
        nonce: body.nonce,
        mentions,
        attachments: Vec::new(),
    };
    if files.is_empty() {
        Ok(Posting::Store(message))
    } else {
        proof {
            assert(files@.skip(0) =~= files@);
        }
        Ok(Posting::Search(FileSearch { message, files, done: 0 }))
    }
}

/// What is attached for a file.
pub open spec fn attaches(a: MessageAttachment, f: File) -> bool {
    &&& f.id == Some(a.file_id)
    &&& a.filename == f.filename
    &&& a.content_type == f.content_type
    &&& a.size == f.size
    &&& a.url == f.url
    &&& opt_view(a.thumbnail_url) == (if f.thumbnails@.len() > 0 {
        Some(f.thumbnails@[0].url@)
    } else {
        None
    })
    &&& !a.is_spoiler
}

fn attachment(f: File) -> (r: MessageAttachment)
    requires
        f.id is Some,
    ensures
        attaches(r, f),
{
    let thumbnail_url: Option<String> = if f.thumbnails.len() > 0 {
        Some(f.thumbnails[0].url.clone())
    } else {
        None
    };
    MessageAttachment {
        file_id: f.id.unwrap(),
        filename: f.filename,
        content_type: f.content_type,
        size: f.size,
        url: f.url,
        thumbnail_url,
        is_spoiler: false,
    }
}

/// Two messages that differ in their attachments at most.
pub open spec fn alike_but_for_files(a: NewMessage, b: NewMessage) -> bool {
    &&& a.tenant_id == b.tenant_id
    &&& a.room_id == b.room_id
    &&& a.author_id == b.author_id
    &&& a.content == b.content
    &&& a.thread_id == b.thread_id
    &&& a.referenced_message_id == b.referenced_message_id
    &&& a.nonce == b.nonce
    &&& a.mentions == b.mentions
}

impl FileSearch {
    /// The file to look up in the tenant.
    pub fn wanted(&self) -> (r: ObjectId)
        requires
            self.wf(),
        ensures
            r == self.files@[self.done as int],
    {
        self.files[self.done]
    }

    /// Attaches the file that was found; one that was not found is passed over.
    pub fn found(self, file: Result<File, DaoError>) -> (r: Posting)
        requires
            self.wf(),
            file matches Ok(f) ==> f.id is Some,
        ensures
            r.wf(),
            r.missing() == self.files@.skip(self.done + 1),
            alike_but_for_files(r.message(), self.message),
            match file {
                Ok(f) => {
                    let list = r.message().attachments@;
                    &&& list.len() == self.message.attachments@.len() + 1
                    &&& list.drop_last() == self.message.attachments@
                    &&& attaches(list.last(), f)
                },
                Err(_) => r.message().attachments@ == self.message.attachments@,
            },
    {
        let mut message: NewMessage = self.message;
        match file {
            Ok(f) => {
                let a: MessageAttachment = attachment(f);
                message.attachments.push(a);
                proof {
                    assert(message.attachments@.drop_last() =~= self.message.attachments@);
                }
            },
            Err(_) => {},
        }
        let count: usize = self.files.len();
        let done: usize = self.done + 1;
        if done < count {
            Posting::Search(FileSearch { message, files: self.files, done })
        } else {
            proof {
                assert(self.files@.skip(done as int) =~= Seq::<ObjectId>::empty());
            }
            Posting::Store(message)
        }
    }
}

/// A stored message; the name of its author is to be looked up.
#[derive(Debug)]
pub struct Stored {
    /// What was to be stored.
    pub request: NewMessage,
    /// What was stored.
    pub message: RoomMessage,
}

/// Goes on with the message that was stored, or ends with the error.
pub fn stored(request: NewMessage, message: Result<RoomMessage, DaoError>) -> (r: Result<
    Stored,
    ApiError,
>)
    ensures
        match message {
            Ok(m) => r matches Ok(s) && s.request == request && s.message == m,
            Err(e) => r matches Err(a) && a@ == dao_answer(e),
        },
{
    match message {
        Ok(message) => Ok(Stored { request, message }),
        Err(e) => Err(dao_error(e)),
    }
}

/// An announced message; its thread and those it mentions are left to tell.
#[derive(Debug)]
pub struct Announced {
    /// What was stored.
    pub request: NewMessage,
    /// The id it was stored under.
    pub message_id: ObjectId,
    /// The name of the author.
    pub names: Vec<(ObjectId, String)>,
    /// Everyone of the room.
    pub members: Vec<ObjectId>,
}

impl Stored {
    /// Announces the message to everyone of the room but its author, who gets
    /// the event's data as the answer.
    pub fn announce(
        self,
        names: Vec<(ObjectId, String)>,
        members: Result<Vec<ObjectId>, DaoError>,
    ) -> (r: Result<(Broadcast<MessageResponse>, Announced), ApiError>)
        requires
            self.message.id is Some,
        ensures
            match members {
                Ok(members) => r matches Ok((event, rest)) && {
                    &&& event.to@ == but(members@, self.request.author_id)
                    &&& event.kind@ == "message:create"@
                    &&& shows(event.data, self.message, names@, Some(self.request.author_id))
                    &&& rest.request == self.request
                    &&& Some(rest.message_id) == self.message.id
                    &&& rest.names == names
                    &&& rest.members == members
                },
                Err(e) => r matches Err(a) && a@ == dao_answer(e),
            },
    {
        match members {
            Ok(members) => {
                let author: ObjectId = self.request.author_id;
                let message_id: ObjectId = self.message.id.unwrap();
                let event = Broadcast {
                    to: all_but(&members, author),
                    kind: "message:create",
                    data: to_response(&self.message, &names, Some(author)),
                };
                Ok((event, Announced { request: self.request, message_id, names, members }))
            },
            Err(e) => Err(dao_error(e)),
        }
    }
}

/// Those whom a message mentions are to be told.
#[derive(Debug)]
#[allow(missing_docs)]
pub struct MentionNotice {
    pub tenant_id: ObjectId,
    pub room_id: ObjectId,
    pub message_id: ObjectId,
    pub author_id: ObjectId,
    pub mentioned: Vec<ObjectId>,
    pub room_name: String,
    pub content: String,
    pub mentioner_name: String,
}

/// Who is told of a message that mentions them: everyone of the room where it
/// says so, else the users that it names; its author in no case.
pub open spec fn told(m: Mentions, members: Seq<ObjectId>, author: ObjectId) -> Seq<ObjectId> {
    if m.everyone {
        but(members, author)
    } else {
        but(m.users@, author)
    }
}

fn copy_ids(list: &Vec<ObjectId>) -> (r: Vec<ObjectId>)
    ensures
        r@ == list@,
{
    let mut out: Vec<ObjectId> = Vec::new();
    let mut i: usize = 0;
    while i < list.len()
        invariant
            i <= list@.len(),
            out@ == list@.take(i as int),
        decreases list@.len() - i,
    {
        out.push(list[i]);
        i = i + 1;
    }
    proof {
        assert(list@.take(list@.len() as int) =~= list@);
    }
    out
}

impl Announced {
    /// The message to look up whose thread has grown.
    pub fn parent(&self) -> (r: Option<ObjectId>)
        ensures
            r == self.request.thread_id,
    {
        self.request.thread_id
    }

    /// Tells everyone of the room, the author too, how the thread's root looks
    /// now.
    pub fn thread_grew(&self, parent: &RoomMessage, names: &Vec<(ObjectId, String)>) -> (r:
        Broadcast<MessageResponse>)
        requires
            parent.id is Some,
        ensures
            r.to@ == self.members@,
            r.kind@ == "message:update"@,
            shows(r.data, *parent, names@, None),
    {
        Broadcast {
            to: copy_ids(&self.members),
            kind: "message:update",
            data: to_response(parent, names, None),
        }
    }

    /// Whether the room's name is to be looked up, for those whom the message
    /// mentions.
    pub fn mentions_someone(&self) -> (r: bool)
        ensures
            r == self.request.mentions is Some,
    {
        self.request.mentions.is_some()
    }

    /// Whom to tell that the message mentions them, and what; a room that was
    /// not found has no name.
    pub fn notice(&self, room_name: Result<String, DaoError>) -> (r: Option<MentionNotice>)
        ensures
            match self.request.mentions {
                None => r is None,
                Some(m) => r matches Some(n) && {
                    &&& n.tenant_id == self.request.tenant_id
                    &&& n.room_id == self.request.room_id
                    &&& n.message_id == self.message_id
                    &&& n.author_id == self.request.author_id
                    &&& n.mentioned@ == told(m, self.members@, self.request.author_id)
                    &&& n.room_name@ == (match room_name {
                        Ok(s) => s@,
                        Err(_) => seq![],
                    })
                    &&& n.content@ == self.request.content@
                    &&& n.mentioner_name@ == name_or_id(self.names@, self.request.author_id)
                },
            },
    {
        match &self.request.mentions {
            None => None,
            Some(m) => {
                let author: ObjectId = self.request.author_id;
                let mentioned: Vec<ObjectId> = if m.everyone {
                    all_but(&self.members, author)
                } else {
                    all_but(&m.users, author)
                };
                let room_name: String = match room_name {
                    Ok(s) => s,
                    Err(_) => String::new(),
                };
                Some(
                    MentionNotice {
                        tenant_id: self.request.tenant_id,
                        room_id: self.request.room_id,
                        message_id: self.message_id,
                        author_id: author,
                        mentioned,
                        room_name,
                        content: self.request.content.clone(),
                        mentioner_name: display_name(&self.names, author),
                    },
                )
            },
        }
    }
}

/// Nobody is told that they mention themselves; and where everyone is
/// mentioned, everyone else of the room is told.
pub proof fn authors_are_not_told(
    m: Mentions,
    members: Seq<ObjectId>,
    author: ObjectId,
    other: ObjectId,
)
    ensures
        !told(m, members, author).contains(author),
        m.everyone && other != author && members.contains(other) ==> told(
            m,
            members,
            author,
        ).contains(other),
        !m.everyone && other != author ==> (told(m, members, author).contains(other)
            <==> m.users@.contains(other)),
{
    leaving_out_spares_the_rest(members, author, other);
    leaving_out_spares_the_rest(m.users@, author, other);
}

} // verus!
