//! What is said over WebSockets: what clients ask, and what they are told.
use vstd::prelude::*;
use crate::api::scope::{all_but, but};
use crate::api::wire::{Body, Broadcast, FieldView, unless_nobody};
use crate::json::{json_members, json_string, member, member_text, member_views};
use crate::oid::{ObjectId, oid_hex, oid_parsed};
use crate::text::{opt_str, opt_view};

verus! {

/// What a request to open a WebSocket carries.
#[derive(Debug)]
#[allow(missing_docs)]
pub struct WsParams {
    pub token: String,
}

/// The answer to one who may not open a WebSocket: its status and its text.
#[derive(Debug, Clone, Copy, PartialEq, Eq, Structural)]
pub enum Upgrade {
    /// The token is not accepted.
    Unauthorized,
    /// The token names no user.
    InvalidUser,
    /// The WebSocket is opened.
    Open(ObjectId),
}

/// Whether a WebSocket is opened: `subject` is whom the token names, where it
/// is accepted.
pub fn ws_upgrade(subject: Option<&str>) -> (r: Upgrade)
    ensures
        r == (match subject {
            None => Upgrade::Unauthorized,
            Some(s) => match oid_parsed(s@) {
                Some(o) => Upgrade::Open(o),
                None => Upgrade::InvalidUser,
            },
        }),
{
    match subject {
        None => Upgrade::Unauthorized,
        Some(s) => match ObjectId::parse_str(s) {
            Some(o) => Upgrade::Open(o),
            None => Upgrade::InvalidUser,
        },
    }
}

impl Upgrade {
    /// The status and the text of a refusal.
    pub fn refusal(self) -> (r: Option<(u16, &'static str)>)
        ensures
            match self {
                Upgrade::Unauthorized => r matches Some((s, t)) && s == 401 && t@
                    == "Unauthorized"@,
                Upgrade::InvalidUser => r matches Some((s, t)) && s == 400 && t@
                    == "Invalid user ID"@,
                Upgrade::Open(_) => r is None,
            },
    {
        match self {
            Upgrade::Unauthorized => Some((401, "Unauthorized")),
            Upgrade::InvalidUser => Some((400, "Invalid user ID")),
            Upgrade::Open(_) => None,
        }
    }
}

/// What one is told whose WebSocket is open.
pub fn connected(user: ObjectId) -> (r: Body)
    ensures
        r@ == seq![
            ("type"@, FieldView::Text("connected"@)),
            ("user_id"@, FieldView::Text(oid_hex(user))),
        ],
{
    Body::new().text("type", "connected").id("user_id", user)
}

/// The answer to a client that asks whether one is there.
pub fn pong() -> (r: Body)
    ensures
        r@ == seq![("type"@, FieldView::Text("pong"@))],
{
    Body::new().text("type", "pong")
}

/// One member of what a client sends: its name, its text where it is a string,
/// and its JSON.
#[derive(Debug)]
#[allow(missing_docs)]
pub struct Member {
    pub name: String,
    pub text: Option<String>,
    pub json: String,
}

/// What a client sends.
#[derive(Debug)]
pub struct Incoming {
    /// Its type; empty where it has none.
    pub kind: String,
    /// Its data, where it has any; without members where that is no object.
    pub data: Option<Vec<Member>>,
}

/// The members of data: name, text where it is a string, JSON.
pub open spec fn data_view(list: Seq<Member>) -> Seq<(Seq<char>, Option<Seq<char>>, Seq<char>)> {
    list.map_values(|m: Member| (m.name@, opt_view(m.text), m.json@))
}

/// The data of what a client sends.
pub open spec fn opt_data(d: Option<Vec<Member>>) -> Option<
    Seq<(Seq<char>, Option<Seq<char>>, Seq<char>)>,
> {
    match d {
        Some(list) => Some(data_view(list@)),
        None => None,
    }
}

/// The data in a JSON text.
pub open spec fn data_in(text: Seq<char>) -> Seq<(Seq<char>, Option<Seq<char>>, Seq<char>)> {
    match json_members(text) {
        Ok(list) => list.map_values(
            |m: (Seq<char>, Seq<char>)| (m.0, json_string(m.1), m.1),
        ),
        Err(_) => seq![],
    }
}

/// The type of a JSON object.
pub open spec fn kind_in(list: Seq<(Seq<char>, Seq<char>)>) -> Seq<char> {
    match member(list, "type"@) {
        Some(t) => match json_string(t) {
            Some(s) => s,
            None => seq![],
        },
        None => seq![],
    }
}

/// What a client sends, by its JSON text; nothing where it is no object.
pub open spec fn incoming_in(text: Seq<char>) -> Option<
    (Seq<char>, Option<Seq<(Seq<char>, Option<Seq<char>>, Seq<char>)>>),
> {
    match json_members(text) {
        Ok(list) => Some(
            (
                kind_in(list),
                match member(list, "data"@) {
                    Some(d) => Some(data_in(d)),
                    None => None,
                },
            ),
        ),
        Err(_) => None,
    }
}

fn data_of(text: &str) -> (r: Vec<Member>)
    ensures
        data_view(r@) == data_in(text@),
{
    let mut out: Vec<Member> = Vec::new();
    match crate::json::members(text) {
        Err(_) => {
            proof {
                assert(data_view(out@) =~= data_in(text@));
            }
            out
        },
        Ok(list) => {
            let mut i: usize = 0;
            let ghost all = data_in(text@);
            proof {
                assert(data_view(out@) =~= all.take(0));
            }
            while i < list.len()
                invariant
                    i <= list@.len(),
                    all == data_in(text@),
                    json_members(text@) == Ok::<_, Seq<char>>(member_views(list@)),
                    all.len() == list@.len(),
                    data_view(out@) == all.take(i as int),
                decreases list@.len() - i,
            {
                let ghost was = out@;
                let text: Option<String> = crate::json::string(list[i].1.as_str());
                let one = Member { name: list[i].0.clone(), text, json: list[i].1.clone() };
                proof {
                    assert(member_views(list@)[i as int] == (list@[i as int].0@, list@[i as int].1@));
                    assert((one.name@, opt_view(one.text), one.json@) == all[i as int]);
                }
                out.push(one);
                proof {
                    assert(data_view(out@) =~= data_view(was).push(all[i as int]));
                    assert(all.take(i + 1) =~= all.take(i as int).push(all[i as int]));
                }
                i = i + 1;
            }
            proof {
                assert(all.take(all.len() as int) =~= all);
            }
            out
        },
    }
}

/// Reads what a client sends; what is no JSON object is passed over.
pub fn read(text: &str) -> (r: Option<Incoming>)
    ensures
        match r {
            Some(m) => incoming_in(text@) == Some((m.kind@, opt_data(m.data))),
            None => incoming_in(text@) is None,
        },
{
    match crate::json::members(text) {
        Err(_) => None,
        Ok(list) => {
            let kind: String = match member_text(&list, "type") {
                Some(t) => match crate::json::string(t) {
                    Some(s) => s,
                    None => String::new(),
                },
                None => String::new(),
            };
            let data: Option<Vec<Member>> = match member_text(&list, "data") {
                Some(d) => Some(data_of(d)),
                None => None,
            };
            Some(Incoming { kind, data })
        },
    }
}

/// The member of data that goes by a name.
pub open spec fn at(
    data: Seq<(Seq<char>, Option<Seq<char>>, Seq<char>)>,
    name: Seq<char>,
) -> Option<(Option<Seq<char>>, Seq<char>)>
    decreases data.len(),
{
    if data.len() == 0 {
        None
    } else if data.last().0 == name {
        Some((data.last().1, data.last().2))
    } else {
        at(data.drop_last(), name)
    }
}

/// The text under a name.
pub open spec fn text_at(
    data: Seq<(Seq<char>, Option<Seq<char>>, Seq<char>)>,
    name: Seq<char>,
) -> Option<Seq<char>> {
    match at(data, name) {
        Some((t, _)) => t,
        None => None,
    }
}

/// The JSON under a name.
pub open spec fn json_at(
    data: Seq<(Seq<char>, Option<Seq<char>>, Seq<char>)>,
    name: Seq<char>,
) -> Option<Seq<char>> {
    match at(data, name) {
        Some((_, j)) => Some(j),
        None => None,
    }
}

/// The text under a name, of data that may not be there.
pub open spec fn opt_text_at(
    data: Option<Seq<(Seq<char>, Option<Seq<char>>, Seq<char>)>>,
    name: Seq<char>,
) -> Option<Seq<char>> {
    match data {
        Some(d) => text_at(d, name),
        None => None,
    }
}

fn find<'a>(data: &'a Vec<Member>, name: &str) -> (r: Option<&'a Member>)
    ensures
        match r {
            Some(m) => at(data_view(data@), name@) == Some((opt_view(m.text), m.json@)),
            None => at(data_view(data@), name@) is None,
        },
{
    let mut i: usize = data.len();
    let ghost all = data_view(data@);
    proof {
        assert(all.take(all.len() as int) =~= all);
    }
    while i > 0
        invariant
            i <= data@.len(),
            all == data_view(data@),
            at(all, name@) == at(all.take(i as int), name@),
        decreases i,
    {
        proof {
            assert(all.take(i as int).last() == all[i - 1]);
            assert(all.take(i as int).drop_last() =~= all.take(i - 1));
        }
        if crate::text::same(data[i - 1].name.as_str(), name) {
            return Some(&data[i - 1]);
        }
        i = i - 1;
    }
    None
}

fn find_text<'a>(data: &'a Vec<Member>, name: &str) -> (r: Option<&'a str>)
    ensures
        opt_str(r) == text_at(data_view(data@), name@),
{
    match find(data, name) {
        Some(m) => match &m.text {
            Some(t) => Some(t.as_str()),
            None => None,
        },
        None => None,
    }
}

fn find_json(data: &Vec<Member>, name: &str) -> (r: Option<String>)
    ensures
        opt_view(r) == json_at(data_view(data@), name@),
{
    match find(data, name) {
        Some(m) => Some(m.json.clone()),
        None => None,
    }
}

fn find_opt_text<'a>(data: &'a Option<Vec<Member>>, name: &str) -> (r: Option<&'a str>)
    ensures
        opt_str(r) == opt_text_at(opt_data(*data), name@),
{
    match data {
        Some(list) => find_text(list, name),
        None => None,
    }
}

/// What to do about what a client sends.
#[derive(Debug)]
pub enum Request {
    /// Nothing.
    Nothing,
    /// Answer that the server is there.
    Pong,
    /// Tell the others of a channel who types, or no longer does.
    Typing(TypingNotice),
    /// Tell everyone who is connected what the user is up to.
    Presence(String),
    /// Tell the user what is wrong with the request.
    MediaError(&'static str),
    /// Put the user into a conference.
    Join(ObjectId),
    /// Connect a transport, once its parameters are read.
    Connect(ConnectAsk),
    /// Make a producer, once its parameters are read.
    Produce(ProduceAsk),
    /// Make a consumer, once its parameters are read.
    Consume(ConsumeAsk),
    /// Close a producer of a conference, once its id is read.
    CloseProducer(ObjectId, String),
    /// Take the user out of a conference.
    Leave(ObjectId),
}

/// Someone types in a channel, or no longer does.
#[derive(Debug)]
#[allow(missing_docs)]
pub struct TypingNotice {
    pub stopped: bool,
    pub channel: ObjectId,
    pub channel_id: String,
}

/// A transport to connect; its parameters as JSON.
#[derive(Debug)]
#[allow(missing_docs)]
pub struct ConnectAsk {
    pub conference_id: String,
    pub transport_id: String,
    pub dtls_parameters: Option<String>,
}

/// A producer to make; its kind and its parameters as JSON.
#[derive(Debug)]
#[allow(missing_docs)]
pub struct ProduceAsk {
    pub conference_id: String,
    pub kind: Option<String>,
    pub rtp_parameters: Option<String>,
}

/// A consumer to make; the capabilities as JSON.
#[derive(Debug)]
#[allow(missing_docs)]
pub struct ConsumeAsk {
    pub conference_id: String,
    pub producer_id: String,
    pub rtp_capabilities: Option<String>,
}

/// What a request comes to.
pub enum RequestView {
    /// Nothing.
    Nothing,
    /// `Pong`.
    Pong,
    /// `Typing`: whether it stopped, the channel, the channel's text.
    Typing(bool, ObjectId, Seq<char>),
    /// `Presence`.
    Presence(Seq<char>),
    /// `MediaError`.
    MediaError(Seq<char>),
    /// `Join`.
    Join(ObjectId),
    /// `Connect`: conference, transport, parameters.
    Connect(Seq<char>, Seq<char>, Option<Seq<char>>),
    /// `Produce`: conference, kind, parameters.
    Produce(Seq<char>, Option<Seq<char>>, Option<Seq<char>>),
    /// `Consume`: conference, producer, capabilities.
    Consume(Seq<char>, Seq<char>, Option<Seq<char>>),
    /// `CloseProducer`.
    CloseProducer(ObjectId, Seq<char>),
    /// `Leave`.
    Leave(ObjectId),
}

impl View for Request {
    type V = RequestView;

    open spec fn view(&self) -> RequestView {
        match *self {
            Request::Nothing => RequestView::Nothing,
            Request::Pong => RequestView::Pong,
            Request::Typing(t) => RequestView::Typing(t.stopped, t.channel, t.channel_id@),
            Request::Presence(p) => RequestView::Presence(p@),
            Request::MediaError(m) => RequestView::MediaError(m@),
            Request::Join(c) => RequestView::Join(c),
            Request::Connect(a) => RequestView::Connect(
                a.conference_id@,
                a.transport_id@,
                opt_view(a.dtls_parameters),
            ),
            Request::Produce(a) => RequestView::Produce(
                a.conference_id@,
                opt_view(a.kind),
                opt_view(a.rtp_parameters),
            ),
            Request::Consume(a) => RequestView::Consume(
                a.conference_id@,
                a.producer_id@,
                opt_view(a.rtp_capabilities),
            ),
            Request::CloseProducer(c, p) => RequestView::CloseProducer(c, p@),
            Request::Leave(c) => RequestView::Leave(c),
        }
    }
}

/// Who types where; nothing without a channel.
pub open spec fn typing(
    stopped: bool,
    data: Option<Seq<(Seq<char>, Option<Seq<char>>, Seq<char>)>>,
) -> RequestView {
    match opt_text_at(data, "channel_id"@) {
        Some(c) => match oid_parsed(c) {
            Some(o) => RequestView::Typing(stopped, o, c),
            None => RequestView::Nothing,
        },
        None => RequestView::Nothing,
    }
}

/// Which conference is joined, or what is wrong.
pub open spec fn join(
    data: Option<Seq<(Seq<char>, Option<Seq<char>>, Seq<char>)>>,
) -> RequestView {
    match opt_text_at(data, "conference_id"@) {
        Some(c) => match oid_parsed(c) {
            Some(o) => RequestView::Join(o),
            None => RequestView::MediaError("Invalid conference_id"@),
        },
        None => RequestView::MediaError("Missing conference_id"@),
    }
}

/// Which transport is connected, or what is missing.
pub open spec fn connect(
    data: Option<Seq<(Seq<char>, Option<Seq<char>>, Seq<char>)>>,
) -> RequestView {
    match data {
        None => RequestView::MediaError("Missing data"@),
        Some(d) => match text_at(d, "conference_id"@) {
            None => RequestView::MediaError("Missing conference_id"@),
            Some(c) => match text_at(d, "transport_id"@) {
                None => RequestView::MediaError("Missing transport_id"@),
                Some(t) => RequestView::Connect(c, t, json_at(d, "dtls_parameters"@)),
            },
        },
    }
}

/// Which producer is made, or what is missing.
pub open spec fn produce(
    data: Option<Seq<(Seq<char>, Option<Seq<char>>, Seq<char>)>>,
) -> RequestView {
    match data {
        None => RequestView::MediaError("Missing data"@),
        Some(d) => match text_at(d, "conference_id"@) {
            None => RequestView::MediaError("Missing conference_id"@),
            Some(c) => RequestView::Produce(c, json_at(d, "kind"@), json_at(d, "rtp_parameters"@)),
        },
    }
}

/// Which consumer is made, or what is missing.
pub open spec fn consume(
    data: Option<Seq<(Seq<char>, Option<Seq<char>>, Seq<char>)>>,
) -> RequestView {
    match data {
        None => RequestView::MediaError("Missing data"@),
        Some(d) => match text_at(d, "conference_id"@) {
            None => RequestView::MediaError("Missing conference_id"@),
            Some(c) => match text_at(d, "producer_id"@) {
                None => RequestView::MediaError("Missing producer_id"@),
                Some(p) => RequestView::Consume(c, p, json_at(d, "rtp_capabilities"@)),
            },
        },
    }
}

/// Which producer is closed; nothing where one of the two is missing or the
/// conference is none.
pub open spec fn close(
    data: Option<Seq<(Seq<char>, Option<Seq<char>>, Seq<char>)>>,
) -> RequestView {
    match (opt_text_at(data, "conference_id"@), opt_text_at(data, "producer_id"@)) {
        (Some(c), Some(p)) => match oid_parsed(c) {
            Some(o) => RequestView::CloseProducer(o, p),
            None => RequestView::Nothing,
        },
        _ => RequestView::Nothing,
    }
}

/// Which conference is left; nothing where it is missing or none.
pub open spec fn leave(
    data: Option<Seq<(Seq<char>, Option<Seq<char>>, Seq<char>)>>,
) -> RequestView {
    match opt_text_at(data, "conference_id"@) {
        Some(c) => match oid_parsed(c) {
            Some(o) => RequestView::Leave(o),
            None => RequestView::Nothing,
        },
        None => RequestView::Nothing,
    }
}

/// What to do about what a client sends, by its type.
pub open spec fn request(
    kind: Seq<char>,
    data: Option<Seq<(Seq<char>, Option<Seq<char>>, Seq<char>)>>,
) -> RequestView {
    if kind == "ping"@ {
        RequestView::Pong
    } else if kind == "typing:start"@ {
        typing(false, data)
    } else if kind == "typing:stop"@ {
        typing(true, data)
    } else if kind == "presence:update"@ {
        match opt_text_at(data, "presence"@) {
            Some(p) => RequestView::Presence(p),
            None => RequestView::Nothing,
        }
    } else if kind == "media:join"@ {
        join(data)
    } else if kind == "media:connect_transport"@ {
        connect(data)
    } else if kind == "media:produce"@ {
        produce(data)
    } else if kind == "media:consume"@ {
        consume(data)
    } else if kind == "media:producer_close"@ {
        close(data)
    } else if kind == "media:leave"@ {
        leave(data)
    } else {
        RequestView::Nothing
    }
}

fn handle_typing(stopped: bool, data: &Option<Vec<Member>>) -> (r: Request)
    ensures
        r@ == typing(stopped, opt_data(*data)),
{
    match find_opt_text(data, "channel_id") {
        Some(c) => match ObjectId::parse_str(c) {
            Some(o) => Request::Typing(
                TypingNotice { stopped, channel: o, channel_id: c.to_owned() },
            ),
            None => Request::Nothing,
        },
        None => Request::Nothing,
    }
}

/// Which conference is joined, or what is wrong.
pub fn handle_media_join(data: &Option<Vec<Member>>) -> (r: Request)
    ensures
        r@ == join(opt_data(*data)),
{
    match find_opt_text(data, "conference_id") {
        Some(c) => match ObjectId::parse_str(c) {
            Some(o) => Request::Join(o),
            None => Request::MediaError("Invalid conference_id"),
        },
        None => Request::MediaError("Missing conference_id"),
    }
}

/// Which transport is connected, or what is missing.
pub fn handle_media_connect_transport(data: &Option<Vec<Member>>) -> (r: Request)
    ensures
        r@ == connect(opt_data(*data)),
{
    match data {
        None => Request::MediaError("Missing data"),
        Some(d) => match find_text(d, "conference_id") {
            None => Request::MediaError("Missing conference_id"),
            Some(c) => match find_text(d, "transport_id") {
                None => Request::MediaError("Missing transport_id"),
                Some(t) => Request::Connect(
                    ConnectAsk {
                        conference_id: c.to_owned(),
                        transport_id: t.to_owned(),
                        dtls_parameters: find_json(d, "dtls_parameters"),
                    },
                ),
            },
        },
    }
}

/// Which producer is made, or what is missing.
pub fn handle_media_produce(data: &Option<Vec<Member>>) -> (r: Request)
    ensures
        r@ == produce(opt_data(*data)),
{
    match data {
        None => Request::MediaError("Missing data"),
        Some(d) => match find_text(d, "conference_id") {
            None => Request::MediaError("Missing conference_id"),
            Some(c) => Request::Produce(
                ProduceAsk {
                    conference_id: c.to_owned(),
                    kind: find_json(d, "kind"),
                    rtp_parameters: find_json(d, "rtp_parameters"),
                },
            ),
        },
    }
}

/// Which consumer is made, or what is missing.
pub fn handle_media_consume(data: &Option<Vec<Member>>) -> (r: Request)
    ensures
        r@ == consume(opt_data(*data)),
{
    match data {
        None => Request::MediaError("Missing data"),
        Some(d) => match find_text(d, "conference_id") {
            None => Request::MediaError("Missing conference_id"),
            Some(c) => match find_text(d, "producer_id") {
                None => Request::MediaError("Missing producer_id"),
                Some(p) => Request::Consume(
                    ConsumeAsk {
                        conference_id: c.to_owned(),
                        producer_id: p.to_owned(),
                        rtp_capabilities: find_json(d, "rtp_capabilities"),
                    },
                ),
            },
        },
    }
}

/// Which producer is closed.
pub fn handle_media_producer_close(data: &Option<Vec<Member>>) -> (r: Request)
    ensures
        r@ == close(opt_data(*data)),
{
    match find_opt_text(data, "conference_id") {
        None => Request::Nothing,
        Some(c) => match find_opt_text(data, "producer_id") {
            None => Request::Nothing,
            Some(p) => match ObjectId::parse_str(c) {
                Some(o) => Request::CloseProducer(o, p.to_owned()),
                None => Request::Nothing,
            },
        },
    }
}

/// Which conference is left.
pub fn handle_media_leave(data: &Option<Vec<Member>>) -> (r: Request)
    ensures
        r@ == leave(opt_data(*data)),
{
    match find_opt_text(data, "conference_id") {
        Some(c) => match ObjectId::parse_str(c) {
            Some(o) => Request::Leave(o),
            None => Request::Nothing,
        },
        None => Request::Nothing,
    }
}

/// What to do about what a client sends.
pub fn handle_incoming(m: &Incoming) -> (r: Request)
    ensures
        r@ == request(m.kind@, opt_data(m.data)),
        r matches Request::Typing(n) ==> m.kind@ == typing_event(n.stopped),
{
    let kind: &str = m.kind.as_str();
    if crate::text::same(kind, "ping") {
        Request::Pong
    } else if crate::text::same(kind, "typing:start") {
        handle_typing(false, &m.data)
    } else if crate::text::same(kind, "typing:stop") {
        handle_typing(true, &m.data)
    } else if crate::text::same(kind, "presence:update") {
        match find_opt_text(&m.data, "presence") {
            Some(p) => Request::Presence(p.to_owned()),
            None => Request::Nothing,
        }
    } else if crate::text::same(kind, "media:join") {
        handle_media_join(&m.data)
    } else if crate::text::same(kind, "media:connect_transport") {
        handle_media_connect_transport(&m.data)
    } else if crate::text::same(kind, "media:produce") {
        handle_media_produce(&m.data)
    } else if crate::text::same(kind, "media:consume") {
        handle_media_consume(&m.data)
    } else if crate::text::same(kind, "media:producer_close") {
        handle_media_producer_close(&m.data)
    } else if crate::text::same(kind, "media:leave") {
        handle_media_leave(&m.data)
    } else {
        Request::Nothing
    }
}

/// What to do about a text that a client sends; what is no JSON object comes to
/// nothing.
pub fn handle_client_message(text: &str) -> (r: Request)
    ensures
        r@ == (match incoming_in(text@) {
            Some((kind, data)) => request(kind, data),
            None => RequestView::Nothing,
        }),
{
    match read(text) {
        Some(m) => handle_incoming(&m),
        None => Request::Nothing,
    }
}

/// What a client is told about a request that is wrong.
pub open spec fn media_error_data(message: Seq<char>) -> Seq<(Seq<char>, FieldView)> {
    seq![("message"@, FieldView::Text(message))]
}

fn to_user(user: ObjectId) -> (r: Vec<ObjectId>)
    ensures
        r@ == seq![user],
{
    let mut to: Vec<ObjectId> = Vec::new();
    to.push(user);
    to
}

/// Tells a user what is wrong with a request.
pub fn send_media_error(user: ObjectId, message: &str) -> (r: Broadcast<Body>)
    ensures
        r.to@ == seq![user],
        r.kind@ == "media:error"@,
        r.data@ == media_error_data(message@),
{
    Broadcast {
        to: to_user(user),
        kind: "media:error",
        data: Body::new().text("message", message),
    }
}

/// What it is called that someone types, or no longer does.
pub open spec fn typing_event(stopped: bool) -> Seq<char> {
    if stopped {
        "typing:stop"@
    } else {
        "typing:start"@
    }
}

/// Tells the others of a channel who types, or no longer does.
pub fn say_typing(user: ObjectId, notice: &TypingNotice, members: &Vec<ObjectId>) -> (r: Broadcast<
    Body,
>)
    ensures
        r.to@ == but(members@, user),
        r.kind@ == (if notice.stopped {
            "typing:stop"@
        } else {
            "typing:start"@
        }),
        r.kind@ == typing_event(notice.stopped),
        r.data@ == seq![
            ("channel_id"@, FieldView::Text(notice.channel_id@)),
            ("user_id"@, FieldView::Text(oid_hex(user))),
        ],
{
    Broadcast {
        to: all_but(members, user),
        kind: if notice.stopped {
            "typing:stop"
        } else {
            "typing:start"
        },
        data: Body::new().text("channel_id", notice.channel_id.as_str()).id("user_id", user),
    }
}

/// Tells everyone who is connected what a user is up to.
pub fn say_presence(user: ObjectId, presence: &str, everyone: Vec<ObjectId>) -> (r: Broadcast<Body>)
    ensures
        r.to == everyone,
        r.kind@ == "presence:update"@,
        r.data@ == seq![
            ("user_id"@, FieldView::Text(oid_hex(user))),
            ("presence"@, FieldView::Text(presence@)),
        ],
{
    Broadcast {
        to: everyone,
        kind: "presence:update",
        data: Body::new().id("user_id", user).text("presence", presence),
    }
}

/// What is wrong with joining a conference whose media room may not be there.
pub fn room_exists(exists: bool) -> (r: Result<(), &'static str>)
    ensures
        r is Ok <==> exists,
        r matches Err(m) ==> m@ == "Room does not exist"@,
{
    if exists {
        Ok(())
    } else {
        Err("Room does not exist")
    }
}

/// What a client asked of the media layer.
#[derive(Debug, Clone, Copy, PartialEq, Eq, Structural)]
#[allow(missing_docs)]
pub enum MediaCall {
    CreateTransports,
    ConnectTransport,
    Produce,
    Consume,
}

/// What is said when the media layer fails.
pub open spec fn media_blame(call: MediaCall) -> Seq<char> {
    match call {
        MediaCall::CreateTransports => "Failed to create transports: "@,
        MediaCall::ConnectTransport => "connect_transport failed: "@,
        MediaCall::Produce => "produce failed: "@,
        MediaCall::Consume => "consume failed: "@,
    }
}

/// What a user is told when the media layer fails.
pub fn media_failed(user: ObjectId, call: MediaCall, cause: &str) -> (r: Broadcast<Body>)
    ensures
        r.to@ == seq![user],
        r.kind@ == "media:error"@,
        r.data@ == media_error_data(media_blame(call) + cause@),
{
    let blame: &str = match call {
        MediaCall::CreateTransports => "Failed to create transports: ",
        MediaCall::ConnectTransport => "connect_transport failed: ",
        MediaCall::Produce => "produce failed: ",
        MediaCall::Consume => "consume failed: ",
    };
    let message: String = crate::text::cat2(blame, cause);
    send_media_error(user, message.as_str())
}

/// Tells a user what the media room can do.
pub fn router_capabilities(user: ObjectId, capabilities: String) -> (r: Broadcast<Body>)
    ensures
        r.to@ == seq![user],
        r.kind@ == "media:router_capabilities"@,
        r.data@ == seq![("rtp_capabilities"@, FieldView::Document(capabilities@))],
{
    Broadcast {
        to: to_user(user),
        kind: "media:router_capabilities",
        data: Body::new().document("rtp_capabilities", capabilities),
    }
}

/// Tells a user which transports were made for them.
pub fn transport_created(user: ObjectId, send: String, recv: String) -> (r: Broadcast<Body>)
    ensures
        r.to@ == seq![user],
        r.kind@ == "media:transport_created"@,
        r.data@ == seq![
            ("send_transport"@, FieldView::Document(send@)),
            ("recv_transport"@, FieldView::Document(recv@)),
        ],
{
    Broadcast {
        to: to_user(user),
        kind: "media:transport_created",
        data: Body::new().document("send_transport", send).document("recv_transport", recv),
    }
}

/// What a producer carries.
#[derive(Debug, Clone, Copy, PartialEq, Eq, Structural)]
#[allow(missing_docs)]
pub enum MediaKind {
    Audio,
    Video,
}

/// What is said of a producer.
pub open spec fn producer_data(producer: Seq<char>, owner: ObjectId, kind: MediaKind) -> Seq<
    (Seq<char>, FieldView),
> {
    seq![
        ("producer_id"@, FieldView::Text(producer)),
        ("user_id"@, FieldView::Text(oid_hex(owner))),
        (
            "kind"@,
            FieldView::Text(
                match kind {
                    MediaKind::Audio => "audio"@,
                    MediaKind::Video => "video"@,
                },
            ),
        ),
    ]
}

fn producer_body(producer: &str, owner: ObjectId, kind: MediaKind) -> (r: Body)
    ensures
        r@ == producer_data(producer@, owner, kind),
{
    Body::new().text("producer_id", producer).id("user_id", owner).text(
        "kind",
        match kind {
            MediaKind::Audio => "audio",
            MediaKind::Video => "video",
        },
    )
}

/// Tells one who joins of a producer that is there.
pub fn existing_producer(user: ObjectId, producer: &str, owner: ObjectId, kind: MediaKind) -> (r:
    Broadcast<Body>)
    ensures
        r.to@ == seq![user],
        r.kind@ == "media:new_producer"@,
        r.data@ == producer_data(producer@, owner, kind),
{
    Broadcast {
        to: to_user(user),
        kind: "media:new_producer",
        data: producer_body(producer, owner, kind),
    }
}

/// The conference of a transport, once its parameters are read: `readable`
/// says whether they could be.
pub fn connect_ready(ask: &ConnectAsk, readable: bool) -> (r: Result<ObjectId, &'static str>)
    ensures
        !readable ==> (r matches Err(m) && m@ == "Invalid dtls_parameters"@),
        readable ==> match oid_parsed(ask.conference_id@) {
            Some(o) => r == Ok::<ObjectId, &'static str>(o),
            None => r matches Err(m) && m@ == "Invalid conference_id"@,
        },
{
    if !readable {
        return Err("Invalid dtls_parameters");
    }
    match ObjectId::parse_str(ask.conference_id.as_str()) {
        Some(o) => Ok(o),
        None => Err("Invalid conference_id"),
    }
}

/// The conference of a producer, once its kind and its parameters are read:
/// the two say whether they could be.
pub fn produce_ready(ask: &ProduceAsk, kind_readable: bool, rtp_readable: bool) -> (r: Result<
    ObjectId,
    &'static str,
>)
    ensures
        !kind_readable ==> (r matches Err(m) && m@ == "Invalid kind"@),
        kind_readable && !rtp_readable ==> (r matches Err(m) && m@ == "Invalid rtp_parameters"@),
        kind_readable && rtp_readable ==> match oid_parsed(ask.conference_id@) {
            Some(o) => r == Ok::<ObjectId, &'static str>(o),
            None => r matches Err(m) && m@ == "Invalid conference_id"@,
        },
{
    if !kind_readable {
        return Err("Invalid kind");
    }
    if !rtp_readable {
        return Err("Invalid rtp_parameters");
    }
    match ObjectId::parse_str(ask.conference_id.as_str()) {
        Some(o) => Ok(o),
        None => Err("Invalid conference_id"),
    }
}

/// The conference of a consumer, once the capabilities and the producer's id
/// are read: the two say whether they could be.
pub fn consume_ready(ask: &ConsumeAsk, rtp_readable: bool, producer_readable: bool) -> (r: Result<
    ObjectId,
    &'static str,
>)
    ensures
        !rtp_readable ==> (r matches Err(m) && m@ == "Invalid rtp_capabilities"@),
        rtp_readable ==> match oid_parsed(ask.conference_id@) {
            Some(o) => if producer_readable {
                r == Ok::<ObjectId, &'static str>(o)
            } else {
                r matches Err(m) && m@ == "Invalid producer_id"@
            },
            None => r matches Err(m) && m@ == "Invalid conference_id"@,
        },
{
    if !rtp_readable {
        return Err("Invalid rtp_capabilities");
    }
    match ObjectId::parse_str(ask.conference_id.as_str()) {
        Some(o) => if producer_readable {
            Ok(o)
        } else {
            Err("Invalid producer_id")
        },
        None => Err("Invalid conference_id"),
    }
}

/// Tells a user which producer was made for them.
pub fn produce_result(user: ObjectId, producer: &str) -> (r: Broadcast<Body>)
    ensures
        r.to@ == seq![user],
        r.kind@ == "media:produce_result"@,
        r.data@ == seq![("id"@, FieldView::Text(producer@))],
{
    Broadcast {
        to: to_user(user),
        kind: "media:produce_result",
        data: Body::new().text("id", producer),
    }
}

/// Tells the others in a conference of a new producer.
pub fn new_producer(user: ObjectId, producer: &str, kind: MediaKind, participants: &Vec<ObjectId>) -> (r:
    Option<Broadcast<Body>>)
    ensures
        r is None <==> but(participants@, user).len() == 0,
        r matches Some(b) ==> {
            &&& b.to@ == but(participants@, user)
            &&& b.kind@ == "media:new_producer"@
            &&& b.data@ == producer_data(producer@, user, kind)
        },
{
    unless_nobody(
        all_but(participants, user),
        "media:new_producer",
        producer_body(producer, user, kind),
    )
}

/// Tells a user which consumer was made for them.
pub fn consumer_created(
    user: ObjectId,
    id: String,
    producer: String,
    kind: String,
    rtp_parameters: String,
) -> (r: Broadcast<Body>)
    ensures
        r.to@ == seq![user],
        r.kind@ == "media:consumer_created"@,
        r.data@ == seq![
            ("id"@, FieldView::Document(id@)),
            ("producer_id"@, FieldView::Document(producer@)),
            ("kind"@, FieldView::Document(kind@)),
            ("rtp_parameters"@, FieldView::Document(rtp_parameters@)),
        ],
{
    Broadcast {
        to: to_user(user),
        kind: "media:consumer_created",
        data: Body::new().document("id", id).document("producer_id", producer).document(
            "kind",
            kind,
        ).document("rtp_parameters", rtp_parameters),
    }
}

/// Tells the others in a conference that a producer is closed.
pub fn producer_closed(user: ObjectId, producer: &str, participants: &Vec<ObjectId>) -> (r: Option<
    Broadcast<Body>,
>)
    ensures
        r is None <==> but(participants@, user).len() == 0,
        r matches Some(b) ==> {
            &&& b.to@ == but(participants@, user)
            &&& b.kind@ == "media:producer_closed"@
            &&& b.data@ == seq![
                ("producer_id"@, FieldView::Text(producer@)),
                ("user_id"@, FieldView::Text(oid_hex(user))),
            ]
        },
{
    unless_nobody(
        all_but(participants, user),
        "media:producer_closed",
        Body::new().text("producer_id", producer).id("user_id", user),
    )
}

/// Tells those who remain in a conference that a user has left it, or has lost
/// the connection.
pub fn peer_left(user: ObjectId, conference: ObjectId, participants: &Vec<ObjectId>) -> (r: Option<
    Broadcast<Body>,
>)
    ensures
        r is None <==> but(participants@, user).len() == 0,
        r matches Some(b) ==> {
            &&& b.to@ == but(participants@, user)
            &&& b.kind@ == "media:peer_left"@
            &&& b.data@ == seq![
                ("user_id"@, FieldView::Text(oid_hex(user))),
                ("conference_id"@, FieldView::Text(oid_hex(conference))),
            ]
        },
{
    unless_nobody(
        all_but(participants, user),
        "media:peer_left",
        Body::new().id("user_id", user).id("conference_id", conference),
    )
}

/// Every frame that a client can send on its WebSocket.
#[derive(Debug, Clone, Copy, PartialEq, Eq, Structural)]
#[allow(missing_docs)]
pub enum Frame {
    Text,
    Ping,
    Close,
    Broken,
    Other,
}

/// What to do about a frame.
#[derive(Debug, Clone, Copy, PartialEq, Eq, Structural)]
pub enum FrameUse {
    /// Handle its text.
    Handle,
    /// Send its data back.
    Pong,
    /// End the connection.
    Hang,
    /// Go on.
    Skip,
}

/// What to do about a frame.
pub fn handle_socket(frame: Frame) -> (r: FrameUse)
    ensures
        r == (match frame {
            Frame::Text => FrameUse::Handle,
            Frame::Ping => FrameUse::Pong,
            Frame::Close | Frame::Broken => FrameUse::Hang,
            Frame::Other => FrameUse::Skip,
        }),
{
    match frame {
        Frame::Text => FrameUse::Handle,
        Frame::Ping => FrameUse::Pong,
        Frame::Close | Frame::Broken => FrameUse::Hang,
        Frame::Other => FrameUse::Skip,
    }
}

/// A request of the media kind that lacks its data is answered with an error,
/// unless it only takes something away.
pub proof fn bare_media_requests_are_refused()
    ensures
        join(None) is MediaError,
        connect(None) is MediaError,
        produce(None) is MediaError,
        consume(None) is MediaError,
        close(None) is Nothing,
        leave(None) is Nothing,
{
}

} // verus!
