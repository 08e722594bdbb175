//! What holds of everything that a client sends over a WebSocket.
use vstd::prelude::*;
use crate::api::ws_handler::{
    json_at, media_blame, opt_text_at, request, text_at, typing_event, MediaCall, RequestView,
};
use crate::oid::oid_parsed;

verus! {

proof fn lemma_kinds_differ()
    ensures
        "ping"@.len() == 4,
        "typing:start"@.len() == 12,
        "typing:stop"@.len() == 11,
        "presence:update"@.len() == 15,
        "media:join"@.len() == 10,
        "media:connect_transport"@.len() == 23,
        "media:produce"@.len() == 13,
        "media:consume"@.len() == 13,
        "media:producer_close"@.len() == 20,
        "media:leave"@.len() == 11,
        "media:produce"@ != "media:consume"@,
        "media:leave"@ != "typing:stop"@,
{
    reveal_strlit("ping");
    reveal_strlit("typing:start");
    reveal_strlit("typing:stop");
    reveal_strlit("presence:update");
    reveal_strlit("media:join");
    reveal_strlit("media:connect_transport");
    reveal_strlit("media:produce");
    reveal_strlit("media:consume");
    reveal_strlit("media:producer_close");
    reveal_strlit("media:leave");
    assert("media:produce"@[6] == 'p' && "media:consume"@[6] == 'c');
    assert("media:leave"@[0] == 'm' && "typing:stop"@[0] == 't');
}

/// Who types is announced under the type that came in, for the channel that
/// came in; without a channel nothing is announced, and nothing else is ever
/// announced as typing.
pub proof fn typing_is_passed_on(
    kind: Seq<char>,
    data: Option<Seq<(Seq<char>, Option<Seq<char>>, Seq<char>)>>,
)
    ensures
        request(kind, data) matches RequestView::Typing(stopped, channel, text) ==> {
            &&& kind == "typing:start"@ || kind == "typing:stop"@
            &&& typing_event(stopped) == kind
            &&& opt_text_at(data, "channel_id"@) == Some(text)
            &&& oid_parsed(text) == Some(channel)
        },
        kind == "typing:start"@ || kind == "typing:stop"@ ==> (request(kind, data) is Typing <==> (
        opt_text_at(data, "channel_id"@) matches Some(c) && oid_parsed(c) is Some)),
        kind == "typing:start"@ || kind == "typing:stop"@ ==> request(kind, data) is Typing
            || request(kind, data) is Nothing,
{
    lemma_kinds_differ();
}

/// A ping is answered, and only a ping.
pub proof fn pings_are_answered(
    kind: Seq<char>,
    data: Option<Seq<(Seq<char>, Option<Seq<char>>, Seq<char>)>>,
)
    ensures
        request(kind, data) is Pong <==> kind == "ping"@,
{
    lemma_kinds_differ();
}

/// What a user is up to is passed on in the user's words.
pub proof fn presence_is_passed_on(
    kind: Seq<char>,
    data: Option<Seq<(Seq<char>, Option<Seq<char>>, Seq<char>)>>,
    presence: Seq<char>,
)
    ensures
        request(kind, data) == RequestView::Presence(presence) <==> kind == "presence:update"@
            && opt_text_at(data, "presence"@) == Some(presence),
{
    lemma_kinds_differ();
}

/// One joins and leaves the conference that one names, if it is one; whoever
/// names none is told so on joining, and nothing happens on leaving.
pub proof fn conferences_are_joined_and_left_by_name(
    kind: Seq<char>,
    data: Option<Seq<(Seq<char>, Option<Seq<char>>, Seq<char>)>>,
    conference: crate::oid::ObjectId,
)
    ensures
        request(kind, data) == RequestView::Join(conference) <==> kind == "media:join"@ && (
        opt_text_at(data, "conference_id"@) matches Some(c) && oid_parsed(c) == Some(conference)),
        request(kind, data) == RequestView::Leave(conference) <==> kind == "media:leave"@ && (
        opt_text_at(data, "conference_id"@) matches Some(c) && oid_parsed(c) == Some(conference)),
        kind == "media:join"@ ==> request(kind, data) is Join || request(kind, data) is MediaError,
        kind == "media:leave"@ ==> request(kind, data) is Leave || request(kind, data) is Nothing,
{
    lemma_kinds_differ();
}

/// A producer is closed where both it and the conference are named.
pub proof fn producers_are_closed_by_name(
    kind: Seq<char>,
    data: Option<Seq<(Seq<char>, Option<Seq<char>>, Seq<char>)>>,
    conference: crate::oid::ObjectId,
    producer: Seq<char>,
)
    ensures
        request(kind, data) == RequestView::CloseProducer(conference, producer) <==> kind
            == "media:producer_close"@ && opt_text_at(data, "producer_id"@) == Some(producer) && (
        opt_text_at(data, "conference_id"@) matches Some(c) && oid_parsed(c) == Some(conference)),
        kind == "media:producer_close"@ ==> request(kind, data) is CloseProducer || request(
            kind,
            data,
        ) is Nothing,
{
    lemma_kinds_differ();
}

/// What is asked of the media layer carries what came in: the conference, the
/// transport or the producer, and the parameters as they are. Whatever lacks a
/// name that it needs is refused.
pub proof fn media_requests_carry_what_came(
    kind: Seq<char>,
    data: Seq<(Seq<char>, Option<Seq<char>>, Seq<char>)>,
    a: Seq<char>,
    b: Seq<char>,
    x: Option<Seq<char>>,
    y: Option<Seq<char>>,
)
    ensures
        request(kind, Some(data)) == RequestView::Connect(a, b, x) <==> kind
            == "media:connect_transport"@ && text_at(data, "conference_id"@) == Some(a) && text_at(
            data,
            "transport_id"@,
        ) == Some(b) && json_at(data, "dtls_parameters"@) == x,
        request(kind, Some(data)) == RequestView::Produce(a, x, y) <==> kind == "media:produce"@
            && text_at(data, "conference_id"@) == Some(a) && json_at(data, "kind"@) == x && json_at(
            data,
            "rtp_parameters"@,
        ) == y,
        request(kind, Some(data)) == RequestView::Consume(a, b, x) <==> kind == "media:consume"@
            && text_at(data, "conference_id"@) == Some(a) && text_at(data, "producer_id"@) == Some(
            b,
        ) && json_at(data, "rtp_capabilities"@) == x,
        kind == "media:connect_transport"@ ==> request(kind, Some(data)) is Connect || request(
            kind,
            Some(data),
        ) is MediaError,
        kind == "media:produce"@ ==> request(kind, Some(data)) is Produce || request(
            kind,
            Some(data),
        ) is MediaError,
        kind == "media:consume"@ ==> request(kind, Some(data)) is Consume || request(
            kind,
            Some(data),
        ) is MediaError,
{
    lemma_kinds_differ();
}

/// What is no known type comes to nothing.
pub proof fn unknown_types_come_to_nothing(
    kind: Seq<char>,
    data: Option<Seq<(Seq<char>, Option<Seq<char>>, Seq<char>)>>,
)
    ensures
        !(request(kind, data) is Nothing) ==> kind == "ping"@ || kind == "typing:start"@ || kind
            == "typing:stop"@ || kind == "presence:update"@ || kind == "media:join"@ || kind
            == "media:connect_transport"@ || kind == "media:produce"@ || kind == "media:consume"@
            || kind == "media:producer_close"@ || kind == "media:leave"@,
        request(kind, data) is MediaError ==> kind == "media:join"@ || kind
            == "media:connect_transport"@ || kind == "media:produce"@ || kind == "media:consume"@,
{
    lemma_kinds_differ();
}

/// Data is found by its name: where one member goes by it, that one, and
/// nothing where none does.
pub proof fn members_are_found_by_name(
    data: Seq<(Seq<char>, Option<Seq<char>>, Seq<char>)>,
    name: Seq<char>,
    i: int,
)
    ensures
        0 <= i < data.len() && data[i].0 == name && (forall|j: int|
            i < j < data.len() ==> (#[trigger] data[j]).0 != name) ==> text_at(data, name)
            == data[i].1 && json_at(data, name) == Some(data[i].2),
        (forall|j: int| 0 <= j < data.len() ==> (#[trigger] data[j]).0 != name) ==> text_at(
            data,
            name,
        ) is None && json_at(data, name) is None,
    decreases data.len(),
{
    if data.len() > 0 {
        let rest = data.drop_last();
        assert(data.last() == data[data.len() - 1]);
        members_are_found_by_name(rest, name, i);
        if 0 <= i && forall|j: int| i < j < data.len() ==> (#[trigger] data[j]).0 != name {
            assert forall|j: int| i < j < rest.len() implies (#[trigger] rest[j]).0 != name by {
                assert(data[j] == rest[j]);
            }
        }
        if forall|j: int| 0 <= j < data.len() ==> (#[trigger] data[j]).0 != name {
            assert forall|j: int| 0 <= j < rest.len() implies (#[trigger] rest[j]).0 != name by {
                assert(data[j] == rest[j]);
            }
        }
    }
}

/// What the media layer fails at is said in words of its own.
pub proof fn failures_are_told_apart(a: MediaCall, b: MediaCall)
    requires
        media_blame(a) == media_blame(b),
    ensures
        a == b,
{
    reveal_strlit("Failed to create transports: ");
    reveal_strlit("connect_transport failed: ");
    reveal_strlit("produce failed: ");
    reveal_strlit("consume failed: ");
    assert("Failed to create transports: "@.len() == 29);
    assert("connect_transport failed: "@.len() == 26);
    assert("produce failed: "@.len() == 16 && "consume failed: "@.len() == 16);
    assert("produce failed: "@[0] == 'p' && "consume failed: "@[0] == 'c');
}

} // verus!
