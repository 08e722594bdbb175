//! Reactions to messages.
use vstd::prelude::*;
use crate::api::error::{ApiError, ErrorKind};
use crate::api::scope::{
    Admitted,
    Asked,
    id_in,
    item_asked,
    item_request,
    pair_asked,
    pair_request,
    parse_id,
};
use crate::api::wire::{Body, Broadcast, FieldView, said, say};
use crate::oid::{ObjectId, oid_hex};

verus! {

/// A reaction to add.
#[derive(Debug)]
#[allow(missing_docs)]
pub struct AddReactionRequest {
    pub emoji: String,
}

/// A request to react to a message of a channel.
pub fn add_request(tenant_id: &str, channel_id: &str, message_id: &str, user: ObjectId) -> (r:
    Result<Asked<(ObjectId, ObjectId)>, ApiError>)
    ensures
        match r {
            Ok(a) => pair_asked(
                tenant_id@,
                channel_id@,
                "channel_id"@,
                message_id@,
                "message_id"@,
                user,
            ) == Ok::<_, (ErrorKind, Seq<char>)>(a),
            Err(e) => pair_asked(
                tenant_id@,
                channel_id@,
                "channel_id"@,
                message_id@,
                "message_id"@,
                user,
            ) == Err::<Asked<(ObjectId, ObjectId)>, _>(e@),
        },
{
    pair_request(tenant_id, channel_id, "channel_id", message_id, "message_id", user)
}

/// A request to take a reaction back; the channel is read once it is gone.
pub fn remove_request(tenant_id: &str, message_id: &str, user: ObjectId) -> (r: Result<
    Asked<ObjectId>,
    ApiError,
>)
    ensures
        match r {
            Ok(a) => item_asked(tenant_id@, message_id@, "message_id"@, user) == Ok::<
                _,
                (ErrorKind, Seq<char>),
            >(a),
            Err(e) => item_asked(tenant_id@, message_id@, "message_id"@, user) == Err::<
                Asked<ObjectId>,
                _,
            >(e@),
        },
{
    item_request(tenant_id, message_id, "message_id", user)
}

/// What is said of a reaction.
pub open spec fn reaction_data(
    action: Seq<char>,
    message_id: Seq<char>,
    channel_id: Seq<char>,
    user: ObjectId,
    emoji: Seq<char>,
) -> Seq<(Seq<char>, FieldView)> {
    seq![
        ("action"@, FieldView::Text(action)),
        ("message_id"@, FieldView::Text(message_id)),
        ("channel_id"@, FieldView::Text(channel_id)),
        ("user_id"@, FieldView::Text(oid_hex(user))),
        ("emoji"@, FieldView::Text(emoji)),
    ]
}

fn say_reaction(
    action: &str,
    message_id: &str,
    channel_id: &str,
    user: ObjectId,
    emoji: &str,
    members: Vec<ObjectId>,
) -> (r: Broadcast<Body>)
    ensures
        r.to == members,
        r.kind@ == "message:reaction"@,
        r.data@ == reaction_data(action@, message_id@, channel_id@, user, emoji@),
{
    let data: Body = Body::new().text("action", action).text("message_id", message_id).text(
        "channel_id",
        channel_id,
    ).id("user_id", user).text("emoji", emoji);
    Broadcast { to: members, kind: "message:reaction", data }
}

/// Tells everyone of the channel of a new reaction.
pub fn add(
    asked: &Admitted<(ObjectId, ObjectId)>,
    message_id: &str,
    channel_id: &str,
    emoji: &str,
    members: Vec<ObjectId>,
) -> (r: (Broadcast<Body>, Body))
    ensures
        r.0.to == members,
        r.0.kind@ == "message:reaction"@,
        r.0.data@ == reaction_data(
            "add"@,
            message_id@,
            channel_id@,
            asked.request().user,
            emoji@,
        ),
        r.1@ == said("added"@, true),
{
    (
        say_reaction("add", message_id, channel_id, asked.user(), emoji, members),
        say("added", true),
    )
}

/// The channel whose people hear that a reaction is gone; nobody hears it
/// where none was there.
pub fn removed_from(removed: bool, channel_id: &str) -> (r: Result<Option<ObjectId>, ApiError>)
    ensures
        match r {
            Ok(None) => !removed,
            Ok(Some(c)) => removed && id_in(channel_id@, "channel_id"@) == Ok::<
                _,
                (ErrorKind, Seq<char>),
            >(c),
            Err(e) => removed && id_in(channel_id@, "channel_id"@) == Err::<ObjectId, _>(e@),
        },
{
    if removed {
        match parse_id(channel_id, "channel_id") {
            Ok(c) => Ok(Some(c)),
            Err(e) => Err(e),
        }
    } else {
        Ok(None)
    }
}

/// Tells everyone of the channel that a reaction is gone.
pub fn remove(
    asked: &Admitted<ObjectId>,
    message_id: &str,
    channel_id: &str,
    emoji: &str,
    members: Vec<ObjectId>,
) -> (r: Broadcast<Body>)
    ensures
        r.to == members,
        r.kind@ == "message:reaction"@,
        r.data@ == reaction_data(
            "remove"@,
            message_id@,
            channel_id@,
            asked.request().user,
            emoji@,
        ),
{
    say_reaction("remove", message_id, channel_id, asked.user(), emoji, members)
}

/// The answer that says whether a reaction was there to take back.
pub fn removed(gone: bool) -> (r: Body)
    ensures
        r@ == said("removed"@, gone),
{
    say("removed", gone)
}

} // verus!
