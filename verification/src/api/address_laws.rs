//! What addresses, keys and cookies hold: each part reads back from its place.
use vstd::prelude::*;
use crate::api::auth::{
    LOGOUT_COOKIE,
    activation_address,
    cookie_of,
    entry_to,
    invite_for,
};
use crate::api::error::{AuthError, ErrorKind, auth_answer};
use crate::api::file::{
    FieldUse,
    RoomFile,
    UploadStep,
    download_url,
    in_some_room,
    storage_key,
    upload_blame,
    use_of,
};
use crate::api::giphy::asked_for;
use crate::api::reaction::reaction_data;
use crate::api::recording::{recording_key, type_asked};
use crate::api::remote_control::{encrypted_at, enrolled_by, is_bare_turn, relay_urls};
use crate::api::stripe::{StripeError, stripe_answer};
use crate::api::wire::FieldView;
use crate::models::invite::Invite;
use crate::models::recording::RecordingType;
use crate::models::user::User;
use crate::oid::{ObjectId, hex_round_trip, oid_hex, oid_parsed};
use crate::text::{has_part, replace_all};

verus! {

/// A file is stored under its tenant, then its room, then the name of its own.
pub proof fn files_lie_under_their_tenant(tenant: ObjectId, room: ObjectId, unique: Seq<char>)
    ensures
        storage_key(tenant, room, unique).len() == 55 + unique.len(),
        oid_parsed(storage_key(tenant, room, unique).take(24)) == Some(tenant),
        storage_key(tenant, room, unique).subrange(24, 30) == "/room/"@,
        oid_parsed(storage_key(tenant, room, unique).subrange(30, 54)) == Some(room),
        storage_key(tenant, room, unique).skip(55) == unique,
{
    reveal_strlit("/room/");
    reveal_strlit("/");
    hex_round_trip(tenant);
    hex_round_trip(room);
    let k = storage_key(tenant, room, unique);
    assert(k.take(24) =~= oid_hex(tenant));
    assert(k.subrange(24, 30) =~= "/room/"@);
    assert(k.subrange(30, 54) =~= oid_hex(room));
    assert(k.skip(55) =~= unique);
}

/// A recording is stored under its tenant, then its conference, then the name
/// of its own.
pub proof fn recordings_lie_under_their_tenant(
    tenant: ObjectId,
    conference: ObjectId,
    unique: Seq<char>,
)
    ensures
        recording_key(tenant, conference, unique).len() == 50 + unique.len(),
        oid_parsed(recording_key(tenant, conference, unique).take(24)) == Some(tenant),
        oid_parsed(recording_key(tenant, conference, unique).subrange(25, 49)) == Some(conference),
        recording_key(tenant, conference, unique).skip(50) == unique,
{
    reveal_strlit("/");
    hex_round_trip(tenant);
    hex_round_trip(conference);
    let k = recording_key(tenant, conference, unique);
    assert(k.take(24) =~= oid_hex(tenant));
    assert(k.subrange(25, 49) =~= oid_hex(conference));
    assert(k.skip(50) =~= unique);
}

/// A download's address leads to the tenant and to the file that it was made
/// for.
pub proof fn downloads_lead_to_their_file(tenant: ObjectId, file: ObjectId)
    ensures
        download_url(tenant, file).len() == 75,
        download_url(tenant, file).take(12) == "/api/tenant/"@,
        oid_parsed(download_url(tenant, file).subrange(12, 36)) == Some(tenant),
        download_url(tenant, file).subrange(36, 42) == "/file/"@,
        oid_parsed(download_url(tenant, file).subrange(42, 66)) == Some(file),
        download_url(tenant, file).skip(66) == "/download"@,
{
    reveal_strlit("/api/tenant/");
    reveal_strlit("/file/");
    reveal_strlit("/download");
    hex_round_trip(tenant);
    hex_round_trip(file);
    let u = download_url(tenant, file);
    assert(u.take(12) =~= "/api/tenant/"@);
    assert(u.subrange(12, 36) =~= oid_hex(tenant));
    assert(u.subrange(36, 42) =~= "/file/"@);
    assert(u.subrange(42, 66) =~= oid_hex(file));
    assert(u.skip(66) =~= "/download"@);
}

/// The address by which an account is activated lies at the frontend and holds
/// the account's id and the code, each under its name.
pub proof fn activations_lead_to_their_account(
    frontend: Seq<char>,
    user: ObjectId,
    code: Seq<char>,
)
    ensures
        frontend.is_prefix_of(activation_address(frontend, user, code)),
        ({
            let rest = activation_address(frontend, user, code).skip(frontend.len() as int);
            &&& rest.len() == 53 + code.len()
            &&& rest.take(22) == "/auth/activate?userId="@
            &&& oid_parsed(rest.subrange(22, 46)) == Some(user)
            &&& rest.subrange(46, 53) == "&token="@
            &&& rest.skip(53) == code
        }),
{
    reveal_strlit("/auth/activate?userId=");
    reveal_strlit("&token=");
    hex_round_trip(user);
    let a = activation_address(frontend, user, code);
    let rest = a.skip(frontend.len() as int);
    assert(a.take(frontend.len() as int) =~= frontend);
    assert(rest.take(22) =~= "/auth/activate?userId="@);
    assert(rest.subrange(22, 46) =~= oid_hex(user));
    assert(rest.subrange(46, 53) =~= "&token="@);
    assert(rest.skip(53) =~= code);
}

/// One who signs out gets the cookie of one who signs in, without a token and
/// over at once.
pub proof fn signing_out_empties_the_cookie()
    ensures
        cookie_of(Seq::<char>::empty(), 0) == LOGOUT_COOKIE@,
{
    reveal_strlit("access_token=; HttpOnly; Path=/; SameSite=Lax; Max-Age=0");
    reveal_strlit("access_token=");
    reveal_strlit("; HttpOnly; Path=/; SameSite=Lax; Max-Age=");
    assert(crate::num::decimal(0) =~= seq!['0']);
    assert(cookie_of(Seq::<char>::empty(), 0) =~= LOGOUT_COOKIE@);
}

/// The cookies of two who sign in differ in the token and the time alone.
pub proof fn cookies_differ_by_token_and_time(token: Seq<char>, seconds: nat)
    ensures
        cookie_of(token, seconds) == LOGOUT_COOKIE@.take(13) + token + LOGOUT_COOKIE@.subrange(
            13,
            LOGOUT_COOKIE@.len() - 1,
        ) + crate::num::decimal(seconds),
{
    reveal_strlit("access_token=; HttpOnly; Path=/; SameSite=Lax; Max-Age=0");
    reveal_strlit("access_token=");
    reveal_strlit("; HttpOnly; Path=/; SameSite=Lax; Max-Age=");
    assert(LOGOUT_COOKIE@.take(13) =~= "access_token="@);
    assert(LOGOUT_COOKIE@.subrange(13, LOGOUT_COOKIE@.len() - 1)
        =~= "; HttpOnly; Path=/; SameSite=Lax; Max-Age="@);
}

/// A wrong password is answered in the same way whosever it is, as one who is
/// not authorized, and so is an account that is not activated.
pub proof fn wrong_passwords_tell_nothing(a: User, b: User, e: AuthError)
    ensures
        entry_to(a, Ok(false)) == entry_to(b, Ok(false)),
        entry_to(a, Ok(false)) matches Err(w) && w.0 == ErrorKind::Unauthorized,
        entry_to(a, Ok(false)) == Err::<(), _>(auth_answer(AuthError::InvalidCredentials)),
        !a.is_verified ==> (entry_to(a, Ok(true)) matches Err(w) && w.0
            == ErrorKind::Unauthorized),
        a.is_verified ==> entry_to(a, Ok(true)) is Ok,
        entry_to(a, Err(e)) == Err::<(), _>(auth_answer(e)),
{
}

/// An invite is good for exactly the address that it names, or for any where
/// it names none; the wrong one is forbidden, and an invite that is not valid
/// any more is a bad request that says why.
pub proof fn invites_are_for_their_address(invite: Invite, email: Seq<char>, why: Seq<char>)
    ensures
        invite.target_email is None ==> invite_for(invite, email, Ok(())) is Ok,
        invite.target_email matches Some(t) ==> (invite_for(invite, email, Ok(())) is Ok <==> t@
            == email),
        invite.target_email matches Some(t) && t@ != email ==> invite_for(
            invite,
            email,
            Ok(()),
        )->Err_0.0 == ErrorKind::Forbidden,
        invite_for(invite, email, Err(why)) == Err::<(), (ErrorKind, Seq<char>)>(
            (ErrorKind::BadRequest, why),
        ),
{
}

/// Of a form, the field `file` is the file whatever the room, the field
/// `room_id` is the room where none is known yet, and no other is of use.
pub proof fn forms_hold_a_file_and_a_room(name: Option<Seq<char>>, room_known: bool)
    ensures
        use_of(name, room_known) == FieldUse::File <==> name == Some("file"@),
        use_of(name, room_known) == FieldUse::RoomId <==> name == Some("room_id"@) && !room_known,
        name is None ==> use_of(name, room_known) == FieldUse::Skip,
{
    reveal_strlit("file");
    reveal_strlit("room_id");
    assert("file"@.len() != "room_id"@.len());
}

/// A room is one to be named exactly where one of the files is in it.
pub proof fn rooms_are_those_of_files(files: Seq<RoomFile>, file: RoomFile, room: ObjectId)
    ensures
        !in_some_room(Seq::<RoomFile>::empty(), room),
        in_some_room(files.push(file), room) <==> in_some_room(files, room) || file.room_id
            == Some(room),
{
    let more = files.push(file);
    if in_some_room(files, room) {
        let k = choose|k: int| 0 <= k < files.len() && (#[trigger] files[k]).room_id == Some(room);
        assert(more[k].room_id == Some(room));
    }
    if file.room_id == Some(room) {
        assert(more[files.len() as int].room_id == Some(room));
    }
    if in_some_room(more, room) {
        let k = choose|k: int| 0 <= k < more.len() && (#[trigger] more[k]).room_id == Some(room);
        if k < files.len() {
            assert(files[k].room_id == Some(room));
        }
    }
}

/// An upload that cannot be read is the client's fault, one that cannot be
/// stored is the server's, and either says what could not be done.
pub proof fn uploads_fail_by_whose_fault_it_is(step: UploadStep)
    ensures
        upload_blame(step).0 == ErrorKind::BadRequest <==> step == UploadStep::NextField || step
            == UploadStep::ReadFile || step == UploadStep::ReadText,
        upload_blame(step).0 == ErrorKind::Internal <==> step == UploadStep::MakeUploadDir || step
            == UploadStep::MakeDirs || step == UploadStep::Write,
        upload_blame(UploadStep::NextField).1 == "Multipart error: "@,
        upload_blame(UploadStep::ReadFile).1 == "Failed to read file: "@,
        upload_blame(UploadStep::ReadText).1 == "Failed to read field: "@,
        upload_blame(UploadStep::MakeUploadDir).1 == "Failed to create upload dir: "@,
        upload_blame(UploadStep::MakeDirs).1 == "Failed to create dirs: "@,
        upload_blame(UploadStep::Write).1 == "Failed to write file: "@,
{
}

/// A recording is of sound alone, or of a screen, exactly where the request
/// says so by that word, and of video in every other case.
pub proof fn recordings_are_of_what_was_asked(s: Option<Seq<char>>)
    ensures
        type_asked(s) == RecordingType::Audio <==> s == Some("audio"@),
        type_asked(s) == RecordingType::ScreenShare <==> s == Some("screen_share"@),
        type_asked(s) == RecordingType::Video <==> s != Some("audio"@) && s != Some(
            "screen_share"@,
        ),
{
    reveal_strlit("audio");
    reveal_strlit("screen_share");
    assert("audio"@.len() != "screen_share"@.len());
}

/// What a request for pictures says is kept; where it does not say, there are
/// twenty-five of them from the first on.
pub proof fn pictures_are_as_many_as_asked(a: u32, b: u32, x: Option<u32>)
    ensures
        asked_for(Some(a), x).0 == a,
        asked_for(x, Some(b)).1 == b,
        asked_for(None, x).0 == 25,
        asked_for(x, None).1 == 0,
{
}

/// What is said of a reaction holds the action, the message, the channel, the
/// user and the emoji, each under its name.
pub proof fn reactions_say_what_happened(
    action: Seq<char>,
    message_id: Seq<char>,
    channel_id: Seq<char>,
    user: ObjectId,
    emoji: Seq<char>,
)
    ensures
        ({
            let d = reaction_data(action, message_id, channel_id, user, emoji);
            &&& d.len() == 5
            &&& d.contains(("action"@, FieldView::Text(action)))
            &&& d.contains(("message_id"@, FieldView::Text(message_id)))
            &&& d.contains(("channel_id"@, FieldView::Text(channel_id)))
            &&& d.contains(("user_id"@, FieldView::Text(oid_hex(user))))
            &&& d.contains(("emoji"@, FieldView::Text(emoji)))
        }),
{
    let d = reaction_data(action, message_id, channel_id, user, emoji);
    assert(d[0] == ("action"@, FieldView::Text(action)));
    assert(d[1] == ("message_id"@, FieldView::Text(message_id)));
    assert(d[2] == ("channel_id"@, FieldView::Text(channel_id)));
    assert(d[3] == ("user_id"@, FieldView::Text(oid_hex(user))));
    assert(d[4] == ("emoji"@, FieldView::Text(emoji)));
}

/// A billing error is the server's fault only where the service or the
/// database failed, and says what they said.
pub proof fn billing_errors_are_told_apart(e: StripeError)
    ensures
        stripe_answer(e).0 == ErrorKind::NotFound <==> e is TenantNotFound,
        stripe_answer(e).0 == ErrorKind::BadRequest <==> e is NoBillingAccount || e is InvalidPlan,
        stripe_answer(e).0 == ErrorKind::Unauthorized <==> e is InvalidSignature,
        stripe_answer(e).0 == ErrorKind::Internal <==> e is ApiError || e is Mongo,
        e matches StripeError::InvalidPlan(p) ==> p@.is_suffix_of(stripe_answer(e).1),
        e matches StripeError::ApiError(m) ==> m@.is_suffix_of(stripe_answer(e).1),
        e matches StripeError::Mongo(m) ==> stripe_answer(e).1 == m@,
{
    match e {
        StripeError::InvalidPlan(p) => {
            let s = "Invalid plan: "@ + p@;
            assert(s.subrange(s.len() - p@.len(), s.len() as int) =~= p@);
        },
        StripeError::ApiError(m) => {
            let s = "Stripe API error: "@ + m@;
            assert(s.subrange(s.len() - m@.len(), s.len() as int) =~= m@);
        },
        _ => {},
    }
}

/// An agent enrolls in the tenant and under the administrator that its token
/// names, in this order.
pub proof fn agents_enroll_where_they_are_sent(tenant: ObjectId, admin: ObjectId, text: Seq<char>)
    ensures
        enrolled_by(oid_hex(tenant), oid_hex(admin)) == Ok::<
            (ObjectId, ObjectId),
            (ErrorKind, Seq<char>),
        >((tenant, admin)),
        oid_parsed(text) is None ==> enrolled_by(text, oid_hex(admin)) == Err::<
            (ObjectId, ObjectId),
            (ErrorKind, Seq<char>),
        >((ErrorKind::BadRequest, "Invalid tenant_id claim"@)),
        oid_parsed(text) is None ==> enrolled_by(oid_hex(tenant), text) == Err::<
            (ObjectId, ObjectId),
            (ErrorKind, Seq<char>),
        >((ErrorKind::BadRequest, "Invalid admin user id claim"@)),
{
    hex_round_trip(tenant);
    hex_round_trip(admin);
}

proof fn lemma_nothing_to_replace(s: Seq<char>, from: Seq<char>, to: Seq<char>)
    requires
        from.len() > 0,
        !has_part(s, from),
    ensures
        replace_all(s, from, to) == s,
    decreases s.len(),
{
    if s.len() > 0 {
        lemma_nothing_to_replace(s.drop_first(), from, to);
        assert(seq![s[0]] + s.drop_first() =~= s);
    }
}

proof fn lemma_front_is_kept(front: Seq<char>, rest: Seq<char>, from: Seq<char>, to: Seq<char>)
    requires
        from.len() > 0,
        forall|i: int| 0 <= i < front.len() ==> front[i] != from[0],
    ensures
        replace_all(front + rest, from, to) == front + replace_all(rest, from, to),
    decreases front.len(),
{
    let s = front + rest;
    if front.len() == 0 {
        assert(s =~= rest);
        assert(front + replace_all(rest, from, to) =~= replace_all(rest, from, to));
    } else {
        assert(s[0] == front[0]);
        if from.is_prefix_of(s) {
            assert(from[0] == s[0]);
        }
        assert(s.drop_first() =~= front.drop_first() + rest);
        lemma_front_is_kept(front.drop_first(), rest, from, to);
        assert(seq![s[0]] + (front.drop_first() + replace_all(rest, from, to)) =~= front
            + replace_all(rest, from, to));
    }
}

/// A relay's addresses begin with the one that is configured. A bare one is
/// offered over TCP too, and encrypted, at the port that it names where that is
/// not the usual one; another is offered as it is.
pub proof fn relays_are_offered_in_their_forms(base: Seq<char>)
    ensures
        !is_bare_turn(base) ==> relay_urls(base) == seq![base],
        is_bare_turn(base) ==> {
            &&& relay_urls(base).len() == 4
            &&& relay_urls(base)[0] == base
            &&& relay_urls(base)[1] == base + "?transport=tcp"@
        },
        is_bare_turn(base) && !has_part("turns:"@ + base.skip(5), ":3478"@) ==> {
            &&& relay_urls(base)[2] == "turns:"@ + base.skip(5) + "?transport=tcp"@
            &&& relay_urls(base)[3] == "turns:"@ + base.skip(5) + "?transport=tcp"@
        },
{
    reveal_strlit(":3478");
    let t = "turns:"@ + base.skip(5);
    if !has_part(t, ":3478"@) {
        lemma_nothing_to_replace(t, ":3478"@, ":5349"@);
        lemma_nothing_to_replace(t, ":3478"@, ":443"@);
    }
}

proof fn lemma_replaced_whole(from: Seq<char>, to: Seq<char>)
    requires
        from.len() > 0,
    ensures
        replace_all(from, from, to) == to,
{
    assert(from.is_prefix_of(from));
    assert(from.skip(from.len() as int) =~= Seq::<char>::empty());
    assert(replace_all(Seq::<char>::empty(), from, to) == Seq::<char>::empty());
    assert(to + Seq::<char>::empty() =~= to);
}

/// A relay at the usual port is offered encrypted at the two ports for that:
/// its scheme and its port change, its host does not.
pub proof fn the_usual_port_moves(host: Seq<char>, port: Seq<char>)
    requires
        forall|i: int| 0 <= i < host.len() ==> host[i] != ':',
        !"3478"@.is_prefix_of(host),
    ensures
        encrypted_at("turn:"@ + host + ":3478"@, port) == "turns:"@ + host + port
            + "?transport=tcp"@,
        is_bare_turn("turn:"@ + host + ":3478"@) ==> relay_urls("turn:"@ + host + ":3478"@)
            == seq![
            "turn:"@ + host + ":3478"@,
            "turn:"@ + host + ":3478"@ + "?transport=tcp"@,
            "turns:"@ + host + ":5349"@ + "?transport=tcp"@,
            "turns:"@ + host + ":443"@ + "?transport=tcp"@,
        ],
{
    lemma_encrypted(host, port);
    lemma_encrypted(host, ":5349"@);
    lemma_encrypted(host, ":443"@);
}

proof fn lemma_encrypted(host: Seq<char>, port: Seq<char>)
    requires
        forall|i: int| 0 <= i < host.len() ==> host[i] != ':',
        !"3478"@.is_prefix_of(host),
    ensures
        encrypted_at("turn:"@ + host + ":3478"@, port) == "turns:"@ + host + port
            + "?transport=tcp"@,
{
    reveal_strlit("turn:");
    reveal_strlit("turns:");
    reveal_strlit("turns");
    reveal_strlit("3478");
    reveal_strlit(":3478");
    let f = ":3478"@;
    let s = seq![':'] + (host + f);
    assert(("turn:"@ + host + f).skip(5) =~= host + f);
    assert("turns:"@ + (host + f) =~= "turns"@ + s);
    lemma_front_is_kept("turns"@, s, f, port);
    if f.is_prefix_of(s) {
        assert forall|k: int| 0 <= k < 5 implies f[k] == s[k] by {}
        if host.len() < 4 {
            assert(s[1 + host.len() as int] == ':');
            assert(f[1 + host.len() as int] != ':');
        } else {
            assert forall|k: int| 0 <= k < 4 implies host[k] == "3478"@[k] by {
                assert(s[k + 1] == host[k]);
                assert(f[k + 1] == "3478"@[k]);
            }
            assert(host.take(4) =~= "3478"@);
        }
    }
    assert(s.drop_first() =~= host + f);
    lemma_front_is_kept(host, f, f, port);
    lemma_replaced_whole(f, port);
    assert(seq![s[0]] + (host + port) =~= seq![':'] + (host + port));
    assert("turns"@ + (seq![':'] + (host + port)) =~= "turns:"@ + host + port);
}

} // verus!
