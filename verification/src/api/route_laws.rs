//! Which request reaches which handler.
use vstd::prelude::*;
use crate::api::router::{all_groups, routes_of, spec_prefix, Group, Handler, Method};

verus! {

/// A request with this method on this path, below that of the API, reaches the
/// handler.
pub open spec fn reaches(method: Method, path: Seq<char>, handler: Handler) -> bool {
    exists|g: Group, i: int|
        0 <= i < routes_of(g).len() && #[trigger] routes_of(g)[i] == (
            method,
            routes_of(g)[i].1,
            handler,
        ) && path == spec_prefix(g)@ + routes_of(g)[i].1
}

/// The handler takes something away.
pub open spec fn takes_away(h: Handler) -> bool {
    ||| h == Handler::RoleDelete
    ||| h == Handler::RoleUnassign
    ||| h == Handler::InviteRevokeInvite
    ||| h == Handler::RoomDelete
    ||| h == Handler::MessageDelete
    ||| h == Handler::ReactionRemove
    ||| h == Handler::RecordingDelete
    ||| h == Handler::FileDelete
}

/// The handler changes something that is there.
pub open spec fn changes(h: Handler) -> bool {
    ||| h == Handler::UserUpdateProfile
    ||| h == Handler::NotificationMarkRead
    ||| h == Handler::RoleUpdate
    ||| h == Handler::RoomUpdate
    ||| h == Handler::MessageUpdate
    ||| h == Handler::MessageTogglePin
}

/// The handler makes something, or has something done.
pub open spec fn makes(h: Handler) -> bool {
    ||| h == Handler::AuthRegister
    ||| h == Handler::AuthLogin
    ||| h == Handler::AuthLogout
    ||| h == Handler::AuthRefresh
    ||| h == Handler::AuthActivate
    ||| h == Handler::StripeCreateCheckout
    ||| h == Handler::StripeCreatePortal
    ||| h == Handler::StripeWebhook
    ||| h == Handler::InviteAcceptInvite
    ||| h == Handler::PushSubscribe
    ||| h == Handler::PushUnsubscribe
    ||| h == Handler::NotificationMarkAllRead
    ||| h == Handler::TenantCreate
    ||| h == Handler::InviteAddMember
    ||| h == Handler::RoleCreate
    ||| h == Handler::RoleAssign
    ||| h == Handler::InviteCreateInvite
    ||| h == Handler::InviteBatchCreateInvite
    ||| h == Handler::RoomCreate
    ||| h == Handler::RoomJoin
    ||| h == Handler::RoomLeave
    ||| h == Handler::RoomCallStart
    ||| h == Handler::RoomCallJoin
    ||| h == Handler::RoomCallLeave
    ||| h == Handler::RoomCallEnd
    ||| h == Handler::RoomCreateCallMessage
    ||| h == Handler::MessageCreate
    ||| h == Handler::ReactionAdd
    ||| h == Handler::MessageMarkRead
    ||| h == Handler::RecordingCreate
    ||| h == Handler::FileUploadRoom
    ||| h == Handler::FileUpload
    ||| h == Handler::IntegrationRecognizeFile
    ||| h == Handler::ExportExportConversation
    ||| h == Handler::IntegrationExportConversationPdf
}

spec fn seat(h: Handler) -> (Group, int) {
    match h {
        Handler::AuthRegister => (Group::Auth, 0),
        Handler::AuthLogin => (Group::Auth, 1),
        Handler::AuthLogout => (Group::Auth, 2),
        Handler::AuthRefresh => (Group::Auth, 3),
        Handler::AuthActivate => (Group::Auth, 4),
        Handler::AuthMe => (Group::Auth, 5),
        Handler::UserUpdateProfile => (Group::User, 0),
        Handler::UserGetProfile => (Group::User, 1),
        Handler::OauthOauthRedirect => (Group::Oauth, 0),
        Handler::OauthOauthCallback => (Group::Oauth, 1),
        Handler::StripeGetPlans => (Group::Stripe, 0),
        Handler::StripeCreateCheckout => (Group::Stripe, 1),
        Handler::StripeCreatePortal => (Group::Stripe, 2),
        Handler::StripeWebhook => (Group::Stripe, 3),
        Handler::InviteGetInviteInfo => (Group::PublicInvite, 0),
        Handler::InviteAcceptInvite => (Group::PublicInvite, 1),
        Handler::GiphySearch => (Group::Giphy, 0),
        Handler::GiphyTrending => (Group::Giphy, 1),
        Handler::PushConfig => (Group::Push, 0),
        Handler::PushSubscribe => (Group::Push, 1),
        Handler::PushUnsubscribe => (Group::Push, 2),
        Handler::NotificationList => (Group::Notification, 0),
        Handler::NotificationUnread => (Group::Notification, 1),
        Handler::NotificationUnreadCount => (Group::Notification, 2),
        Handler::NotificationMarkRead => (Group::Notification, 3),
        Handler::NotificationMarkAllRead => (Group::Notification, 4),
        Handler::TenantList => (Group::Tenant, 0),
        Handler::TenantCreate => (Group::Tenant, 1),
        Handler::TenantGet => (Group::Tenant, 2),
        Handler::UserListMembers => (Group::Member, 0),
        Handler::InviteAddMember => (Group::Member, 1),
        Handler::RoleList => (Group::Role, 0),
        Handler::RoleCreate => (Group::Role, 1),
        Handler::RoleUpdate => (Group::Role, 2),
        Handler::RoleDelete => (Group::Role, 3),
        Handler::RoleAssign => (Group::Role, 4),
        Handler::RoleUnassign => (Group::Role, 5),
        Handler::InviteListInvites => (Group::TenantInvite, 0),
        Handler::InviteCreateInvite => (Group::TenantInvite, 1),
        Handler::InviteBatchCreateInvite => (Group::TenantInvite, 2),
        Handler::InviteRevokeInvite => (Group::TenantInvite, 3),
        Handler::SearchSearch => (Group::Search, 0),
        Handler::RoomList => (Group::Room, 0),
        Handler::RoomCreate => (Group::Room, 1),
        Handler::RoomExplore => (Group::Room, 2),
        Handler::RoomGet => (Group::Room, 3),
        Handler::RoomUpdate => (Group::Room, 4),
        Handler::RoomDelete => (Group::Room, 5),
        Handler::RoomJoin => (Group::Room, 6),
        Handler::RoomLeave => (Group::Room, 7),
        Handler::RoomMembers => (Group::Room, 8),
        Handler::RoomCallStart => (Group::Room, 9),
        Handler::RoomCallJoin => (Group::Room, 10),
        Handler::RoomCallLeave => (Group::Room, 11),
        Handler::RoomCallEnd => (Group::Room, 12),
        Handler::RoomParticipants => (Group::Room, 13),
        Handler::RoomCallMessages => (Group::Room, 14),
        Handler::RoomCreateCallMessage => (Group::Room, 15),
        Handler::MessageList => (Group::Message, 0),
        Handler::MessageCreate => (Group::Message, 1),
        Handler::MessagePinned => (Group::Message, 2),
        Handler::MessageUpdate => (Group::Message, 3),
        Handler::MessageDelete => (Group::Message, 4),
        Handler::MessageTogglePin => (Group::Message, 5),
        Handler::MessageThreadReplies => (Group::Message, 6),
        Handler::ReactionAdd => (Group::Message, 7),
        Handler::ReactionRemove => (Group::Message, 8),
        Handler::MessageMarkRead => (Group::Message, 9),
        Handler::MessageUnreadCount => (Group::Message, 10),
        Handler::RecordingList => (Group::Recording, 0),
        Handler::RecordingCreate => (Group::Recording, 1),
        Handler::RecordingDelete => (Group::Recording, 2),
        Handler::FileList => (Group::RoomFile, 0),
        Handler::FileUploadRoom => (Group::RoomFile, 1),
        Handler::FileListTenantFiles => (Group::FileById, 0),
        Handler::FileUpload => (Group::FileById, 1),
        Handler::FileGet => (Group::FileById, 2),
        Handler::FileDownload => (Group::FileById, 3),
        Handler::FileDelete => (Group::FileById, 4),
        Handler::IntegrationRecognizeFile => (Group::FileById, 5),
        Handler::BackgroundTaskList => (Group::Task, 0),
        Handler::BackgroundTaskGet => (Group::Task, 1),
        Handler::BackgroundTaskDownload => (Group::Task, 2),
        Handler::ExportExportConversation => (Group::Export, 0),
        Handler::IntegrationExportConversationPdf => (Group::Export, 1),
    }
}

/// The seat of the route's handler is the route, and the method fits.
spec fn in_place(g: Group, i: int) -> bool {
    let (m, _, h) = routes_of(g)[i];
    &&& h != Handler::AuthMe ==> seat(h) == (g, i)
    &&& h == Handler::AuthMe ==> g == Group::Auth && (i == 5 || i == 6)
    &&& m == Method::Delete <==> takes_away(h)
    &&& m == Method::Post <==> makes(h)
    &&& h != Handler::AuthMe ==> (m == Method::Put <==> changes(h))
}

proof fn lemma_auth_seats(i: int)
    requires
        0 <= i < routes_of(Group::Auth).len(),
    ensures
        in_place(Group::Auth, i),
{
    assert(i == 0 || i == 1 || i == 2 || i == 3 || i == 4 || i == 5 || i == 6);
}

proof fn lemma_user_seats(i: int)
    requires
        0 <= i < routes_of(Group::User).len(),
    ensures
        in_place(Group::User, i),
{
    assert(i == 0 || i == 1);
}

proof fn lemma_oauth_seats(i: int)
    requires
        0 <= i < routes_of(Group::Oauth).len(),
    ensures
        in_place(Group::Oauth, i),
{
    assert(i == 0 || i == 1);
}

proof fn lemma_stripe_seats(i: int)
    requires
        0 <= i < routes_of(Group::Stripe).len(),
    ensures
        in_place(Group::Stripe, i),
{
    assert(i == 0 || i == 1 || i == 2 || i == 3);
}

proof fn lemma_public_invite_seats(i: int)
    requires
        0 <= i < routes_of(Group::PublicInvite).len(),
    ensures
        in_place(Group::PublicInvite, i),
{
    assert(i == 0 || i == 1);
}

proof fn lemma_giphy_seats(i: int)
    requires
        0 <= i < routes_of(Group::Giphy).len(),
    ensures
        in_place(Group::Giphy, i),
{
    assert(i == 0 || i == 1);
}

proof fn lemma_push_seats(i: int)
    requires
        0 <= i < routes_of(Group::Push).len(),
    ensures
        in_place(Group::Push, i),
{
    assert(i == 0 || i == 1 || i == 2);
}

proof fn lemma_notification_seats(i: int)
    requires
        0 <= i < routes_of(Group::Notification).len(),
    ensures
        in_place(Group::Notification, i),
{
    assert(i == 0 || i == 1 || i == 2 || i == 3 || i == 4);
}

proof fn lemma_tenant_seats(i: int)
    requires
        0 <= i < routes_of(Group::Tenant).len(),
    ensures
        in_place(Group::Tenant, i),
{
    assert(i == 0 || i == 1 || i == 2);
}

proof fn lemma_member_seats(i: int)
    requires
        0 <= i < routes_of(Group::Member).len(),
    ensures
        in_place(Group::Member, i),
{
    assert(i == 0 || i == 1);
}

proof fn lemma_role_seats(i: int)
    requires
        0 <= i < routes_of(Group::Role).len(),
    ensures
        in_place(Group::Role, i),
{
    assert(i == 0 || i == 1 || i == 2 || i == 3 || i == 4 || i == 5);
}

proof fn lemma_tenant_invite_seats(i: int)
    requires
        0 <= i < routes_of(Group::TenantInvite).len(),
    ensures
        in_place(Group::TenantInvite, i),
{
    assert(i == 0 || i == 1 || i == 2 || i == 3);
}

proof fn lemma_search_seats(i: int)
    requires
        0 <= i < routes_of(Group::Search).len(),
    ensures
        in_place(Group::Search, i),
{
    assert(i == 0);
}

proof fn lemma_room_seats(i: int)
    requires
        0 <= i < routes_of(Group::Room).len(),
    ensures
        in_place(Group::Room, i),
{
    assert(i == 0 || i == 1 || i == 2 || i == 3 || i == 4 || i == 5 || i == 6 || i == 7
        || i == 8 || i == 9 || i == 10 || i == 11 || i == 12 || i == 13 || i == 14 || i == 15);
}

proof fn lemma_message_seats(i: int)
    requires
        0 <= i < routes_of(Group::Message).len(),
    ensures
        in_place(Group::Message, i),
{
    assert(i == 0 || i == 1 || i == 2 || i == 3 || i == 4 || i == 5 || i == 6 || i == 7
        || i == 8 || i == 9 || i == 10);
}

proof fn lemma_recording_seats(i: int)
    requires
        0 <= i < routes_of(Group::Recording).len(),
    ensures
        in_place(Group::Recording, i),
{
    assert(i == 0 || i == 1 || i == 2);
}

proof fn lemma_room_file_seats(i: int)
    requires
        0 <= i < routes_of(Group::RoomFile).len(),
    ensures
        in_place(Group::RoomFile, i),
{
    assert(i == 0 || i == 1);
}

proof fn lemma_file_by_id_seats(i: int)
    requires
        0 <= i < routes_of(Group::FileById).len(),
    ensures
        in_place(Group::FileById, i),
{
    assert(i == 0 || i == 1 || i == 2 || i == 3 || i == 4 || i == 5);
}

proof fn lemma_task_seats(i: int)
    requires
        0 <= i < routes_of(Group::Task).len(),
    ensures
        in_place(Group::Task, i),
{
    assert(i == 0 || i == 1 || i == 2);
}

proof fn lemma_export_seats(i: int)
    requires
        0 <= i < routes_of(Group::Export).len(),
    ensures
        in_place(Group::Export, i),
{
    assert(i == 0 || i == 1);
}

proof fn lemma_seats(g: Group, i: int)
    requires
        0 <= i < routes_of(g).len(),
    ensures
        in_place(g, i),
{
    match g {
        Group::Auth => lemma_auth_seats(i),
        Group::User => lemma_user_seats(i),
        Group::Oauth => lemma_oauth_seats(i),
        Group::Stripe => lemma_stripe_seats(i),
        Group::PublicInvite => lemma_public_invite_seats(i),
        Group::Giphy => lemma_giphy_seats(i),
        Group::Push => lemma_push_seats(i),
        Group::Notification => lemma_notification_seats(i),
        Group::Tenant => lemma_tenant_seats(i),
        Group::Member => lemma_member_seats(i),
        Group::Role => lemma_role_seats(i),
        Group::TenantInvite => lemma_tenant_invite_seats(i),
        Group::Search => lemma_search_seats(i),
        Group::Room => lemma_room_seats(i),
        Group::Message => lemma_message_seats(i),
        Group::Recording => lemma_recording_seats(i),
        Group::RoomFile => lemma_room_file_seats(i),
        Group::FileById => lemma_file_by_id_seats(i),
        Group::Task => lemma_task_seats(i),
        Group::Export => lemma_export_seats(i),
    }
}

/// DELETE takes something away and nothing else does, PUT changes what is
/// there, POST makes something or has something done, and GET does none of
/// these; one's own account is read and changed through one handler.
pub proof fn methods_fit_their_handlers(method: Method, path: Seq<char>, handler: Handler)
    requires
        reaches(method, path, handler),
    ensures
        method == Method::Delete <==> takes_away(handler),
        method == Method::Post <==> makes(handler),
        handler != Handler::AuthMe ==> (method == Method::Put <==> changes(handler)),
        method == Method::Get ==> !takes_away(handler) && !makes(handler) && !changes(handler),
        handler == Handler::AuthMe ==> method == Method::Get || method == Method::Put,
{
    let (g, i) = choose|g: Group, i: int|
        0 <= i < routes_of(g).len() && #[trigger] routes_of(g)[i] == (
            method,
            routes_of(g)[i].1,
            handler,
        ) && path == spec_prefix(g)@ + routes_of(g)[i].1;
    lemma_seats(g, i);
    if handler == Handler::AuthMe {
        assert(routes_of(Group::Auth)[5].0 == Method::Get);
        assert(routes_of(Group::Auth)[6].0 == Method::Put);
    }
}

proof fn lemma_reached(g: Group, i: int)
    requires
        0 <= i < routes_of(g).len(),
    ensures
        ({
            let (m, p, h) = routes_of(g)[i];
            h != Handler::AuthMe ==> forall|method: Method, path: Seq<char>|
                #[trigger] reaches(method, path, h) <==> method == m && path == spec_prefix(g)@ + p
        }),
{
    let (m, p, h) = routes_of(g)[i];
    if h != Handler::AuthMe {
        lemma_seats(g, i);
        assert(routes_of(g)[i] == (m, routes_of(g)[i].1, h));
        assert forall|method: Method, path: Seq<char>| #[trigger]
            reaches(method, path, h) implies method == m && path == spec_prefix(g)@ + p by {
            let (k, j) = choose|k: Group, j: int|
                0 <= j < routes_of(k).len() && #[trigger] routes_of(k)[j] == (
                    method,
                    routes_of(k)[j].1,
                    h,
                ) && path == spec_prefix(k)@ + routes_of(k)[j].1;
            lemma_seats(k, j);
        }
    }
}

/// Accounts: each handler is reached by one method on one path, and by no other
/// request.
pub proof fn auth_requests(method: Method, path: Seq<char>)
    ensures
        reaches(method, path, Handler::AuthRegister) <==> method == Method::Post && path
            == "/auth/register"@,
        reaches(method, path, Handler::AuthLogin) <==> method == Method::Post && path
            == "/auth/login"@,
        reaches(method, path, Handler::AuthLogout) <==> method == Method::Post && path
            == "/auth/logout"@,
        reaches(method, path, Handler::AuthRefresh) <==> method == Method::Post && path
            == "/auth/refresh"@,
        reaches(method, path, Handler::AuthActivate) <==> method == Method::Post && path
            == "/auth/activate"@,
        reaches(method, path, Handler::AuthMe) <==> (method == Method::Get || method == Method::Put)
            && path == "/auth/me"@,
{
    reveal_strlit("/auth");
    reveal_strlit("/activate");
    reveal_strlit("/auth/activate");
    assert("/auth"@ + "/activate"@ =~= "/auth/activate"@);
    reveal_strlit("/login");
    reveal_strlit("/auth/login");
    assert("/auth"@ + "/login"@ =~= "/auth/login"@);
    reveal_strlit("/logout");
    reveal_strlit("/auth/logout");
    assert("/auth"@ + "/logout"@ =~= "/auth/logout"@);
    reveal_strlit("/me");
    reveal_strlit("/auth/me");
    assert("/auth"@ + "/me"@ =~= "/auth/me"@);
    reveal_strlit("/refresh");
    reveal_strlit("/auth/refresh");
    assert("/auth"@ + "/refresh"@ =~= "/auth/refresh"@);
    reveal_strlit("/register");
    reveal_strlit("/auth/register");
    assert("/auth"@ + "/register"@ =~= "/auth/register"@);
    lemma_reached(Group::Auth, 0);
    lemma_reached(Group::Auth, 1);
    lemma_reached(Group::Auth, 2);
    lemma_reached(Group::Auth, 3);
    lemma_reached(Group::Auth, 4);
    assert(routes_of(Group::Auth)[5] == (Method::Get, "/me"@, Handler::AuthMe));
    assert(routes_of(Group::Auth)[6] == (Method::Put, "/me"@, Handler::AuthMe));
    if reaches(method, path, Handler::AuthMe) {
        let (g, i) = choose|g: Group, i: int|
            0 <= i < routes_of(g).len() && #[trigger] routes_of(g)[i] == (
                method,
                routes_of(g)[i].1,
                Handler::AuthMe,
            ) && path == spec_prefix(g)@ + routes_of(g)[i].1;
        lemma_seats(g, i);
    }
}

/// Profiles: each handler is reached by one method on one path, and by no other
/// request.
pub proof fn user_requests(method: Method, path: Seq<char>)
    ensures
        reaches(method, path, Handler::UserUpdateProfile) <==> method == Method::Put && path
            == "/user/me"@,
        reaches(method, path, Handler::UserGetProfile) <==> method == Method::Get && path
            == "/user/{user_id}"@,
{
    reveal_strlit("/user");
    reveal_strlit("/me");
    reveal_strlit("/user/me");
    assert("/user"@ + "/me"@ =~= "/user/me"@);
    reveal_strlit("/{user_id}");
    reveal_strlit("/user/{user_id}");
    assert("/user"@ + "/{user_id}"@ =~= "/user/{user_id}"@);
    lemma_reached(Group::User, 0);
    lemma_reached(Group::User, 1);
}

/// Signing in elsewhere: each handler is reached by one method on one path, and by no other
/// request.
pub proof fn oauth_requests(method: Method, path: Seq<char>)
    ensures
        reaches(method, path, Handler::OauthOauthRedirect) <==> method == Method::Get && path
            == "/oauth/{provider}"@,
        reaches(method, path, Handler::OauthOauthCallback) <==> method == Method::Get && path
            == "/oauth/callback/{provider}"@,
{
    reveal_strlit("/oauth");
    reveal_strlit("/callback/{provider}");
    reveal_strlit("/oauth/callback/{provider}");
    assert("/oauth"@ + "/callback/{provider}"@ =~= "/oauth/callback/{provider}"@);
    reveal_strlit("/{provider}");
    reveal_strlit("/oauth/{provider}");
    assert("/oauth"@ + "/{provider}"@ =~= "/oauth/{provider}"@);
    lemma_reached(Group::Oauth, 0);
    lemma_reached(Group::Oauth, 1);
}

/// Billing: each handler is reached by one method on one path, and by no other
/// request.
pub proof fn stripe_requests(method: Method, path: Seq<char>)
    ensures
        reaches(method, path, Handler::StripeGetPlans) <==> method == Method::Get && path
            == "/stripe/plans"@,
        reaches(method, path, Handler::StripeCreateCheckout) <==> method == Method::Post && path
            == "/stripe/checkout"@,
        reaches(method, path, Handler::StripeCreatePortal) <==> method == Method::Post && path
            == "/stripe/portal"@,
        reaches(method, path, Handler::StripeWebhook) <==> method == Method::Post && path
            == "/stripe/webhook"@,
{
    reveal_strlit("/stripe");
    reveal_strlit("/checkout");
    reveal_strlit("/stripe/checkout");
    assert("/stripe"@ + "/checkout"@ =~= "/stripe/checkout"@);
    reveal_strlit("/plans");
    reveal_strlit("/stripe/plans");
    assert("/stripe"@ + "/plans"@ =~= "/stripe/plans"@);
    reveal_strlit("/portal");
    reveal_strlit("/stripe/portal");
    assert("/stripe"@ + "/portal"@ =~= "/stripe/portal"@);
    reveal_strlit("/webhook");
    reveal_strlit("/stripe/webhook");
    assert("/stripe"@ + "/webhook"@ =~= "/stripe/webhook"@);
    lemma_reached(Group::Stripe, 0);
    lemma_reached(Group::Stripe, 1);
    lemma_reached(Group::Stripe, 2);
    lemma_reached(Group::Stripe, 3);
}

/// Invitations that one has: each handler is reached by one method on one path, and by no other
/// request.
pub proof fn public_invite_requests(method: Method, path: Seq<char>)
    ensures
        reaches(method, path, Handler::InviteGetInviteInfo) <==> method == Method::Get && path
            == "/invite/{code}"@,
        reaches(method, path, Handler::InviteAcceptInvite) <==> method == Method::Post && path
            == "/invite/{code}/accept"@,
{
    reveal_strlit("/invite");
    reveal_strlit("/{code}");
    reveal_strlit("/invite/{code}");
    assert("/invite"@ + "/{code}"@ =~= "/invite/{code}"@);
    reveal_strlit("/{code}/accept");
    reveal_strlit("/invite/{code}/accept");
    assert("/invite"@ + "/{code}/accept"@ =~= "/invite/{code}/accept"@);
    lemma_reached(Group::PublicInvite, 0);
    lemma_reached(Group::PublicInvite, 1);
}

/// Pictures: each handler is reached by one method on one path, and by no other
/// request.
pub proof fn giphy_requests(method: Method, path: Seq<char>)
    ensures
        reaches(method, path, Handler::GiphySearch) <==> method == Method::Get && path
            == "/giphy/search"@,
        reaches(method, path, Handler::GiphyTrending) <==> method == Method::Get && path
            == "/giphy/trending"@,
{
    reveal_strlit("/giphy");
    reveal_strlit("/search");
    reveal_strlit("/giphy/search");
    assert("/giphy"@ + "/search"@ =~= "/giphy/search"@);
    reveal_strlit("/trending");
    reveal_strlit("/giphy/trending");
    assert("/giphy"@ + "/trending"@ =~= "/giphy/trending"@);
    lemma_reached(Group::Giphy, 0);
    lemma_reached(Group::Giphy, 1);
}

/// Push notices: each handler is reached by one method on one path, and by no other
/// request.
pub proof fn push_requests(method: Method, path: Seq<char>)
    ensures
        reaches(method, path, Handler::PushConfig) <==> method == Method::Get && path
            == "/push/config"@,
        reaches(method, path, Handler::PushSubscribe) <==> method == Method::Post && path
            == "/push/subscribe"@,
        reaches(method, path, Handler::PushUnsubscribe) <==> method == Method::Post && path
            == "/push/unsubscribe"@,
{
    reveal_strlit("/push");
    reveal_strlit("/config");
    reveal_strlit("/push/config");
    assert("/push"@ + "/config"@ =~= "/push/config"@);
    reveal_strlit("/subscribe");
    reveal_strlit("/push/subscribe");
    assert("/push"@ + "/subscribe"@ =~= "/push/subscribe"@);
    reveal_strlit("/unsubscribe");
    reveal_strlit("/push/unsubscribe");
    assert("/push"@ + "/unsubscribe"@ =~= "/push/unsubscribe"@);
    lemma_reached(Group::Push, 0);
    lemma_reached(Group::Push, 1);
    lemma_reached(Group::Push, 2);
}

/// Notices: each handler is reached by one method on one path, and by no other
/// request.
pub proof fn notification_requests(method: Method, path: Seq<char>)
    ensures
        reaches(method, path, Handler::NotificationList) <==> method == Method::Get && path
            == "/notification/"@,
        reaches(method, path, Handler::NotificationUnread) <==> method == Method::Get && path
            == "/notification/unread"@,
        reaches(method, path, Handler::NotificationUnreadCount) <==> method == Method::Get && path
            == "/notification/unread-count"@,
        reaches(method, path, Handler::NotificationMarkRead) <==> method == Method::Put && path
            == "/notification/{notification_id}/read"@,
        reaches(method, path, Handler::NotificationMarkAllRead) <==> method == Method::Post && path
            == "/notification/read-all"@,
{
    reveal_strlit("/notification");
    reveal_strlit("/");
    reveal_strlit("/notification/");
    assert("/notification"@ + "/"@ =~= "/notification/"@);
    reveal_strlit("/read-all");
    reveal_strlit("/notification/read-all");
    assert("/notification"@ + "/read-all"@ =~= "/notification/read-all"@);
    reveal_strlit("/unread");
    reveal_strlit("/notification/unread");
    assert("/notification"@ + "/unread"@ =~= "/notification/unread"@);
    reveal_strlit("/unread-count");
    reveal_strlit("/notification/unread-count");
    assert("/notification"@ + "/unread-count"@ =~= "/notification/unread-count"@);
    reveal_strlit("/{notification_id}/read");
    reveal_strlit("/notification/{notification_id}/read");
    assert("/notification"@ + "/{notification_id}/read"@ =~= "/notification/{notification_id}/read"@);
    lemma_reached(Group::Notification, 0);
    lemma_reached(Group::Notification, 1);
    lemma_reached(Group::Notification, 2);
    lemma_reached(Group::Notification, 3);
    lemma_reached(Group::Notification, 4);
}

/// Tenants: each handler is reached by one method on one path, and by no other
/// request.
pub proof fn tenant_requests(method: Method, path: Seq<char>)
    ensures
        reaches(method, path, Handler::TenantList) <==> method == Method::Get && path
            == "/tenant/"@,
        reaches(method, path, Handler::TenantCreate) <==> method == Method::Post && path
            == "/tenant/"@,
        reaches(method, path, Handler::TenantGet) <==> method == Method::Get && path
            == "/tenant/{tenant_id}"@,
{
    reveal_strlit("/tenant");
    reveal_strlit("/");
    reveal_strlit("/tenant/");
    assert("/tenant"@ + "/"@ =~= "/tenant/"@);
    reveal_strlit("/{tenant_id}");
    reveal_strlit("/tenant/{tenant_id}");
    assert("/tenant"@ + "/{tenant_id}"@ =~= "/tenant/{tenant_id}"@);
    lemma_reached(Group::Tenant, 0);
    lemma_reached(Group::Tenant, 1);
    lemma_reached(Group::Tenant, 2);
}

/// The members of a tenant: each handler is reached by one method on one path, and by no other
/// request.
pub proof fn member_requests(method: Method, path: Seq<char>)
    ensures
        reaches(method, path, Handler::UserListMembers) <==> method == Method::Get && path
            == "/tenant/{tenant_id}/member/"@,
        reaches(method, path, Handler::InviteAddMember) <==> method == Method::Post && path
            == "/tenant/{tenant_id}/member/"@,
{
    reveal_strlit("/tenant/{tenant_id}/member");
    reveal_strlit("/");
    reveal_strlit("/tenant/{tenant_id}/member/");
    assert("/tenant/{tenant_id}/member"@ + "/"@ =~= "/tenant/{tenant_id}/member/"@);
    lemma_reached(Group::Member, 0);
    lemma_reached(Group::Member, 1);
}

/// Roles: each handler is reached by one method on one path, and by no other
/// request.
pub proof fn role_requests(method: Method, path: Seq<char>)
    ensures
        reaches(method, path, Handler::RoleList) <==> method == Method::Get && path
            == "/tenant/{tenant_id}/role/"@,
        reaches(method, path, Handler::RoleCreate) <==> method == Method::Post && path
            == "/tenant/{tenant_id}/role/"@,
        reaches(method, path, Handler::RoleUpdate) <==> method == Method::Put && path
            == "/tenant/{tenant_id}/role/{role_id}"@,
        reaches(method, path, Handler::RoleDelete) <==> method == Method::Delete && path
            == "/tenant/{tenant_id}/role/{role_id}"@,
        reaches(method, path, Handler::RoleAssign) <==> method == Method::Post && path
            == "/tenant/{tenant_id}/role/{role_id}/assign/{user_id}"@,
        reaches(method, path, Handler::RoleUnassign) <==> method == Method::Delete && path
            == "/tenant/{tenant_id}/role/{role_id}/assign/{user_id}"@,
{
    reveal_strlit("/tenant/{tenant_id}/role");
    reveal_strlit("/");
    reveal_strlit("/tenant/{tenant_id}/role/");
    assert("/tenant/{tenant_id}/role"@ + "/"@ =~= "/tenant/{tenant_id}/role/"@);
    reveal_strlit("/{role_id}");
    reveal_strlit("/tenant/{tenant_id}/role/{role_id}");
    assert("/tenant/{tenant_id}/role"@ + "/{role_id}"@ =~= "/tenant/{tenant_id}/role/{role_id}"@);
    reveal_strlit("/{role_id}/assign/{user_id}");
    reveal_strlit("/tenant/{tenant_id}/role/{role_id}/assign/{user_id}");
    assert("/tenant/{tenant_id}/role"@ + "/{role_id}/assign/{user_id}"@ =~= "/tenant/{tenant_id}/role/{role_id}/assign/{user_id}"@);
    lemma_reached(Group::Role, 0);
    lemma_reached(Group::Role, 1);
    lemma_reached(Group::Role, 2);
    lemma_reached(Group::Role, 3);
    lemma_reached(Group::Role, 4);
    lemma_reached(Group::Role, 5);
}

/// The invitations of a tenant: each handler is reached by one method on one path, and by no other
/// request.
pub proof fn tenant_invite_requests(method: Method, path: Seq<char>)
    ensures
        reaches(method, path, Handler::InviteListInvites) <==> method == Method::Get && path
            == "/tenant/{tenant_id}/invite/"@,
        reaches(method, path, Handler::InviteCreateInvite) <==> method == Method::Post && path
            == "/tenant/{tenant_id}/invite/"@,
        reaches(method, path, Handler::InviteBatchCreateInvite) <==> method == Method::Post && path
            == "/tenant/{tenant_id}/invite/batch"@,
        reaches(method, path, Handler::InviteRevokeInvite) <==> method == Method::Delete && path
            == "/tenant/{tenant_id}/invite/{invite_id}"@,
{
    reveal_strlit("/tenant/{tenant_id}/invite");
    reveal_strlit("/");
    reveal_strlit("/tenant/{tenant_id}/invite/");
    assert("/tenant/{tenant_id}/invite"@ + "/"@ =~= "/tenant/{tenant_id}/invite/"@);
    reveal_strlit("/batch");
    reveal_strlit("/tenant/{tenant_id}/invite/batch");
    assert("/tenant/{tenant_id}/invite"@ + "/batch"@ =~= "/tenant/{tenant_id}/invite/batch"@);
    reveal_strlit("/{invite_id}");
    reveal_strlit("/tenant/{tenant_id}/invite/{invite_id}");
    assert("/tenant/{tenant_id}/invite"@ + "/{invite_id}"@ =~= "/tenant/{tenant_id}/invite/{invite_id}"@);
    lemma_reached(Group::TenantInvite, 0);
    lemma_reached(Group::TenantInvite, 1);
    lemma_reached(Group::TenantInvite, 2);
    lemma_reached(Group::TenantInvite, 3);
}

/// Searching a tenant: each handler is reached by one method on one path, and by no other
/// request.
pub proof fn search_requests(method: Method, path: Seq<char>)
    ensures
        reaches(method, path, Handler::SearchSearch) <==> method == Method::Get && path
            == "/tenant/{tenant_id}/search/"@,
{
    reveal_strlit("/tenant/{tenant_id}/search");
    reveal_strlit("/");
    reveal_strlit("/tenant/{tenant_id}/search/");
    assert("/tenant/{tenant_id}/search"@ + "/"@ =~= "/tenant/{tenant_id}/search/"@);
    lemma_reached(Group::Search, 0);
}

/// Rooms and their calls: each handler is reached by one method on one path, and by no other
/// request.
pub proof fn room_requests(method: Method, path: Seq<char>)
    ensures
        reaches(method, path, Handler::RoomList) <==> method == Method::Get && path
            == "/tenant/{tenant_id}/room/"@,
        reaches(method, path, Handler::RoomCreate) <==> method == Method::Post && path
            == "/tenant/{tenant_id}/room/"@,
        reaches(method, path, Handler::RoomExplore) <==> method == Method::Get && path
            == "/tenant/{tenant_id}/room/explore"@,
        reaches(method, path, Handler::RoomGet) <==> method == Method::Get && path
            == "/tenant/{tenant_id}/room/{room_id}"@,
        reaches(method, path, Handler::RoomUpdate) <==> method == Method::Put && path
            == "/tenant/{tenant_id}/room/{room_id}"@,
        reaches(method, path, Handler::RoomDelete) <==> method == Method::Delete && path
            == "/tenant/{tenant_id}/room/{room_id}"@,
        reaches(method, path, Handler::RoomJoin) <==> method == Method::Post && path
            == "/tenant/{tenant_id}/room/{room_id}/join"@,
        reaches(method, path, Handler::RoomLeave) <==> method == Method::Post && path
            == "/tenant/{tenant_id}/room/{room_id}/leave"@,
        reaches(method, path, Handler::RoomMembers) <==> method == Method::Get && path
            == "/tenant/{tenant_id}/room/{room_id}/member"@,
        reaches(method, path, Handler::RoomCallStart) <==> method == Method::Post && path
            == "/tenant/{tenant_id}/room/{room_id}/call/start"@,
        reaches(method, path, Handler::RoomCallJoin) <==> method == Method::Post && path
            == "/tenant/{tenant_id}/room/{room_id}/call/join"@,
        reaches(method, path, Handler::RoomCallLeave) <==> method == Method::Post && path
            == "/tenant/{tenant_id}/room/{room_id}/call/leave"@,
        reaches(method, path, Handler::RoomCallEnd) <==> method == Method::Post && path
            == "/tenant/{tenant_id}/room/{room_id}/call/end"@,
        reaches(method, path, Handler::RoomParticipants) <==> method == Method::Get && path
            == "/tenant/{tenant_id}/room/{room_id}/call/participant"@,
        reaches(method, path, Handler::RoomCallMessages) <==> method == Method::Get && path
            == "/tenant/{tenant_id}/room/{room_id}/call/message"@,
        reaches(method, path, Handler::RoomCreateCallMessage) <==> method == Method::Post && path
            == "/tenant/{tenant_id}/room/{room_id}/call/message"@,
{
    reveal_strlit("/tenant/{tenant_id}/room");
    reveal_strlit("/");
    reveal_strlit("/tenant/{tenant_id}/room/");
    assert("/tenant/{tenant_id}/room"@ + "/"@ =~= "/tenant/{tenant_id}/room/"@);
    reveal_strlit("/explore");
    reveal_strlit("/tenant/{tenant_id}/room/explore");
    assert("/tenant/{tenant_id}/room"@ + "/explore"@ =~= "/tenant/{tenant_id}/room/explore"@);
    reveal_strlit("/{room_id}");
    reveal_strlit("/tenant/{tenant_id}/room/{room_id}");
    assert("/tenant/{tenant_id}/room"@ + "/{room_id}"@ =~= "/tenant/{tenant_id}/room/{room_id}"@);
    reveal_strlit("/{room_id}/call/end");
    reveal_strlit("/tenant/{tenant_id}/room/{room_id}/call/end");
    assert("/tenant/{tenant_id}/room"@ + "/{room_id}/call/end"@ =~= "/tenant/{tenant_id}/room/{room_id}/call/end"@);
    reveal_strlit("/{room_id}/call/join");
    reveal_strlit("/tenant/{tenant_id}/room/{room_id}/call/join");
    assert("/tenant/{tenant_id}/room"@ + "/{room_id}/call/join"@ =~= "/tenant/{tenant_id}/room/{room_id}/call/join"@);
    reveal_strlit("/{room_id}/call/leave");
    reveal_strlit("/tenant/{tenant_id}/room/{room_id}/call/leave");
    assert("/tenant/{tenant_id}/room"@ + "/{room_id}/call/leave"@ =~= "/tenant/{tenant_id}/room/{room_id}/call/leave"@);
    reveal_strlit("/{room_id}/call/message");
    reveal_strlit("/tenant/{tenant_id}/room/{room_id}/call/message");
    assert("/tenant/{tenant_id}/room"@ + "/{room_id}/call/message"@ =~= "/tenant/{tenant_id}/room/{room_id}/call/message"@);
    reveal_strlit("/{room_id}/call/participant");
    reveal_strlit("/tenant/{tenant_id}/room/{room_id}/call/participant");
    assert("/tenant/{tenant_id}/room"@ + "/{room_id}/call/participant"@ =~= "/tenant/{tenant_id}/room/{room_id}/call/participant"@);
    reveal_strlit("/{room_id}/call/start");
    reveal_strlit("/tenant/{tenant_id}/room/{room_id}/call/start");
    assert("/tenant/{tenant_id}/room"@ + "/{room_id}/call/start"@ =~= "/tenant/{tenant_id}/room/{room_id}/call/start"@);
    reveal_strlit("/{room_id}/join");
    reveal_strlit("/tenant/{tenant_id}/room/{room_id}/join");
    assert("/tenant/{tenant_id}/room"@ + "/{room_id}/join"@ =~= "/tenant/{tenant_id}/room/{room_id}/join"@);
    reveal_strlit("/{room_id}/leave");
    reveal_strlit("/tenant/{tenant_id}/room/{room_id}/leave");
    assert("/tenant/{tenant_id}/room"@ + "/{room_id}/leave"@ =~= "/tenant/{tenant_id}/room/{room_id}/leave"@);
    reveal_strlit("/{room_id}/member");
    reveal_strlit("/tenant/{tenant_id}/room/{room_id}/member");
    assert("/tenant/{tenant_id}/room"@ + "/{room_id}/member"@ =~= "/tenant/{tenant_id}/room/{room_id}/member"@);
    lemma_reached(Group::Room, 0);
    lemma_reached(Group::Room, 1);
    lemma_reached(Group::Room, 2);
    lemma_reached(Group::Room, 3);
    lemma_reached(Group::Room, 4);
    lemma_reached(Group::Room, 5);
    lemma_reached(Group::Room, 6);
    lemma_reached(Group::Room, 7);
    lemma_reached(Group::Room, 8);
    lemma_reached(Group::Room, 9);
    lemma_reached(Group::Room, 10);
    lemma_reached(Group::Room, 11);
    lemma_reached(Group::Room, 12);
    lemma_reached(Group::Room, 13);
    lemma_reached(Group::Room, 14);
    lemma_reached(Group::Room, 15);
}

/// Messages and reactions: each handler is reached by one method on one path, and by no other
/// request.
pub proof fn message_requests(method: Method, path: Seq<char>)
    ensures
        reaches(method, path, Handler::MessageList) <==> method == Method::Get && path
            == "/tenant/{tenant_id}/room/{room_id}/message/"@,
        reaches(method, path, Handler::MessageCreate) <==> method == Method::Post && path
            == "/tenant/{tenant_id}/room/{room_id}/message/"@,
        reaches(method, path, Handler::MessagePinned) <==> method == Method::Get && path
            == "/tenant/{tenant_id}/room/{room_id}/message/pin"@,
        reaches(method, path, Handler::MessageUpdate) <==> method == Method::Put && path
            == "/tenant/{tenant_id}/room/{room_id}/message/{message_id}"@,
        reaches(method, path, Handler::MessageDelete) <==> method == Method::Delete && path
            == "/tenant/{tenant_id}/room/{room_id}/message/{message_id}"@,
        reaches(method, path, Handler::MessageTogglePin) <==> method == Method::Put && path
            == "/tenant/{tenant_id}/room/{room_id}/message/{message_id}/pin"@,
        reaches(method, path, Handler::MessageThreadReplies) <==> method == Method::Get && path
            == "/tenant/{tenant_id}/room/{room_id}/message/{message_id}/thread"@,
        reaches(method, path, Handler::ReactionAdd) <==> method == Method::Post && path
            == "/tenant/{tenant_id}/room/{room_id}/message/{message_id}/reaction"@,
        reaches(method, path, Handler::ReactionRemove) <==> method == Method::Delete && path
            == "/tenant/{tenant_id}/room/{room_id}/message/{message_id}/reaction/{emoji}"@,
        reaches(method, path, Handler::MessageMarkRead) <==> method == Method::Post && path
            == "/tenant/{tenant_id}/room/{room_id}/message/read"@,
        reaches(method, path, Handler::MessageUnreadCount) <==> method == Method::Get && path
            == "/tenant/{tenant_id}/room/{room_id}/message/unread-count"@,
{
    reveal_strlit("/tenant/{tenant_id}/room/{room_id}/message");
    reveal_strlit("/");
    reveal_strlit("/tenant/{tenant_id}/room/{room_id}/message/");
    assert("/tenant/{tenant_id}/room/{room_id}/message"@ + "/"@ =~= "/tenant/{tenant_id}/room/{room_id}/message/"@);
    reveal_strlit("/pin");
    reveal_strlit("/tenant/{tenant_id}/room/{room_id}/message/pin");
    assert("/tenant/{tenant_id}/room/{room_id}/message"@ + "/pin"@ =~= "/tenant/{tenant_id}/room/{room_id}/message/pin"@);
    reveal_strlit("/read");
    reveal_strlit("/tenant/{tenant_id}/room/{room_id}/message/read");
    assert("/tenant/{tenant_id}/room/{room_id}/message"@ + "/read"@ =~= "/tenant/{tenant_id}/room/{room_id}/message/read"@);
    reveal_strlit("/unread-count");
    reveal_strlit("/tenant/{tenant_id}/room/{room_id}/message/unread-count");
    assert("/tenant/{tenant_id}/room/{room_id}/message"@ + "/unread-count"@ =~= "/tenant/{tenant_id}/room/{room_id}/message/unread-count"@);
    reveal_strlit("/{message_id}");
    reveal_strlit("/tenant/{tenant_id}/room/{room_id}/message/{message_id}");
    assert("/tenant/{tenant_id}/room/{room_id}/message"@ + "/{message_id}"@ =~= "/tenant/{tenant_id}/room/{room_id}/message/{message_id}"@);
    reveal_strlit("/{message_id}/pin");
    reveal_strlit("/tenant/{tenant_id}/room/{room_id}/message/{message_id}/pin");
    assert("/tenant/{tenant_id}/room/{room_id}/message"@ + "/{message_id}/pin"@ =~= "/tenant/{tenant_id}/room/{room_id}/message/{message_id}/pin"@);
    reveal_strlit("/{message_id}/reaction");
    reveal_strlit("/tenant/{tenant_id}/room/{room_id}/message/{message_id}/reaction");
    assert("/tenant/{tenant_id}/room/{room_id}/message"@ + "/{message_id}/reaction"@ =~= "/tenant/{tenant_id}/room/{room_id}/message/{message_id}/reaction"@);
    reveal_strlit("/{message_id}/reaction/{emoji}");
    reveal_strlit("/tenant/{tenant_id}/room/{room_id}/message/{message_id}/reaction/{emoji}");
    assert("/tenant/{tenant_id}/room/{room_id}/message"@ + "/{message_id}/reaction/{emoji}"@ =~= "/tenant/{tenant_id}/room/{room_id}/message/{message_id}/reaction/{emoji}"@);
    reveal_strlit("/{message_id}/thread");
    reveal_strlit("/tenant/{tenant_id}/room/{room_id}/message/{message_id}/thread");
    assert("/tenant/{tenant_id}/room/{room_id}/message"@ + "/{message_id}/thread"@ =~= "/tenant/{tenant_id}/room/{room_id}/message/{message_id}/thread"@);
    lemma_reached(Group::Message, 0);
    lemma_reached(Group::Message, 1);
    lemma_reached(Group::Message, 2);
    lemma_reached(Group::Message, 3);
    lemma_reached(Group::Message, 4);
    lemma_reached(Group::Message, 5);
    lemma_reached(Group::Message, 6);
    lemma_reached(Group::Message, 7);
    lemma_reached(Group::Message, 8);
    lemma_reached(Group::Message, 9);
    lemma_reached(Group::Message, 10);
}

/// Recordings: each handler is reached by one method on one path, and by no other
/// request.
pub proof fn recording_requests(method: Method, path: Seq<char>)
    ensures
        reaches(method, path, Handler::RecordingList) <==> method == Method::Get && path
            == "/tenant/{tenant_id}/room/{room_id}/recording/"@,
        reaches(method, path, Handler::RecordingCreate) <==> method == Method::Post && path
            == "/tenant/{tenant_id}/room/{room_id}/recording/"@,
        reaches(method, path, Handler::RecordingDelete) <==> method == Method::Delete && path
            == "/tenant/{tenant_id}/room/{room_id}/recording/{recording_id}"@,
{
    reveal_strlit("/tenant/{tenant_id}/room/{room_id}/recording");
    reveal_strlit("/");
    reveal_strlit("/tenant/{tenant_id}/room/{room_id}/recording/");
    assert("/tenant/{tenant_id}/room/{room_id}/recording"@ + "/"@ =~= "/tenant/{tenant_id}/room/{room_id}/recording/"@);
    reveal_strlit("/{recording_id}");
    reveal_strlit("/tenant/{tenant_id}/room/{room_id}/recording/{recording_id}");
    assert("/tenant/{tenant_id}/room/{room_id}/recording"@ + "/{recording_id}"@ =~= "/tenant/{tenant_id}/room/{room_id}/recording/{recording_id}"@);
    lemma_reached(Group::Recording, 0);
    lemma_reached(Group::Recording, 1);
    lemma_reached(Group::Recording, 2);
}

/// The files of a room: each handler is reached by one method on one path, and by no other
/// request.
pub proof fn room_file_requests(method: Method, path: Seq<char>)
    ensures
        reaches(method, path, Handler::FileList) <==> method == Method::Get && path
            == "/tenant/{tenant_id}/room/{room_id}/file/"@,
        reaches(method, path, Handler::FileUploadRoom) <==> method == Method::Post && path
            == "/tenant/{tenant_id}/room/{room_id}/file/upload"@,
{
    reveal_strlit("/tenant/{tenant_id}/room/{room_id}/file");
    reveal_strlit("/");
    reveal_strlit("/tenant/{tenant_id}/room/{room_id}/file/");
    assert("/tenant/{tenant_id}/room/{room_id}/file"@ + "/"@ =~= "/tenant/{tenant_id}/room/{room_id}/file/"@);
    reveal_strlit("/upload");
    reveal_strlit("/tenant/{tenant_id}/room/{room_id}/file/upload");
    assert("/tenant/{tenant_id}/room/{room_id}/file"@ + "/upload"@ =~= "/tenant/{tenant_id}/room/{room_id}/file/upload"@);
    lemma_reached(Group::RoomFile, 0);
    lemma_reached(Group::RoomFile, 1);
}

/// The files of a tenant: each handler is reached by one method on one path, and by no other
/// request.
pub proof fn file_by_id_requests(method: Method, path: Seq<char>)
    ensures
        reaches(method, path, Handler::FileListTenantFiles) <==> method == Method::Get && path
            == "/tenant/{tenant_id}/file/"@,
        reaches(method, path, Handler::FileUpload) <==> method == Method::Post && path
            == "/tenant/{tenant_id}/file/upload"@,
        reaches(method, path, Handler::FileGet) <==> method == Method::Get && path
            == "/tenant/{tenant_id}/file/{file_id}"@,
        reaches(method, path, Handler::FileDownload) <==> method == Method::Get && path
            == "/tenant/{tenant_id}/file/{file_id}/download"@,
        reaches(method, path, Handler::FileDelete) <==> method == Method::Delete && path
            == "/tenant/{tenant_id}/file/{file_id}"@,
        reaches(method, path, Handler::IntegrationRecognizeFile) <==> method == Method::Post && path
            == "/tenant/{tenant_id}/file/{file_id}/recognize"@,
{
    reveal_strlit("/tenant/{tenant_id}/file");
    reveal_strlit("/");
    reveal_strlit("/tenant/{tenant_id}/file/");
    assert("/tenant/{tenant_id}/file"@ + "/"@ =~= "/tenant/{tenant_id}/file/"@);
    reveal_strlit("/upload");
    reveal_strlit("/tenant/{tenant_id}/file/upload");
    assert("/tenant/{tenant_id}/file"@ + "/upload"@ =~= "/tenant/{tenant_id}/file/upload"@);
    reveal_strlit("/{file_id}");
    reveal_strlit("/tenant/{tenant_id}/file/{file_id}");
    assert("/tenant/{tenant_id}/file"@ + "/{file_id}"@ =~= "/tenant/{tenant_id}/file/{file_id}"@);
    reveal_strlit("/{file_id}/download");
    reveal_strlit("/tenant/{tenant_id}/file/{file_id}/download");
    assert("/tenant/{tenant_id}/file"@ + "/{file_id}/download"@ =~= "/tenant/{tenant_id}/file/{file_id}/download"@);
    reveal_strlit("/{file_id}/recognize");
    reveal_strlit("/tenant/{tenant_id}/file/{file_id}/recognize");
    assert("/tenant/{tenant_id}/file"@ + "/{file_id}/recognize"@ =~= "/tenant/{tenant_id}/file/{file_id}/recognize"@);
    lemma_reached(Group::FileById, 0);
    lemma_reached(Group::FileById, 1);
    lemma_reached(Group::FileById, 2);
    lemma_reached(Group::FileById, 3);
    lemma_reached(Group::FileById, 4);
    lemma_reached(Group::FileById, 5);
}

/// Tasks: each handler is reached by one method on one path, and by no other
/// request.
pub proof fn task_requests(method: Method, path: Seq<char>)
    ensures
        reaches(method, path, Handler::BackgroundTaskList) <==> method == Method::Get && path
            == "/tenant/{tenant_id}/task/"@,
        reaches(method, path, Handler::BackgroundTaskGet) <==> method == Method::Get && path
            == "/tenant/{tenant_id}/task/{task_id}"@,
        reaches(method, path, Handler::BackgroundTaskDownload) <==> method == Method::Get && path
            == "/tenant/{tenant_id}/task/{task_id}/download"@,
{
    reveal_strlit("/tenant/{tenant_id}/task");
    reveal_strlit("/");
    reveal_strlit("/tenant/{tenant_id}/task/");
    assert("/tenant/{tenant_id}/task"@ + "/"@ =~= "/tenant/{tenant_id}/task/"@);
    reveal_strlit("/{task_id}");
    reveal_strlit("/tenant/{tenant_id}/task/{task_id}");
    assert("/tenant/{tenant_id}/task"@ + "/{task_id}"@ =~= "/tenant/{tenant_id}/task/{task_id}"@);
    reveal_strlit("/{task_id}/download");
    reveal_strlit("/tenant/{tenant_id}/task/{task_id}/download");
    assert("/tenant/{tenant_id}/task"@ + "/{task_id}/download"@ =~= "/tenant/{tenant_id}/task/{task_id}/download"@);
    lemma_reached(Group::Task, 0);
    lemma_reached(Group::Task, 1);
    lemma_reached(Group::Task, 2);
}

/// Exports: each handler is reached by one method on one path, and by no other
/// request.
pub proof fn export_requests(method: Method, path: Seq<char>)
    ensures
        reaches(method, path, Handler::ExportExportConversation) <==> method == Method::Post && path
            == "/tenant/{tenant_id}/export/conversation"@,
        reaches(method, path, Handler::IntegrationExportConversationPdf) <==> method == Method::Post && path
            == "/tenant/{tenant_id}/export/conversation-pdf"@,
{
    reveal_strlit("/tenant/{tenant_id}/export");
    reveal_strlit("/conversation");
    reveal_strlit("/tenant/{tenant_id}/export/conversation");
    assert("/tenant/{tenant_id}/export"@ + "/conversation"@ =~= "/tenant/{tenant_id}/export/conversation"@);
    reveal_strlit("/conversation-pdf");
    reveal_strlit("/tenant/{tenant_id}/export/conversation-pdf");
    assert("/tenant/{tenant_id}/export"@ + "/conversation-pdf"@ =~= "/tenant/{tenant_id}/export/conversation-pdf"@);
    lemma_reached(Group::Export, 0);
    lemma_reached(Group::Export, 1);
}

/// Every group of routes is served, and none of them twice.
pub proof fn every_group_is_served(g: Group)
    ensures
        all_groups().contains(g),
        all_groups().no_duplicates(),
{
    let s = all_groups();
    assert(s[0] == Group::Auth);
    assert(s[1] == Group::User);
    assert(s[2] == Group::Oauth);
    assert(s[3] == Group::Stripe);
    assert(s[4] == Group::PublicInvite);
    assert(s[5] == Group::Giphy);
    assert(s[6] == Group::Push);
    assert(s[7] == Group::Notification);
    assert(s[8] == Group::Tenant);
    assert(s[9] == Group::Member);
    assert(s[10] == Group::Role);
    assert(s[11] == Group::TenantInvite);
    assert(s[12] == Group::Search);
    assert(s[13] == Group::Room);
    assert(s[14] == Group::Message);
    assert(s[15] == Group::Recording);
    assert(s[16] == Group::RoomFile);
    assert(s[17] == Group::FileById);
    assert(s[18] == Group::Task);
    assert(s[19] == Group::Export);
    assert forall|i: int, j: int| 0 <= i < s.len() && 0 <= j < s.len() && i != j implies s[i]
        != s[j] by {
        assert(rank(s[i]) == i) by {
            lemma_ranks(i);
        }
        lemma_ranks(j);
    }
}

spec fn rank(g: Group) -> int {
    match g {
        Group::Auth => 0,
        Group::User => 1,
        Group::Oauth => 2,
        Group::Stripe => 3,
        Group::PublicInvite => 4,
        Group::Giphy => 5,
        Group::Push => 6,
        Group::Notification => 7,
        Group::Tenant => 8,
        Group::Member => 9,
        Group::Role => 10,
        Group::TenantInvite => 11,
        Group::Search => 12,
        Group::Room => 13,
        Group::Message => 14,
        Group::Recording => 15,
        Group::RoomFile => 16,
        Group::FileById => 17,
        Group::Task => 18,
        Group::Export => 19,
    }
}

proof fn lemma_ranks(i: int)
    requires
        0 <= i < all_groups().len(),
    ensures
        rank(all_groups()[i]) == i,
{
    assert(i == 0 || i == 1 || i == 2 || i == 3 || i == 4 || i == 5 || i == 6 || i == 7
        || i == 8 || i == 9 || i == 10 || i == 11 || i == 12 || i == 13 || i == 14 || i == 15
        || i == 16 || i == 17 || i == 18 || i == 19);
}

} // verus!
