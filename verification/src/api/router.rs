//! The routes of the API, the limits on them and who may call them from where.
use vstd::prelude::*;

verus! {

/// The method of a request.
#[derive(Debug, Clone, Copy, PartialEq, Eq, Structural)]
#[allow(missing_docs)]
pub enum Method {
    Get,
    Post,
    Put,
    Delete,
}

/// What answers a request.
#[derive(Debug, Clone, Copy, PartialEq, Eq, Structural)]
#[allow(missing_docs)]
pub enum Handler {
    AuthRegister,
    AuthLogin,
    AuthLogout,
    AuthRefresh,
    AuthActivate,
    AuthMe,
    UserUpdateProfile,
    UserGetProfile,
    OauthOauthRedirect,
    OauthOauthCallback,
    StripeGetPlans,
    StripeCreateCheckout,
    StripeCreatePortal,
    StripeWebhook,
    InviteGetInviteInfo,
    InviteAcceptInvite,
    GiphySearch,
    GiphyTrending,
    PushConfig,
    PushSubscribe,
    PushUnsubscribe,
    NotificationList,
    NotificationUnread,
    NotificationUnreadCount,
    NotificationMarkRead,
    NotificationMarkAllRead,
    TenantList,
    TenantCreate,
    TenantGet,
    UserListMembers,
    InviteAddMember,
    RoleList,
    RoleCreate,
    RoleUpdate,
    RoleDelete,
    RoleAssign,
    RoleUnassign,
    InviteListInvites,
    InviteCreateInvite,
    InviteBatchCreateInvite,
    InviteRevokeInvite,
    SearchSearch,
    RoomList,
    RoomCreate,
    RoomExplore,
    RoomGet,
    RoomUpdate,
    RoomDelete,
    RoomJoin,
    RoomLeave,
    RoomMembers,
    RoomCallStart,
    RoomCallJoin,
    RoomCallLeave,
    RoomCallEnd,
    RoomParticipants,
    RoomCallMessages,
    RoomCreateCallMessage,
    MessageList,
    MessageCreate,
    MessagePinned,
    MessageUpdate,
    MessageDelete,
    MessageTogglePin,
    MessageThreadReplies,
    ReactionAdd,
    ReactionRemove,
    MessageMarkRead,
    MessageUnreadCount,
    RecordingList,
    RecordingCreate,
    RecordingDelete,
    FileList,
    FileUploadRoom,
    FileListTenantFiles,
    FileUpload,
    FileGet,
    FileDownload,
    FileDelete,
    IntegrationRecognizeFile,
    BackgroundTaskList,
    BackgroundTaskGet,
    BackgroundTaskDownload,
    ExportExportConversation,
    IntegrationExportConversationPdf,
}

/// Routes that stand below one prefix.
#[derive(Debug, Clone, Copy, PartialEq, Eq, Structural)]
#[allow(missing_docs)]
pub enum Group {
    Auth,
    User,
    Oauth,
    Stripe,
    PublicInvite,
    Giphy,
    Push,
    Notification,
    Tenant,
    Member,
    Role,
    TenantInvite,
    Search,
    Room,
    Message,
    Recording,
    RoomFile,
    FileById,
    Task,
    Export,
}

/// A route: its method, its path below the prefix of its group, and what
/// answers it.
#[derive(Debug, Clone, Copy)]
#[allow(missing_docs)]
pub struct Route {
    pub method: Method,
    pub path: &'static str,
    pub handler: Handler,
}

impl View for Route {
    type V = (Method, Seq<char>, Handler);

    open spec fn view(&self) -> (Method, Seq<char>, Handler) {
        (self.method, self.path@, self.handler)
    }
}

/// The prefix of everything that is rate limited.
pub const API_PREFIX: &'static str = "/api";

/// The requests that one address may make in a row.
pub const RATE_BURST: u32 = 60;

/// The requests that one address gains per second.
pub const RATE_PER_SECOND: u64 = 1;

/// The largest body of an upload, in bytes.
pub const UPLOAD_LIMIT: usize = 104857600;

/// The route that says that the server is up; it is not rate limited.
pub const HEALTH_PATH: &'static str = "/health";

/// The route that opens a WebSocket; it is not rate limited.
pub const WS_PATH: &'static str = "/ws";

/// The prefix of a group, below that of the API.
pub open spec fn spec_prefix(group: Group) -> &'static str {
    match group {
        Group::Auth => "/auth",
        Group::User => "/user",
        Group::Oauth => "/oauth",
        Group::Stripe => "/stripe",
        Group::PublicInvite => "/invite",
        Group::Giphy => "/giphy",
        Group::Push => "/push",
        Group::Notification => "/notification",
        Group::Tenant => "/tenant",
        Group::Member => "/tenant/{tenant_id}/member",
        Group::Role => "/tenant/{tenant_id}/role",
        Group::TenantInvite => "/tenant/{tenant_id}/invite",
        Group::Search => "/tenant/{tenant_id}/search",
        Group::Room => "/tenant/{tenant_id}/room",
        Group::Message => "/tenant/{tenant_id}/room/{room_id}/message",
        Group::Recording => "/tenant/{tenant_id}/room/{room_id}/recording",
        Group::RoomFile => "/tenant/{tenant_id}/room/{room_id}/file",
        Group::FileById => "/tenant/{tenant_id}/file",
        Group::Task => "/tenant/{tenant_id}/task",
        Group::Export => "/tenant/{tenant_id}/export",
    }
}

/// The prefix of a group, below that of the API.
pub fn prefix(group: Group) -> (r: &'static str)
    ensures
        r@ == spec_prefix(group)@,
{
    match group {
        Group::Auth => "/auth",
        Group::User => "/user",
        Group::Oauth => "/oauth",
        Group::Stripe => "/stripe",
        Group::PublicInvite => "/invite",
        Group::Giphy => "/giphy",
        Group::Push => "/push",
        Group::Notification => "/notification",
        Group::Tenant => "/tenant",
        Group::Member => "/tenant/{tenant_id}/member",
        Group::Role => "/tenant/{tenant_id}/role",
        Group::TenantInvite => "/tenant/{tenant_id}/invite",
        Group::Search => "/tenant/{tenant_id}/search",
        Group::Room => "/tenant/{tenant_id}/room",
        Group::Message => "/tenant/{tenant_id}/room/{room_id}/message",
        Group::Recording => "/tenant/{tenant_id}/room/{room_id}/recording",
        Group::RoomFile => "/tenant/{tenant_id}/room/{room_id}/file",
        Group::FileById => "/tenant/{tenant_id}/file",
        Group::Task => "/tenant/{tenant_id}/task",
        Group::Export => "/tenant/{tenant_id}/export",
    }
}

/// Whether the routes of a group take bodies of up to `UPLOAD_LIMIT`; the
/// others take what the server takes by default.
pub fn takes_uploads(group: Group) -> (r: bool)
    ensures
        r <==> group == Group::RoomFile || group == Group::FileById,
{
    match group {
        Group::RoomFile | Group::FileById => true,
        _ => false,
    }
}

/// The groups, in the order in which they are put together.
pub open spec fn all_groups() -> Seq<Group> {
    seq![
        Group::Auth,
        Group::User,
        Group::Oauth,
        Group::Stripe,
        Group::PublicInvite,
        Group::Giphy,
        Group::Push,
        Group::Notification,
        Group::Tenant,
        Group::Member,
        Group::Role,
        Group::TenantInvite,
        Group::Search,
        Group::Room,
        Group::Message,
        Group::Recording,
        Group::RoomFile,
        Group::FileById,
        Group::Task,
        Group::Export,
    ]
}

/// The groups, in the order in which they are put together.
pub fn groups() -> (r: Vec<Group>)
    ensures
        r@ == all_groups(),
{
    let mut out: Vec<Group> = Vec::new();
    out.push(Group::Auth);
    out.push(Group::User);
    out.push(Group::Oauth);
    out.push(Group::Stripe);
    out.push(Group::PublicInvite);
    out.push(Group::Giphy);
    out.push(Group::Push);
    out.push(Group::Notification);
    out.push(Group::Tenant);
    out.push(Group::Member);
    out.push(Group::Role);
    out.push(Group::TenantInvite);
    out.push(Group::Search);
    out.push(Group::Room);
    out.push(Group::Message);
    out.push(Group::Recording);
    out.push(Group::RoomFile);
    out.push(Group::FileById);
    out.push(Group::Task);
    out.push(Group::Export);
    out
}

/// The routes of a group, in order.
pub open spec fn routes_of(group: Group) -> Seq<(Method, Seq<char>, Handler)> {
    match group {
        Group::Auth => spec_auth_routes(),
        Group::User => spec_user_routes(),
        Group::Oauth => spec_oauth_routes(),
        Group::Stripe => spec_stripe_routes(),
        Group::PublicInvite => spec_public_invite_routes(),
        Group::Giphy => spec_giphy_routes(),
        Group::Push => spec_push_routes(),
        Group::Notification => spec_notification_routes(),
        Group::Tenant => spec_tenant_routes(),
        Group::Member => spec_member_routes(),
        Group::Role => spec_role_routes(),
        Group::TenantInvite => spec_tenant_invite_routes(),
        Group::Search => spec_search_routes(),
        Group::Room => spec_room_routes(),
        Group::Message => spec_message_routes(),
        Group::Recording => spec_recording_routes(),
        Group::RoomFile => spec_room_file_routes(),
        Group::FileById => spec_file_by_id_routes(),
        Group::Task => spec_task_routes(),
        Group::Export => spec_export_routes(),
    }
}

/// The routes below `/auth`.
pub open spec fn spec_auth_routes() -> Seq<(Method, Seq<char>, Handler)> {
    seq![
        (Method::Post, "/register"@, Handler::AuthRegister),
        (Method::Post, "/login"@, Handler::AuthLogin),
        (Method::Post, "/logout"@, Handler::AuthLogout),
        (Method::Post, "/refresh"@, Handler::AuthRefresh),
        (Method::Post, "/activate"@, Handler::AuthActivate),
        (Method::Get, "/me"@, Handler::AuthMe),
        (Method::Put, "/me"@, Handler::AuthMe),
    ]
}

/// The routes below `/user`.
pub open spec fn spec_user_routes() -> Seq<(Method, Seq<char>, Handler)> {
    seq![
        (Method::Put, "/me"@, Handler::UserUpdateProfile),
        (Method::Get, "/{user_id}"@, Handler::UserGetProfile),
    ]
}

/// The routes below `/oauth`.
pub open spec fn spec_oauth_routes() -> Seq<(Method, Seq<char>, Handler)> {
    seq![
        (Method::Get, "/{provider}"@, Handler::OauthOauthRedirect),
        (Method::Get, "/callback/{provider}"@, Handler::OauthOauthCallback),
    ]
}

/// The routes below `/stripe`.
pub open spec fn spec_stripe_routes() -> Seq<(Method, Seq<char>, Handler)> {
    seq![
        (Method::Get, "/plans"@, Handler::StripeGetPlans),
        (Method::Post, "/checkout"@, Handler::StripeCreateCheckout),
        (Method::Post, "/portal"@, Handler::StripeCreatePortal),
        (Method::Post, "/webhook"@, Handler::StripeWebhook),
    ]
}

/// The routes below `/invite`.
pub open spec fn spec_public_invite_routes() -> Seq<(Method, Seq<char>, Handler)> {
    seq![
        (Method::Get, "/{code}"@, Handler::InviteGetInviteInfo),
        (Method::Post, "/{code}/accept"@, Handler::InviteAcceptInvite),
    ]
}

/// The routes below `/giphy`.
pub open spec fn spec_giphy_routes() -> Seq<(Method, Seq<char>, Handler)> {
    seq![
        (Method::Get, "/search"@, Handler::GiphySearch),
        (Method::Get, "/trending"@, Handler::GiphyTrending),
    ]
}

/// The routes below `/push`.
pub open spec fn spec_push_routes() -> Seq<(Method, Seq<char>, Handler)> {
    seq![
        (Method::Get, "/config"@, Handler::PushConfig),
        (Method::Post, "/subscribe"@, Handler::PushSubscribe),
        (Method::Post, "/unsubscribe"@, Handler::PushUnsubscribe),
    ]
}

/// The routes below `/notification`.
pub open spec fn spec_notification_routes() -> Seq<(Method, Seq<char>, Handler)> {
    seq![
        (Method::Get, "/"@, Handler::NotificationList),
        (Method::Get, "/unread"@, Handler::NotificationUnread),
        (Method::Get, "/unread-count"@, Handler::NotificationUnreadCount),
        (Method::Put, "/{notification_id}/read"@, Handler::NotificationMarkRead),
        (Method::Post, "/read-all"@, Handler::NotificationMarkAllRead),
    ]
}

/// The routes below `/tenant`.
pub open spec fn spec_tenant_routes() -> Seq<(Method, Seq<char>, Handler)> {
    seq![
        (Method::Get, "/"@, Handler::TenantList),
        (Method::Post, "/"@, Handler::TenantCreate),
        (Method::Get, "/{tenant_id}"@, Handler::TenantGet),
    ]
}

/// The routes below `/tenant/{tenant_id}/member`.
pub open spec fn spec_member_routes() -> Seq<(Method, Seq<char>, Handler)> {
    seq![
        (Method::Get, "/"@, Handler::UserListMembers),
        (Method::Post, "/"@, Handler::InviteAddMember),
    ]
}

/// The routes below `/tenant/{tenant_id}/role`.
pub open spec fn spec_role_routes() -> Seq<(Method, Seq<char>, Handler)> {
    seq![
        (Method::Get, "/"@, Handler::RoleList),
        (Method::Post, "/"@, Handler::RoleCreate),
        (Method::Put, "/{role_id}"@, Handler::RoleUpdate),
        (Method::Delete, "/{role_id}"@, Handler::RoleDelete),
        (Method::Post, "/{role_id}/assign/{user_id}"@, Handler::RoleAssign),
        (Method::Delete, "/{role_id}/assign/{user_id}"@, Handler::RoleUnassign),
    ]
}

/// The routes below `/tenant/{tenant_id}/invite`.
pub open spec fn spec_tenant_invite_routes() -> Seq<(Method, Seq<char>, Handler)> {
    seq![
        (Method::Get, "/"@, Handler::InviteListInvites),
        (Method::Post, "/"@, Handler::InviteCreateInvite),
        (Method::Post, "/batch"@, Handler::InviteBatchCreateInvite),
        (Method::Delete, "/{invite_id}"@, Handler::InviteRevokeInvite),
    ]
}

/// The routes below `/tenant/{tenant_id}/search`.
pub open spec fn spec_search_routes() -> Seq<(Method, Seq<char>, Handler)> {
    seq![
        (Method::Get, "/"@, Handler::SearchSearch),
    ]
}

/// The routes below `/tenant/{tenant_id}/room`.
pub open spec fn spec_room_routes() -> Seq<(Method, Seq<char>, Handler)> {
    seq![
        (Method::Get, "/"@, Handler::RoomList),
        (Method::Post, "/"@, Handler::RoomCreate),
        (Method::Get, "/explore"@, Handler::RoomExplore),
        (Method::Get, "/{room_id}"@, Handler::RoomGet),
        (Method::Put, "/{room_id}"@, Handler::RoomUpdate),
        (Method::Delete, "/{room_id}"@, Handler::RoomDelete),
        (Method::Post, "/{room_id}/join"@, Handler::RoomJoin),
        (Method::Post, "/{room_id}/leave"@, Handler::RoomLeave),
        (Method::Get, "/{room_id}/member"@, Handler::RoomMembers),
        (Method::Post, "/{room_id}/call/start"@, Handler::RoomCallStart),
        (Method::Post, "/{room_id}/call/join"@, Handler::RoomCallJoin),
        (Method::Post, "/{room_id}/call/leave"@, Handler::RoomCallLeave),
        (Method::Post, "/{room_id}/call/end"@, Handler::RoomCallEnd),
        (Method::Get, "/{room_id}/call/participant"@, Handler::RoomParticipants),
        (Method::Get, "/{room_id}/call/message"@, Handler::RoomCallMessages),
        (Method::Post, "/{room_id}/call/message"@, Handler::RoomCreateCallMessage),
    ]
}

/// The routes below `/tenant/{tenant_id}/room/{room_id}/message`.
pub open spec fn spec_message_routes() -> Seq<(Method, Seq<char>, Handler)> {
    seq![
        (Method::Get, "/"@, Handler::MessageList),
        (Method::Post, "/"@, Handler::MessageCreate),
        (Method::Get, "/pin"@, Handler::MessagePinned),
        (Method::Put, "/{message_id}"@, Handler::MessageUpdate),
        (Method::Delete, "/{message_id}"@, Handler::MessageDelete),
        (Method::Put, "/{message_id}/pin"@, Handler::MessageTogglePin),
        (Method::Get, "/{message_id}/thread"@, Handler::MessageThreadReplies),
        (Method::Post, "/{message_id}/reaction"@, Handler::ReactionAdd),
        (Method::Delete, "/{message_id}/reaction/{emoji}"@, Handler::ReactionRemove),
        (Method::Post, "/read"@, Handler::MessageMarkRead),
        (Method::Get, "/unread-count"@, Handler::MessageUnreadCount),
    ]
}

/// The routes below `/tenant/{tenant_id}/room/{room_id}/recording`.
pub open spec fn spec_recording_routes() -> Seq<(Method, Seq<char>, Handler)> {
    seq![
        (Method::Get, "/"@, Handler::RecordingList),
        (Method::Post, "/"@, Handler::RecordingCreate),
        (Method::Delete, "/{recording_id}"@, Handler::RecordingDelete),
    ]
}

/// The routes below `/tenant/{tenant_id}/room/{room_id}/file`.
pub open spec fn spec_room_file_routes() -> Seq<(Method, Seq<char>, Handler)> {
    seq![
        (Method::Get, "/"@, Handler::FileList),
        (Method::Post, "/upload"@, Handler::FileUploadRoom),
    ]
}

/// The routes below `/tenant/{tenant_id}/file`.
pub open spec fn spec_file_by_id_routes() -> Seq<(Method, Seq<char>, Handler)> {
    seq![
        (Method::Get, "/"@, Handler::FileListTenantFiles),
        (Method::Post, "/upload"@, Handler::FileUpload),
        (Method::Get, "/{file_id}"@, Handler::FileGet),
        (Method::Get, "/{file_id}/download"@, Handler::FileDownload),
        (Method::Delete, "/{file_id}"@, Handler::FileDelete),
        (Method::Post, "/{file_id}/recognize"@, Handler::IntegrationRecognizeFile),
    ]
}

/// The routes below `/tenant/{tenant_id}/task`.
pub open spec fn spec_task_routes() -> Seq<(Method, Seq<char>, Handler)> {
    seq![
        (Method::Get, "/"@, Handler::BackgroundTaskList),
        (Method::Get, "/{task_id}"@, Handler::BackgroundTaskGet),
        (Method::Get, "/{task_id}/download"@, Handler::BackgroundTaskDownload),
    ]
}

/// The routes below `/tenant/{tenant_id}/export`.
pub open spec fn spec_export_routes() -> Seq<(Method, Seq<char>, Handler)> {
    seq![
        (Method::Post, "/conversation"@, Handler::ExportExportConversation),
        (Method::Post, "/conversation-pdf"@, Handler::IntegrationExportConversationPdf),
    ]
}

/// The list with one more route.
fn and(list: Vec<Route>, method: Method, path: &'static str, handler: Handler) -> (r: Vec<Route>)
    ensures
        route_views(r@) == route_views(list@).push((method, path@, handler)),
{
    let mut out: Vec<Route> = list;
    out.push(Route { method, path, handler });
    proof {
        assert(route_views(out@) =~= route_views(list@).push((method, path@, handler)));
    }
    out
}

/// What routes say.
pub open spec fn route_views(list: Seq<Route>) -> Seq<(Method, Seq<char>, Handler)> {
    list.map_values(|r: Route| r@)
}

fn no_routes() -> (r: Vec<Route>)
    ensures
        route_views(r@) == Seq::<(Method, Seq<char>, Handler)>::empty(),
{
    let out: Vec<Route> = Vec::new();
    proof {
        assert(route_views(out@) =~= Seq::empty());
    }
    out
}

fn auth_routes() -> (r: Vec<Route>)
    ensures
        route_views(r@) == spec_auth_routes(),
{
    let list: Vec<Route> = no_routes();
    let list: Vec<Route> = and(list, Method::Post, "/register", Handler::AuthRegister);
    let list: Vec<Route> = and(list, Method::Post, "/login", Handler::AuthLogin);
    let list: Vec<Route> = and(list, Method::Post, "/logout", Handler::AuthLogout);
    let list: Vec<Route> = and(list, Method::Post, "/refresh", Handler::AuthRefresh);
    let list: Vec<Route> = and(list, Method::Post, "/activate", Handler::AuthActivate);
    let list: Vec<Route> = and(list, Method::Get, "/me", Handler::AuthMe);
    let list: Vec<Route> = and(list, Method::Put, "/me", Handler::AuthMe);
    list
}

fn user_routes() -> (r: Vec<Route>)
    ensures
        route_views(r@) == spec_user_routes(),
{
    let list: Vec<Route> = no_routes();
    let list: Vec<Route> = and(list, Method::Put, "/me", Handler::UserUpdateProfile);
    let list: Vec<Route> = and(list, Method::Get, "/{user_id}", Handler::UserGetProfile);
    list
}

fn oauth_routes() -> (r: Vec<Route>)
    ensures
        route_views(r@) == spec_oauth_routes(),
{
    let list: Vec<Route> = no_routes();
    let list: Vec<Route> = and(list, Method::Get, "/{provider}", Handler::OauthOauthRedirect);
    let list: Vec<Route> = and(list, Method::Get, "/callback/{provider}", Handler::OauthOauthCallback);
    list
}

fn stripe_routes() -> (r: Vec<Route>)
    ensures
        route_views(r@) == spec_stripe_routes(),
{
    let list: Vec<Route> = no_routes();
    let list: Vec<Route> = and(list, Method::Get, "/plans", Handler::StripeGetPlans);
    let list: Vec<Route> = and(list, Method::Post, "/checkout", Handler::StripeCreateCheckout);
    let list: Vec<Route> = and(list, Method::Post, "/portal", Handler::StripeCreatePortal);
    let list: Vec<Route> = and(list, Method::Post, "/webhook", Handler::StripeWebhook);
    list
}

fn public_invite_routes() -> (r: Vec<Route>)
    ensures
        route_views(r@) == spec_public_invite_routes(),
{
    let list: Vec<Route> = no_routes();
    let list: Vec<Route> = and(list, Method::Get, "/{code}", Handler::InviteGetInviteInfo);
    let list: Vec<Route> = and(list, Method::Post, "/{code}/accept", Handler::InviteAcceptInvite);
    list
}

fn giphy_routes() -> (r: Vec<Route>)
    ensures
        route_views(r@) == spec_giphy_routes(),
{
    let list: Vec<Route> = no_routes();
    let list: Vec<Route> = and(list, Method::Get, "/search", Handler::GiphySearch);
    let list: Vec<Route> = and(list, Method::Get, "/trending", Handler::GiphyTrending);
    list
}

fn push_routes() -> (r: Vec<Route>)
    ensures
        route_views(r@) == spec_push_routes(),
{
    let list: Vec<Route> = no_routes();
    let list: Vec<Route> = and(list, Method::Get, "/config", Handler::PushConfig);
    let list: Vec<Route> = and(list, Method::Post, "/subscribe", Handler::PushSubscribe);
    let list: Vec<Route> = and(list, Method::Post, "/unsubscribe", Handler::PushUnsubscribe);
    list
}

fn notification_routes() -> (r: Vec<Route>)
    ensures
        route_views(r@) == spec_notification_routes(),
{
    let list: Vec<Route> = no_routes();
    let list: Vec<Route> = and(list, Method::Get, "/", Handler::NotificationList);
    let list: Vec<Route> = and(list, Method::Get, "/unread", Handler::NotificationUnread);
    let list: Vec<Route> = and(list, Method::Get, "/unread-count", Handler::NotificationUnreadCount);
    let list: Vec<Route> = and(list, Method::Put, "/{notification_id}/read", Handler::NotificationMarkRead);
    let list: Vec<Route> = and(list, Method::Post, "/read-all", Handler::NotificationMarkAllRead);
    list
}

fn tenant_routes() -> (r: Vec<Route>)
    ensures
        route_views(r@) == spec_tenant_routes(),
{
    let list: Vec<Route> = no_routes();
    let list: Vec<Route> = and(list, Method::Get, "/", Handler::TenantList);
    let list: Vec<Route> = and(list, Method::Post, "/", Handler::TenantCreate);
    let list: Vec<Route> = and(list, Method::Get, "/{tenant_id}", Handler::TenantGet);
    list
}

fn member_routes() -> (r: Vec<Route>)
    ensures
        route_views(r@) == spec_member_routes(),
{
    let list: Vec<Route> = no_routes();
    let list: Vec<Route> = and(list, Method::Get, "/", Handler::UserListMembers);
    let list: Vec<Route> = and(list, Method::Post, "/", Handler::InviteAddMember);
    list
}

fn role_routes() -> (r: Vec<Route>)
    ensures
        route_views(r@) == spec_role_routes(),
{
    let list: Vec<Route> = no_routes();
    let list: Vec<Route> = and(list, Method::Get, "/", Handler::RoleList);
    let list: Vec<Route> = and(list, Method::Post, "/", Handler::RoleCreate);
    let list: Vec<Route> = and(list, Method::Put, "/{role_id}", Handler::RoleUpdate);
    let list: Vec<Route> = and(list, Method::Delete, "/{role_id}", Handler::RoleDelete);
    let list: Vec<Route> = and(list, Method::Post, "/{role_id}/assign/{user_id}", Handler::RoleAssign);
    let list: Vec<Route> = and(list, Method::Delete, "/{role_id}/assign/{user_id}", Handler::RoleUnassign);
    list
}

fn tenant_invite_routes() -> (r: Vec<Route>)
    ensures
        route_views(r@) == spec_tenant_invite_routes(),
{
    let list: Vec<Route> = no_routes();
    let list: Vec<Route> = and(list, Method::Get, "/", Handler::InviteListInvites);
    let list: Vec<Route> = and(list, Method::Post, "/", Handler::InviteCreateInvite);
    let list: Vec<Route> = and(list, Method::Post, "/batch", Handler::InviteBatchCreateInvite);
    let list: Vec<Route> = and(list, Method::Delete, "/{invite_id}", Handler::InviteRevokeInvite);
    list
}

fn search_routes() -> (r: Vec<Route>)
    ensures
        route_views(r@) == spec_search_routes(),
{
    let list: Vec<Route> = no_routes();
    let list: Vec<Route> = and(list, Method::Get, "/", Handler::SearchSearch);
    list
}

fn room_routes() -> (r: Vec<Route>)
    ensures
        route_views(r@) == spec_room_routes(),
{
    let list: Vec<Route> = no_routes();
    let list: Vec<Route> = and(list, Method::Get, "/", Handler::RoomList);
    let list: Vec<Route> = and(list, Method::Post, "/", Handler::RoomCreate);
    let list: Vec<Route> = and(list, Method::Get, "/explore", Handler::RoomExplore);
    let list: Vec<Route> = and(list, Method::Get, "/{room_id}", Handler::RoomGet);
    let list: Vec<Route> = and(list, Method::Put, "/{room_id}", Handler::RoomUpdate);
    let list: Vec<Route> = and(list, Method::Delete, "/{room_id}", Handler::RoomDelete);
    let list: Vec<Route> = and(list, Method::Post, "/{room_id}/join", Handler::RoomJoin);
    let list: Vec<Route> = and(list, Method::Post, "/{room_id}/leave", Handler::RoomLeave);
    let list: Vec<Route> = and(list, Method::Get, "/{room_id}/member", Handler::RoomMembers);
    let list: Vec<Route> = and(list, Method::Post, "/{room_id}/call/start", Handler::RoomCallStart);
    let list: Vec<Route> = and(list, Method::Post, "/{room_id}/call/join", Handler::RoomCallJoin);
    let list: Vec<Route> = and(list, Method::Post, "/{room_id}/call/leave", Handler::RoomCallLeave);
    let list: Vec<Route> = and(list, Method::Post, "/{room_id}/call/end", Handler::RoomCallEnd);
    let list: Vec<Route> = and(list, Method::Get, "/{room_id}/call/participant", Handler::RoomParticipants);
    let list: Vec<Route> = and(list, Method::Get, "/{room_id}/call/message", Handler::RoomCallMessages);
    let list: Vec<Route> = and(list, Method::Post, "/{room_id}/call/message", Handler::RoomCreateCallMessage);
    list
}

fn message_routes() -> (r: Vec<Route>)
    ensures
        route_views(r@) == spec_message_routes(),
{
    let list: Vec<Route> = no_routes();
    let list: Vec<Route> = and(list, Method::Get, "/", Handler::MessageList);
    let list: Vec<Route> = and(list, Method::Post, "/", Handler::MessageCreate);
    let list: Vec<Route> = and(list, Method::Get, "/pin", Handler::MessagePinned);
    let list: Vec<Route> = and(list, Method::Put, "/{message_id}", Handler::MessageUpdate);
    let list: Vec<Route> = and(list, Method::Delete, "/{message_id}", Handler::MessageDelete);
    let list: Vec<Route> = and(list, Method::Put, "/{message_id}/pin", Handler::MessageTogglePin);
    let list: Vec<Route> = and(list, Method::Get, "/{message_id}/thread", Handler::MessageThreadReplies);
    let list: Vec<Route> = and(list, Method::Post, "/{message_id}/reaction", Handler::ReactionAdd);
    let list: Vec<Route> = and(list, Method::Delete, "/{message_id}/reaction/{emoji}", Handler::ReactionRemove);
    let list: Vec<Route> = and(list, Method::Post, "/read", Handler::MessageMarkRead);
    let list: Vec<Route> = and(list, Method::Get, "/unread-count", Handler::MessageUnreadCount);
    list
}

fn recording_routes() -> (r: Vec<Route>)
    ensures
        route_views(r@) == spec_recording_routes(),
{
    let list: Vec<Route> = no_routes();
    let list: Vec<Route> = and(list, Method::Get, "/", Handler::RecordingList);
    let list: Vec<Route> = and(list, Method::Post, "/", Handler::RecordingCreate);
    let list: Vec<Route> = and(list, Method::Delete, "/{recording_id}", Handler::RecordingDelete);
    list
}

fn room_file_routes() -> (r: Vec<Route>)
    ensures
        route_views(r@) == spec_room_file_routes(),
{
    let list: Vec<Route> = no_routes();
    let list: Vec<Route> = and(list, Method::Get, "/", Handler::FileList);
    let list: Vec<Route> = and(list, Method::Post, "/upload", Handler::FileUploadRoom);
    list
}

fn file_by_id_routes() -> (r: Vec<Route>)
    ensures
        route_views(r@) == spec_file_by_id_routes(),
{
    let list: Vec<Route> = no_routes();
    let list: Vec<Route> = and(list, Method::Get, "/", Handler::FileListTenantFiles);
    let list: Vec<Route> = and(list, Method::Post, "/upload", Handler::FileUpload);
    let list: Vec<Route> = and(list, Method::Get, "/{file_id}", Handler::FileGet);
    let list: Vec<Route> = and(list, Method::Get, "/{file_id}/download", Handler::FileDownload);
    let list: Vec<Route> = and(list, Method::Delete, "/{file_id}", Handler::FileDelete);
    let list: Vec<Route> = and(list, Method::Post, "/{file_id}/recognize", Handler::IntegrationRecognizeFile);
    list
}

fn task_routes() -> (r: Vec<Route>)
    ensures
        route_views(r@) == spec_task_routes(),
{
    let list: Vec<Route> = no_routes();
    let list: Vec<Route> = and(list, Method::Get, "/", Handler::BackgroundTaskList);
    let list: Vec<Route> = and(list, Method::Get, "/{task_id}", Handler::BackgroundTaskGet);
    let list: Vec<Route> = and(list, Method::Get, "/{task_id}/download", Handler::BackgroundTaskDownload);
    list
}

fn export_routes() -> (r: Vec<Route>)
    ensures
        route_views(r@) == spec_export_routes(),
{
    let list: Vec<Route> = no_routes();
    let list: Vec<Route> = and(list, Method::Post, "/conversation", Handler::ExportExportConversation);
    let list: Vec<Route> = and(list, Method::Post, "/conversation-pdf", Handler::IntegrationExportConversationPdf);
    list
}

/// The routes of a group, in order.
pub fn routes(group: Group) -> (r: Vec<Route>)
    ensures
        route_views(r@) == routes_of(group),
{
    match group {
        Group::Auth => auth_routes(),
        Group::User => user_routes(),
        Group::Oauth => oauth_routes(),
        Group::Stripe => stripe_routes(),
        Group::PublicInvite => public_invite_routes(),
        Group::Giphy => giphy_routes(),
        Group::Push => push_routes(),
        Group::Notification => notification_routes(),
        Group::Tenant => tenant_routes(),
        Group::Member => member_routes(),
        Group::Role => role_routes(),
        Group::TenantInvite => tenant_invite_routes(),
        Group::Search => search_routes(),
        Group::Room => room_routes(),
        Group::Message => message_routes(),
        Group::Recording => recording_routes(),
        Group::RoomFile => room_file_routes(),
        Group::FileById => file_by_id_routes(),
        Group::Task => task_routes(),
        Group::Export => export_routes(),
    }
}

/// What the groups and their routes say.
pub open spec fn table_view(list: Seq<(Group, Vec<Route>)>) -> Seq<
    (Group, Seq<(Method, Seq<char>, Handler)>),
> {
    list.map_values(|g: (Group, Vec<Route>)| (g.0, route_views(g.1@)))
}

/// All groups with their routes, in the order in which they are put together.
pub open spec fn table() -> Seq<(Group, Seq<(Method, Seq<char>, Handler)>)> {
    all_groups().map_values(|g: Group| (g, routes_of(g)))
}

/// All groups with their routes, in the order in which they are put together.
pub fn build_router() -> (r: Vec<(Group, Vec<Route>)>)
    ensures
        table_view(r@) == table(),
{
    let list: Vec<Group> = groups();
    let mut out: Vec<(Group, Vec<Route>)> = Vec::new();
    let mut i: usize = 0;
    proof {
        assert(table_view(out@) =~= table().take(0));
    }
    while i < list.len()
        invariant
            i <= list@.len(),
            list@ == all_groups(),
            table_view(out@) == table().take(i as int),
        decreases list@.len() - i,
    {
        let ghost was = out@;
        let own: Vec<Route> = routes(list[i]);
        proof {
            assert(table()[i as int] == (list@[i as int], route_views(own@)));
        }
        out.push((list[i], own));
        proof {
            assert(table_view(out@) =~= table_view(was).push(table()[i as int]));
            assert(table().take(i + 1) =~= table().take(i as int).push(table()[i as int]));
        }
        i = i + 1;
    }
    proof {
        assert(table().take(list@.len() as int) =~= table());
    }
    out
}

/// Whether two routes would answer the same requests.
pub open spec fn collide(
    a: (Method, Seq<char>, Handler),
    b: (Method, Seq<char>, Handler),
) -> bool {
    a.0 == b.0 && a.1 == b.1
}

/// No two routes of a group have the same method and the same path.
pub open spec fn apart(list: Seq<(Method, Seq<char>, Handler)>) -> bool {
    forall|i: int, j: int| 0 <= i < j < list.len() ==> !collide(list[i], list[j])
}

proof fn lemma_auth_routes()
    ensures
        apart(spec_auth_routes()),
{
    reveal_strlit("/activate");
    assert("/activate"@.len() == 9);
    reveal_strlit("/login");
    assert("/login"@.len() == 6);
    reveal_strlit("/logout");
    assert("/logout"@.len() == 7);
    reveal_strlit("/me");
    assert("/me"@.len() == 3);
    reveal_strlit("/refresh");
    assert("/refresh"@.len() == 8);
    reveal_strlit("/register");
    assert("/register"@.len() == 9);
    assert("/activate"@[1] != "/register"@[1]);
}

proof fn lemma_user_routes()
    ensures
        apart(spec_user_routes()),
{
    reveal_strlit("/me");
    assert("/me"@.len() == 3);
    reveal_strlit("/{user_id}");
    assert("/{user_id}"@.len() == 10);
}

proof fn lemma_oauth_routes()
    ensures
        apart(spec_oauth_routes()),
{
    reveal_strlit("/callback/{provider}");
    assert("/callback/{provider}"@.len() == 20);
    reveal_strlit("/{provider}");
    assert("/{provider}"@.len() == 11);
}

proof fn lemma_stripe_routes()
    ensures
        apart(spec_stripe_routes()),
{
    reveal_strlit("/checkout");
    assert("/checkout"@.len() == 9);
    reveal_strlit("/plans");
    assert("/plans"@.len() == 6);
    reveal_strlit("/portal");
    assert("/portal"@.len() == 7);
    reveal_strlit("/webhook");
    assert("/webhook"@.len() == 8);
}

proof fn lemma_public_invite_routes()
    ensures
        apart(spec_public_invite_routes()),
{
    reveal_strlit("/{code}");
    assert("/{code}"@.len() == 7);
    reveal_strlit("/{code}/accept");
    assert("/{code}/accept"@.len() == 14);
}

proof fn lemma_giphy_routes()
    ensures
        apart(spec_giphy_routes()),
{
    reveal_strlit("/search");
    assert("/search"@.len() == 7);
    reveal_strlit("/trending");
    assert("/trending"@.len() == 9);
}

proof fn lemma_push_routes()
    ensures
        apart(spec_push_routes()),
{
    reveal_strlit("/config");
    assert("/config"@.len() == 7);
    reveal_strlit("/subscribe");
    assert("/subscribe"@.len() == 10);
    reveal_strlit("/unsubscribe");
    assert("/unsubscribe"@.len() == 12);
}

proof fn lemma_notification_routes()
    ensures
        apart(spec_notification_routes()),
{
    reveal_strlit("/");
    assert("/"@.len() == 1);
    reveal_strlit("/read-all");
    assert("/read-all"@.len() == 9);
    reveal_strlit("/unread");
    assert("/unread"@.len() == 7);
    reveal_strlit("/unread-count");
    assert("/unread-count"@.len() == 13);
    reveal_strlit("/{notification_id}/read");
    assert("/{notification_id}/read"@.len() == 23);
}

proof fn lemma_tenant_routes()
    ensures
        apart(spec_tenant_routes()),
{
    reveal_strlit("/");
    assert("/"@.len() == 1);
    reveal_strlit("/{tenant_id}");
    assert("/{tenant_id}"@.len() == 12);
}

proof fn lemma_member_routes()
    ensures
        apart(spec_member_routes()),
{
    reveal_strlit("/");
    assert("/"@.len() == 1);
}

proof fn lemma_role_routes()
    ensures
        apart(spec_role_routes()),
{
    reveal_strlit("/");
    assert("/"@.len() == 1);
    reveal_strlit("/{role_id}");
    assert("/{role_id}"@.len() == 10);
    reveal_strlit("/{role_id}/assign/{user_id}");
    assert("/{role_id}/assign/{user_id}"@.len() == 27);
}

proof fn lemma_tenant_invite_routes()
    ensures
        apart(spec_tenant_invite_routes()),
{
    reveal_strlit("/");
    assert("/"@.len() == 1);
    reveal_strlit("/batch");
    assert("/batch"@.len() == 6);
    reveal_strlit("/{invite_id}");
    assert("/{invite_id}"@.len() == 12);
}

proof fn lemma_search_routes()
    ensures
        apart(spec_search_routes()),
{
    reveal_strlit("/");
    assert("/"@.len() == 1);
}

proof fn lemma_room_routes()
    ensures
        apart(spec_room_routes()),
{
    reveal_strlit("/");
    assert("/"@.len() == 1);
    reveal_strlit("/explore");
    assert("/explore"@.len() == 8);
    reveal_strlit("/{room_id}");
    assert("/{room_id}"@.len() == 10);
    reveal_strlit("/{room_id}/call/end");
    assert("/{room_id}/call/end"@.len() == 19);
    reveal_strlit("/{room_id}/call/join");
    assert("/{room_id}/call/join"@.len() == 20);
    reveal_strlit("/{room_id}/call/leave");
    assert("/{room_id}/call/leave"@.len() == 21);
    reveal_strlit("/{room_id}/call/message");
    assert("/{room_id}/call/message"@.len() == 23);
    reveal_strlit("/{room_id}/call/participant");
    assert("/{room_id}/call/participant"@.len() == 27);
    reveal_strlit("/{room_id}/call/start");
    assert("/{room_id}/call/start"@.len() == 21);
    reveal_strlit("/{room_id}/join");
    assert("/{room_id}/join"@.len() == 15);
    reveal_strlit("/{room_id}/leave");
    assert("/{room_id}/leave"@.len() == 16);
    reveal_strlit("/{room_id}/member");
    assert("/{room_id}/member"@.len() == 17);
    assert("/{room_id}/call/leave"@[16] != "/{room_id}/call/start"@[16]);
}

proof fn lemma_message_routes()
    ensures
        apart(spec_message_routes()),
{
    reveal_strlit("/");
    assert("/"@.len() == 1);
    reveal_strlit("/pin");
    assert("/pin"@.len() == 4);
    reveal_strlit("/read");
    assert("/read"@.len() == 5);
    reveal_strlit("/unread-count");
    assert("/unread-count"@.len() == 13);
    reveal_strlit("/{message_id}");
    assert("/{message_id}"@.len() == 13);
    reveal_strlit("/{message_id}/pin");
    assert("/{message_id}/pin"@.len() == 17);
    reveal_strlit("/{message_id}/reaction");
    assert("/{message_id}/reaction"@.len() == 22);
    reveal_strlit("/{message_id}/reaction/{emoji}");
    assert("/{message_id}/reaction/{emoji}"@.len() == 30);
    reveal_strlit("/{message_id}/thread");
    assert("/{message_id}/thread"@.len() == 20);
}

proof fn lemma_recording_routes()
    ensures
        apart(spec_recording_routes()),
{
    reveal_strlit("/");
    assert("/"@.len() == 1);
    reveal_strlit("/{recording_id}");
    assert("/{recording_id}"@.len() == 15);
}

proof fn lemma_room_file_routes()
    ensures
        apart(spec_room_file_routes()),
{
    reveal_strlit("/");
    assert("/"@.len() == 1);
    reveal_strlit("/upload");
    assert("/upload"@.len() == 7);
}

proof fn lemma_file_by_id_routes()
    ensures
        apart(spec_file_by_id_routes()),
{
    reveal_strlit("/");
    assert("/"@.len() == 1);
    reveal_strlit("/upload");
    assert("/upload"@.len() == 7);
    reveal_strlit("/{file_id}");
    assert("/{file_id}"@.len() == 10);
    reveal_strlit("/{file_id}/download");
    assert("/{file_id}/download"@.len() == 19);
    reveal_strlit("/{file_id}/recognize");
    assert("/{file_id}/recognize"@.len() == 20);
}

proof fn lemma_task_routes()
    ensures
        apart(spec_task_routes()),
{
    reveal_strlit("/");
    assert("/"@.len() == 1);
    reveal_strlit("/{task_id}");
    assert("/{task_id}"@.len() == 10);
    reveal_strlit("/{task_id}/download");
    assert("/{task_id}/download"@.len() == 19);
}

proof fn lemma_export_routes()
    ensures
        apart(spec_export_routes()),
{
    reveal_strlit("/conversation");
    assert("/conversation"@.len() == 13);
    reveal_strlit("/conversation-pdf");
    assert("/conversation-pdf"@.len() == 17);
}

/// No two routes of a group answer the same requests.
pub proof fn routes_are_apart(group: Group)
    ensures
        apart(routes_of(group)),
{
    match group {
        Group::Auth => lemma_auth_routes(),
        Group::User => lemma_user_routes(),
        Group::Oauth => lemma_oauth_routes(),
        Group::Stripe => lemma_stripe_routes(),
        Group::PublicInvite => lemma_public_invite_routes(),
        Group::Giphy => lemma_giphy_routes(),
        Group::Push => lemma_push_routes(),
        Group::Notification => lemma_notification_routes(),
        Group::Tenant => lemma_tenant_routes(),
        Group::Member => lemma_member_routes(),
        Group::Role => lemma_role_routes(),
        Group::TenantInvite => lemma_tenant_invite_routes(),
        Group::Search => lemma_search_routes(),
        Group::Room => lemma_room_routes(),
        Group::Message => lemma_message_routes(),
        Group::Recording => lemma_recording_routes(),
        Group::RoomFile => lemma_room_file_routes(),
        Group::FileById => lemma_file_by_id_routes(),
        Group::Task => lemma_task_routes(),
        Group::Export => lemma_export_routes(),
    }
}

/// The groups have prefixes of their own.
pub proof fn prefixes_are_apart(a: Group, b: Group)
    requires
        spec_prefix(a)@ == spec_prefix(b)@,
    ensures
        a == b,
{
    reveal_strlit("/auth");
    assert("/auth"@.len() == 5);
    reveal_strlit("/user");
    assert("/user"@.len() == 5);
    reveal_strlit("/oauth");
    assert("/oauth"@.len() == 6);
    reveal_strlit("/stripe");
    assert("/stripe"@.len() == 7);
    reveal_strlit("/invite");
    assert("/invite"@.len() == 7);
    reveal_strlit("/giphy");
    assert("/giphy"@.len() == 6);
    reveal_strlit("/push");
    assert("/push"@.len() == 5);
    reveal_strlit("/notification");
    assert("/notification"@.len() == 13);
    reveal_strlit("/tenant");
    assert("/tenant"@.len() == 7);
    reveal_strlit("/tenant/{tenant_id}/member");
    assert("/tenant/{tenant_id}/member"@.len() == 26);
    reveal_strlit("/tenant/{tenant_id}/role");
    assert("/tenant/{tenant_id}/role"@.len() == 24);
    reveal_strlit("/tenant/{tenant_id}/invite");
    assert("/tenant/{tenant_id}/invite"@.len() == 26);
    reveal_strlit("/tenant/{tenant_id}/search");
    assert("/tenant/{tenant_id}/search"@.len() == 26);
    reveal_strlit("/tenant/{tenant_id}/room");
    assert("/tenant/{tenant_id}/room"@.len() == 24);
    reveal_strlit("/tenant/{tenant_id}/room/{room_id}/message");
    assert("/tenant/{tenant_id}/room/{room_id}/message"@.len() == 42);
    reveal_strlit("/tenant/{tenant_id}/room/{room_id}/recording");
    assert("/tenant/{tenant_id}/room/{room_id}/recording"@.len() == 44);
    reveal_strlit("/tenant/{tenant_id}/room/{room_id}/file");
    assert("/tenant/{tenant_id}/room/{room_id}/file"@.len() == 39);
    reveal_strlit("/tenant/{tenant_id}/file");
    assert("/tenant/{tenant_id}/file"@.len() == 24);
    reveal_strlit("/tenant/{tenant_id}/task");
    assert("/tenant/{tenant_id}/task"@.len() == 24);
    reveal_strlit("/tenant/{tenant_id}/export");
    assert("/tenant/{tenant_id}/export"@.len() == 26);
    assert("/auth"@[1] != "/user"@[1]);
    assert("/auth"@[1] != "/push"@[1]);
    assert("/user"@[1] != "/push"@[1]);
    assert("/oauth"@[1] != "/giphy"@[1]);
    assert("/stripe"@[1] != "/invite"@[1]);
    assert("/stripe"@[1] != "/tenant"@[1]);
    assert("/invite"@[1] != "/tenant"@[1]);
    assert("/tenant/{tenant_id}/member"@[20] != "/tenant/{tenant_id}/invite"@[20]);
    assert("/tenant/{tenant_id}/member"@[20] != "/tenant/{tenant_id}/search"@[20]);
    assert("/tenant/{tenant_id}/member"@[20] != "/tenant/{tenant_id}/export"@[20]);
    assert("/tenant/{tenant_id}/role"@[22] != "/tenant/{tenant_id}/room"@[22]);
    assert("/tenant/{tenant_id}/role"@[20] != "/tenant/{tenant_id}/file"@[20]);
    assert("/tenant/{tenant_id}/role"@[20] != "/tenant/{tenant_id}/task"@[20]);
    assert("/tenant/{tenant_id}/invite"@[20] != "/tenant/{tenant_id}/search"@[20]);
    assert("/tenant/{tenant_id}/invite"@[20] != "/tenant/{tenant_id}/export"@[20]);
    assert("/tenant/{tenant_id}/search"@[20] != "/tenant/{tenant_id}/export"@[20]);
    assert("/tenant/{tenant_id}/room"@[20] != "/tenant/{tenant_id}/file"@[20]);
    assert("/tenant/{tenant_id}/room"@[20] != "/tenant/{tenant_id}/task"@[20]);
    assert("/tenant/{tenant_id}/file"@[20] != "/tenant/{tenant_id}/task"@[20]);
}

/// Who may call the API from a page of another origin.
#[derive(Debug)]
pub enum Origins {
    /// Everyone, without credentials.
    Any,
    /// Pages of the listed origins, with credentials; a text that is no
    /// header value is passed over.
    Only(Vec<String>),
}

/// The wildcard is among the origins.
pub open spec fn has_wildcard(origins: Seq<Seq<char>>) -> bool {
    exists|i: int| 0 <= i < origins.len() && #[trigger] origins[i] == "*"@
}

/// The policy for a list of origins: everyone where it is empty or holds the
/// wildcard.
pub fn build_cors_layer(origins: &Vec<String>) -> (r: Origins)
    ensures
        r is Any <==> origins@.len() == 0 || has_wildcard(crate::text::views(origins@)),
        r matches Origins::Only(list) ==> list@ == origins@,
{
    let ghost all = crate::text::views(origins@);
    if origins.len() == 0 {
        return Origins::Any;
    }
    let mut i: usize = 0;
    while i < origins.len()
        invariant
            i <= origins@.len(),
            all == crate::text::views(origins@),
            forall|j: int| 0 <= j < i ==> #[trigger] all[j] != "*"@,
        decreases origins@.len() - i,
    {
        if crate::text::same(origins[i].as_str(), "*") {
            proof {
                assert(all[i as int] == "*"@);
            }
            return Origins::Any;
        }
        i = i + 1;
    }
    Origins::Only(crate::text::copy_list(origins))
}

} // verus!
