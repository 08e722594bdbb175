//! The indexes that the database keeps.
use vstd::prelude::*;

verus! {

/// How a key is indexed.
#[derive(Debug, Clone, Copy, PartialEq, Eq, Structural)]
#[allow(missing_docs)]
pub enum Order {
    Ascending,
    Descending,
    Text,
}

/// What an index promises beyond its keys.
#[derive(Debug, Clone, Copy, PartialEq, Eq, Structural)]
pub enum Promise {
    /// Nothing.
    Plain,
    /// No two documents have the same keys.
    Unique,
    /// No two documents that have the key have the same one.
    UniqueSparse,
    /// A document goes this many seconds after the time in its key.
    Expiry(u64),
}

/// An index: its keys in order, and what it promises.
#[derive(Debug)]
#[allow(missing_docs)]
pub struct Index {
    pub keys: Vec<(&'static str, Order)>,
    pub promise: Promise,
}

impl View for Index {
    type V = (Seq<(Seq<char>, Order)>, Promise);

    open spec fn view(&self) -> (Seq<(Seq<char>, Order)>, Promise) {
        (key_views(self.keys@), self.promise)
    }
}

/// What keys say.
pub open spec fn key_views(keys: Seq<(&'static str, Order)>) -> Seq<(Seq<char>, Order)> {
    keys.map_values(|k: (&'static str, Order)| (k.0@, k.1))
}

/// What indexes say.
pub open spec fn index_views(list: Seq<Index>) -> Seq<(Seq<(Seq<char>, Order)>, Promise)> {
    list.map_values(|i: Index| i@)
}

/// The collections that are indexed.
#[derive(Debug, Clone, Copy, PartialEq, Eq, Structural)]
#[allow(missing_docs)]
pub enum Collection {
    Tenants,
    Users,
    TenantMembers,
    Roles,
    Rooms,
    RoomMembers,
    Messages,
    Reactions,
    Recordings,
    Files,
    Invites,
    BackgroundTasks,
    AuditLogs,
    Notifications,
    CustomEmojis,
    ActivationCodes,
}

/// The name of a collection.
pub open spec fn spec_name(c: Collection) -> &'static str {
    match c {
        Collection::Tenants => "tenants",
        Collection::Users => "users",
        Collection::TenantMembers => "tenant_members",
        Collection::Roles => "roles",
        Collection::Rooms => "rooms",
        Collection::RoomMembers => "room_members",
        Collection::Messages => "messages",
        Collection::Reactions => "reactions",
        Collection::Recordings => "recordings",
        Collection::Files => "files",
        Collection::Invites => "invites",
        Collection::BackgroundTasks => "background_tasks",
        Collection::AuditLogs => "audit_logs",
        Collection::Notifications => "notifications",
        Collection::CustomEmojis => "custom_emojis",
        Collection::ActivationCodes => "activation_codes",
    }
}

/// The name of a collection.
pub fn name(c: Collection) -> (r: &'static str)
    ensures
        r@ == spec_name(c)@,
{
    match c {
        Collection::Tenants => "tenants",
        Collection::Users => "users",
        Collection::TenantMembers => "tenant_members",
        Collection::Roles => "roles",
        Collection::Rooms => "rooms",
        Collection::RoomMembers => "room_members",
        Collection::Messages => "messages",
        Collection::Reactions => "reactions",
        Collection::Recordings => "recordings",
        Collection::Files => "files",
        Collection::Invites => "invites",
        Collection::BackgroundTasks => "background_tasks",
        Collection::AuditLogs => "audit_logs",
        Collection::Notifications => "notifications",
        Collection::CustomEmojis => "custom_emojis",
        Collection::ActivationCodes => "activation_codes",
    }
}

/// The collections, in the order in which their indexes are made.
pub open spec fn all_collections() -> Seq<Collection> {
    seq![
        Collection::Tenants,
        Collection::Users,
        Collection::TenantMembers,
        Collection::Roles,
        Collection::Rooms,
        Collection::RoomMembers,
        Collection::Messages,
        Collection::Reactions,
        Collection::Recordings,
        Collection::Files,
        Collection::Invites,
        Collection::BackgroundTasks,
        Collection::AuditLogs,
        Collection::Notifications,
        Collection::CustomEmojis,
        Collection::ActivationCodes,
    ]
}

/// The collections, in the order in which their indexes are made.
pub fn collections() -> (r: Vec<Collection>)
    ensures
        r@ == all_collections(),
{
    let mut out: Vec<Collection> = Vec::new();
    out.push(Collection::Tenants);
    out.push(Collection::Users);
    out.push(Collection::TenantMembers);
    out.push(Collection::Roles);
    out.push(Collection::Rooms);
    out.push(Collection::RoomMembers);
    out.push(Collection::Messages);
    out.push(Collection::Reactions);
    out.push(Collection::Recordings);
    out.push(Collection::Files);
    out.push(Collection::Invites);
    out.push(Collection::BackgroundTasks);
    out.push(Collection::AuditLogs);
    out.push(Collection::Notifications);
    out.push(Collection::CustomEmojis);
    out.push(Collection::ActivationCodes);
    out
}

/// The seconds after which an audit log goes: ninety days.
pub const AUDIT_LOG_SECONDS: u64 = 7776000;

/// The indexes of a collection, in order.
pub open spec fn indexes_of(c: Collection) -> Seq<(Seq<(Seq<char>, Order)>, Promise)> {
    match c {
        Collection::Tenants => spec_tenants(),
        Collection::Users => spec_users(),
        Collection::TenantMembers => spec_tenant_members(),
        Collection::Roles => spec_roles(),
        Collection::Rooms => spec_rooms(),
        Collection::RoomMembers => spec_room_members(),
        Collection::Messages => spec_messages(),
        Collection::Reactions => spec_reactions(),
        Collection::Recordings => spec_recordings(),
        Collection::Files => spec_files(),
        Collection::Invites => spec_invites(),
        Collection::BackgroundTasks => spec_background_tasks(),
        Collection::AuditLogs => spec_audit_logs(),
        Collection::Notifications => spec_notifications(),
        Collection::CustomEmojis => spec_custom_emojis(),
        Collection::ActivationCodes => spec_activation_codes(),
    }
}

/// The indexes of `tenants`.
pub open spec fn spec_tenants() -> Seq<(Seq<(Seq<char>, Order)>, Promise)> {
    seq![
        (seq![("slug"@, Order::Ascending)], Promise::Unique),
        (seq![("owner_id"@, Order::Ascending)], Promise::Plain),
    ]
}

/// The indexes of `users`.
pub open spec fn spec_users() -> Seq<(Seq<(Seq<char>, Order)>, Promise)> {
    seq![
        (seq![("email"@, Order::Ascending)], Promise::Unique),
        (seq![("username"@, Order::Ascending)], Promise::Unique),
        (seq![("display_name"@, Order::Text), ("username"@, Order::Text)], Promise::Plain),
    ]
}

/// The indexes of `tenant_members`.
pub open spec fn spec_tenant_members() -> Seq<(Seq<(Seq<char>, Order)>, Promise)> {
    seq![
        (seq![("tenant_id"@, Order::Ascending), ("user_id"@, Order::Ascending)], Promise::Unique),
        (seq![("user_id"@, Order::Ascending)], Promise::Plain),
    ]
}

/// The indexes of `roles`.
pub open spec fn spec_roles() -> Seq<(Seq<(Seq<char>, Order)>, Promise)> {
    seq![
        (seq![("tenant_id"@, Order::Ascending), ("name"@, Order::Ascending)], Promise::Unique),
        (seq![("tenant_id"@, Order::Ascending), ("position"@, Order::Ascending)], Promise::Plain),
    ]
}

/// The indexes of `rooms`.
pub open spec fn spec_rooms() -> Seq<(Seq<(Seq<char>, Order)>, Promise)> {
    seq![
        (seq![("tenant_id"@, Order::Ascending), ("parent_id"@, Order::Ascending), ("position"@, Order::Ascending)], Promise::Plain),
        (seq![("tenant_id"@, Order::Ascending), ("path"@, Order::Ascending)], Promise::Unique),
        (seq![("tenant_id"@, Order::Ascending), ("name"@, Order::Ascending)], Promise::Plain),
        (seq![("tenant_id"@, Order::Ascending), ("is_default"@, Order::Ascending)], Promise::Plain),
        (seq![("meeting_code"@, Order::Ascending)], Promise::UniqueSparse),
        (seq![("name"@, Order::Text), ("purpose"@, Order::Text), ("tags"@, Order::Text)], Promise::Plain),
    ]
}

/// The indexes of `room_members`.
pub open spec fn spec_room_members() -> Seq<(Seq<(Seq<char>, Order)>, Promise)> {
    seq![
        (seq![("room_id"@, Order::Ascending), ("user_id"@, Order::Ascending)], Promise::Unique),
        (seq![("user_id"@, Order::Ascending), ("tenant_id"@, Order::Ascending)], Promise::Plain),
    ]
}

/// The indexes of `messages`.
pub open spec fn spec_messages() -> Seq<(Seq<(Seq<char>, Order)>, Promise)> {
    seq![
        (seq![("room_id"@, Order::Ascending), ("created_at"@, Order::Descending)], Promise::Plain),
        (seq![("thread_id"@, Order::Ascending), ("created_at"@, Order::Ascending)], Promise::Plain),
        (seq![("tenant_id"@, Order::Ascending), ("author_id"@, Order::Ascending), ("created_at"@, Order::Descending)], Promise::Plain),
        (seq![("room_id"@, Order::Ascending), ("is_pinned"@, Order::Ascending)], Promise::Plain),
        (seq![("mentions.users"@, Order::Ascending)], Promise::Plain),
        (seq![("content"@, Order::Text)], Promise::Plain),
    ]
}

/// The indexes of `reactions`.
pub open spec fn spec_reactions() -> Seq<(Seq<(Seq<char>, Order)>, Promise)> {
    seq![
        (seq![("message_id"@, Order::Ascending), ("emoji.value"@, Order::Ascending), ("user_id"@, Order::Ascending)], Promise::Unique),
    ]
}

/// The indexes of `recordings`.
pub open spec fn spec_recordings() -> Seq<(Seq<(Seq<char>, Order)>, Promise)> {
    seq![
        (seq![("room_id"@, Order::Ascending), ("recording_type"@, Order::Ascending)], Promise::Plain),
        (seq![("tenant_id"@, Order::Ascending), ("status"@, Order::Ascending)], Promise::Plain),
    ]
}

/// The indexes of `files`.
pub open spec fn spec_files() -> Seq<(Seq<(Seq<char>, Order)>, Promise)> {
    seq![
        (seq![("tenant_id"@, Order::Ascending), ("context.context_type"@, Order::Ascending), ("context.entity_id"@, Order::Ascending)], Promise::Plain),
        (seq![("tenant_id"@, Order::Ascending), ("uploaded_by"@, Order::Ascending), ("created_at"@, Order::Descending)], Promise::Plain),
        (seq![("tenant_id"@, Order::Ascending), ("context.room_id"@, Order::Ascending), ("created_at"@, Order::Descending)], Promise::Plain),
        (seq![("external_source.provider"@, Order::Ascending), ("external_source.external_id"@, Order::Ascending)], Promise::Plain),
    ]
}

/// The indexes of `invites`.
pub open spec fn spec_invites() -> Seq<(Seq<(Seq<char>, Order)>, Promise)> {
    seq![
        (seq![("code"@, Order::Ascending)], Promise::Unique),
        (seq![("tenant_id"@, Order::Ascending), ("status"@, Order::Ascending)], Promise::Plain),
    ]
}

/// The indexes of `background_tasks`.
pub open spec fn spec_background_tasks() -> Seq<(Seq<(Seq<char>, Order)>, Promise)> {
    seq![
        (seq![("tenant_id"@, Order::Ascending), ("user_id"@, Order::Ascending), ("status"@, Order::Ascending)], Promise::Plain),
        (seq![("expires_at"@, Order::Ascending)], Promise::Expiry(0)),
    ]
}

/// The indexes of `audit_logs`.
pub open spec fn spec_audit_logs() -> Seq<(Seq<(Seq<char>, Order)>, Promise)> {
    seq![
        (seq![("tenant_id"@, Order::Ascending), ("created_at"@, Order::Descending)], Promise::Plain),
        (seq![("tenant_id"@, Order::Ascending), ("action"@, Order::Ascending), ("created_at"@, Order::Descending)], Promise::Plain),
        (seq![("tenant_id"@, Order::Ascending), ("actor_id"@, Order::Ascending), ("created_at"@, Order::Descending)], Promise::Plain),
        (seq![("created_at"@, Order::Ascending)], Promise::Expiry(AUDIT_LOG_SECONDS)),
    ]
}

/// The indexes of `notifications`.
pub open spec fn spec_notifications() -> Seq<(Seq<(Seq<char>, Order)>, Promise)> {
    seq![
        (seq![("user_id"@, Order::Ascending), ("is_read"@, Order::Ascending), ("created_at"@, Order::Descending)], Promise::Plain),
        (seq![("tenant_id"@, Order::Ascending), ("user_id"@, Order::Ascending)], Promise::Plain),
    ]
}

/// The indexes of `custom_emojis`.
pub open spec fn spec_custom_emojis() -> Seq<(Seq<(Seq<char>, Order)>, Promise)> {
    seq![
        (seq![("tenant_id"@, Order::Ascending), ("name"@, Order::Ascending)], Promise::Unique),
    ]
}

/// The indexes of `activation_codes`.
pub open spec fn spec_activation_codes() -> Seq<(Seq<(Seq<char>, Order)>, Promise)> {
    seq![
        (seq![("user_id"@, Order::Ascending)], Promise::Plain),
        (seq![("valid_to"@, Order::Ascending)], Promise::Expiry(0)),
    ]
}

/// An index on keys, with nothing promised.
fn index(keys: Vec<(&'static str, Order)>) -> (r: Index)
    ensures
        key_views(r.keys@) == key_views(keys@),
        r.promise == Promise::Plain,
{
    Index { keys, promise: Promise::Plain }
}

/// An index on keys that no two documents share.
fn index_unique(keys: Vec<(&'static str, Order)>) -> (r: Index)
    ensures
        key_views(r.keys@) == key_views(keys@),
        r.promise == Promise::Unique,
{
    Index { keys, promise: Promise::Unique }
}

/// An index on keys that no two documents that have them share.
fn index_unique_sparse(keys: Vec<(&'static str, Order)>) -> (r: Index)
    ensures
        key_views(r.keys@) == key_views(keys@),
        r.promise == Promise::UniqueSparse,
{
    Index { keys, promise: Promise::UniqueSparse }
}

/// An index by which documents go after a while.
fn index_ttl(keys: Vec<(&'static str, Order)>, expire_after_secs: u64) -> (r: Index)
    ensures
        key_views(r.keys@) == key_views(keys@),
        r.promise == Promise::Expiry(expire_after_secs),
{
    Index { keys, promise: Promise::Expiry(expire_after_secs) }
}

/// An index on the words of texts.
fn index_text(keys: Vec<(&'static str, Order)>) -> (r: Index)
    ensures
        key_views(r.keys@) == key_views(keys@),
        r.promise == Promise::Plain,
{
    Index { keys, promise: Promise::Plain }
}

fn no_keys() -> (r: Vec<(&'static str, Order)>)
    ensures
        key_views(r@) == Seq::<(Seq<char>, Order)>::empty(),
{
    let out: Vec<(&'static str, Order)> = Vec::new();
    proof {
        assert(key_views(out@) =~= Seq::empty());
    }
    out
}

fn key(keys: Vec<(&'static str, Order)>, name: &'static str, order: Order) -> (r: Vec<
    (&'static str, Order),
>)
    ensures
        key_views(r@) == key_views(keys@).push((name@, order)),
{
    let mut out: Vec<(&'static str, Order)> = keys;
    out.push((name, order));
    proof {
        assert(key_views(out@) =~= key_views(keys@).push((name@, order)));
    }
    out
}

fn no_indexes() -> (r: Vec<Index>)
    ensures
        index_views(r@) == Seq::<(Seq<(Seq<char>, Order)>, Promise)>::empty(),
{
    let out: Vec<Index> = Vec::new();
    proof {
        assert(index_views(out@) =~= Seq::empty());
    }
    out
}

fn and(list: Vec<Index>, one: Index) -> (r: Vec<Index>)
    ensures
        index_views(r@) == index_views(list@).push(one@),
{
    let mut out: Vec<Index> = list;
    out.push(one);
    proof {
        assert(index_views(out@) =~= index_views(list@).push(one@));
    }
    out
}

fn tenants() -> (r: Vec<Index>)
    ensures
        index_views(r@) == spec_tenants(),
{
    let list: Vec<Index> = no_indexes();
    let one: Index = index_unique(key(no_keys(), "slug", Order::Ascending));
    assert(one@ == (seq![("slug"@, Order::Ascending)], Promise::Unique));
    let list: Vec<Index> = and(list, one);
    let one: Index = index(key(no_keys(), "owner_id", Order::Ascending));
    assert(one@ == (seq![("owner_id"@, Order::Ascending)], Promise::Plain));
    let list: Vec<Index> = and(list, one);
    list
}

fn users() -> (r: Vec<Index>)
    ensures
        index_views(r@) == spec_users(),
{
    let list: Vec<Index> = no_indexes();
    let one: Index = index_unique(key(no_keys(), "email", Order::Ascending));
    assert(one@ == (seq![("email"@, Order::Ascending)], Promise::Unique));
    let list: Vec<Index> = and(list, one);
    let one: Index = index_unique(key(no_keys(), "username", Order::Ascending));
    assert(one@ == (seq![("username"@, Order::Ascending)], Promise::Unique));
    let list: Vec<Index> = and(list, one);
    let one: Index = index_text(key(key(no_keys(), "display_name", Order::Text), "username", Order::Text));
    assert(one@ == (seq![("display_name"@, Order::Text), ("username"@, Order::Text)], Promise::Plain));
    let list: Vec<Index> = and(list, one);
    list
}

fn tenant_members() -> (r: Vec<Index>)
    ensures
        index_views(r@) == spec_tenant_members(),
{
    let list: Vec<Index> = no_indexes();
    let one: Index = index_unique(key(key(no_keys(), "tenant_id", Order::Ascending), "user_id", Order::Ascending));
    assert(one@ == (seq![("tenant_id"@, Order::Ascending), ("user_id"@, Order::Ascending)], Promise::Unique));
    let list: Vec<Index> = and(list, one);
    let one: Index = index(key(no_keys(), "user_id", Order::Ascending));
    assert(one@ == (seq![("user_id"@, Order::Ascending)], Promise::Plain));
    let list: Vec<Index> = and(list, one);
    list
}

fn roles() -> (r: Vec<Index>)
    ensures
        index_views(r@) == spec_roles(),
{
    let list: Vec<Index> = no_indexes();
    let one: Index = index_unique(key(key(no_keys(), "tenant_id", Order::Ascending), "name", Order::Ascending));
    assert(one@ == (seq![("tenant_id"@, Order::Ascending), ("name"@, Order::Ascending)], Promise::Unique));
    let list: Vec<Index> = and(list, one);
    let one: Index = index(key(key(no_keys(), "tenant_id", Order::Ascending), "position", Order::Ascending));
    assert(one@ == (seq![("tenant_id"@, Order::Ascending), ("position"@, Order::Ascending)], Promise::Plain));
    let list: Vec<Index> = and(list, one);
    list
}

fn rooms() -> (r: Vec<Index>)
    ensures
        index_views(r@) == spec_rooms(),
{
    let list: Vec<Index> = no_indexes();
    let one: Index = index(key(key(key(no_keys(), "tenant_id", Order::Ascending), "parent_id", Order::Ascending), "position", Order::Ascending));
    assert(one@ == (seq![("tenant_id"@, Order::Ascending), ("parent_id"@, Order::Ascending), ("position"@, Order::Ascending)], Promise::Plain));
    let list: Vec<Index> = and(list, one);
    let one: Index = index_unique(key(key(no_keys(), "tenant_id", Order::Ascending), "path", Order::Ascending));
    assert(one@ == (seq![("tenant_id"@, Order::Ascending), ("path"@, Order::Ascending)], Promise::Unique));
    let list: Vec<Index> = and(list, one);
    let one: Index = index(key(key(no_keys(), "tenant_id", Order::Ascending), "name", Order::Ascending));
    assert(one@ == (seq![("tenant_id"@, Order::Ascending), ("name"@, Order::Ascending)], Promise::Plain));
    let list: Vec<Index> = and(list, one);
    let one: Index = index(key(key(no_keys(), "tenant_id", Order::Ascending), "is_default", Order::Ascending));
    assert(one@ == (seq![("tenant_id"@, Order::Ascending), ("is_default"@, Order::Ascending)], Promise::Plain));
    let list: Vec<Index> = and(list, one);
    let one: Index = index_unique_sparse(key(no_keys(), "meeting_code", Order::Ascending));
    assert(one@ == (seq![("meeting_code"@, Order::Ascending)], Promise::UniqueSparse));
    let list: Vec<Index> = and(list, one);
    let one: Index = index_text(key(key(key(no_keys(), "name", Order::Text), "purpose", Order::Text), "tags", Order::Text));
    assert(one@ == (seq![("name"@, Order::Text), ("purpose"@, Order::Text), ("tags"@, Order::Text)], Promise::Plain));
    let list: Vec<Index> = and(list, one);
    list
}

fn room_members() -> (r: Vec<Index>)
    ensures
        index_views(r@) == spec_room_members(),
{
    let list: Vec<Index> = no_indexes();
    let one: Index = index_unique(key(key(no_keys(), "room_id", Order::Ascending), "user_id", Order::Ascending));
    assert(one@ == (seq![("room_id"@, Order::Ascending), ("user_id"@, Order::Ascending)], Promise::Unique));
    let list: Vec<Index> = and(list, one);
    let one: Index = index(key(key(no_keys(), "user_id", Order::Ascending), "tenant_id", Order::Ascending));
    assert(one@ == (seq![("user_id"@, Order::Ascending), ("tenant_id"@, Order::Ascending)], Promise::Plain));
    let list: Vec<Index> = and(list, one);
    list
}

fn messages() -> (r: Vec<Index>)
    ensures
        index_views(r@) == spec_messages(),
{
    let list: Vec<Index> = no_indexes();
    let one: Index = index(key(key(no_keys(), "room_id", Order::Ascending), "created_at", Order::Descending));
    assert(one@ == (seq![("room_id"@, Order::Ascending), ("created_at"@, Order::Descending)], Promise::Plain));
    let list: Vec<Index> = and(list, one);
    let one: Index = index(key(key(no_keys(), "thread_id", Order::Ascending), "created_at", Order::Ascending));
    assert(one@ == (seq![("thread_id"@, Order::Ascending), ("created_at"@, Order::Ascending)], Promise::Plain));
    let list: Vec<Index> = and(list, one);
    let one: Index = index(key(key(key(no_keys(), "tenant_id", Order::Ascending), "author_id", Order::Ascending), "created_at", Order::Descending));
    assert(one@ == (seq![("tenant_id"@, Order::Ascending), ("author_id"@, Order::Ascending), ("created_at"@, Order::Descending)], Promise::Plain));
    let list: Vec<Index> = and(list, one);
    let one: Index = index(key(key(no_keys(), "room_id", Order::Ascending), "is_pinned", Order::Ascending));
    assert(one@ == (seq![("room_id"@, Order::Ascending), ("is_pinned"@, Order::Ascending)], Promise::Plain));
    let list: Vec<Index> = and(list, one);
    let one: Index = index(key(no_keys(), "mentions.users", Order::Ascending));
    assert(one@ == (seq![("mentions.users"@, Order::Ascending)], Promise::Plain));
    let list: Vec<Index> = and(list, one);
    let one: Index = index_text(key(no_keys(), "content", Order::Text));
    assert(one@ == (seq![("content"@, Order::Text)], Promise::Plain));
    let list: Vec<Index> = and(list, one);
    list
}

fn reactions() -> (r: Vec<Index>)
    ensures
        index_views(r@) == spec_reactions(),
{
    let list: Vec<Index> = no_indexes();
    let one: Index = index_unique(key(key(key(no_keys(), "message_id", Order::Ascending), "emoji.value", Order::Ascending), "user_id", Order::Ascending));
    assert(one@ == (seq![("message_id"@, Order::Ascending), ("emoji.value"@, Order::Ascending), ("user_id"@, Order::Ascending)], Promise::Unique));
    let list: Vec<Index> = and(list, one);
    list
}

fn recordings() -> (r: Vec<Index>)
    ensures
        index_views(r@) == spec_recordings(),
{
    let list: Vec<Index> = no_indexes();
    let one: Index = index(key(key(no_keys(), "room_id", Order::Ascending), "recording_type", Order::Ascending));
    assert(one@ == (seq![("room_id"@, Order::Ascending), ("recording_type"@, Order::Ascending)], Promise::Plain));
    let list: Vec<Index> = and(list, one);
    let one: Index = index(key(key(no_keys(), "tenant_id", Order::Ascending), "status", Order::Ascending));
    assert(one@ == (seq![("tenant_id"@, Order::Ascending), ("status"@, Order::Ascending)], Promise::Plain));
    let list: Vec<Index> = and(list, one);
    list
}

fn files() -> (r: Vec<Index>)
    ensures
        index_views(r@) == spec_files(),
{
    let list: Vec<Index> = no_indexes();
    let one: Index = index(key(key(key(no_keys(), "tenant_id", Order::Ascending), "context.context_type", Order::Ascending), "context.entity_id", Order::Ascending));
    assert(one@ == (seq![("tenant_id"@, Order::Ascending), ("context.context_type"@, Order::Ascending), ("context.entity_id"@, Order::Ascending)], Promise::Plain));
    let list: Vec<Index> = and(list, one);
    let one: Index = index(key(key(key(no_keys(), "tenant_id", Order::Ascending), "uploaded_by", Order::Ascending), "created_at", Order::Descending));
    assert(one@ == (seq![("tenant_id"@, Order::Ascending), ("uploaded_by"@, Order::Ascending), ("created_at"@, Order::Descending)], Promise::Plain));
    let list: Vec<Index> = and(list, one);
    let one: Index = index(key(key(key(no_keys(), "tenant_id", Order::Ascending), "context.room_id", Order::Ascending), "created_at", Order::Descending));
    assert(one@ == (seq![("tenant_id"@, Order::Ascending), ("context.room_id"@, Order::Ascending), ("created_at"@, Order::Descending)], Promise::Plain));
    let list: Vec<Index> = and(list, one);
    let one: Index = index(key(key(no_keys(), "external_source.provider", Order::Ascending), "external_source.external_id", Order::Ascending));
    assert(one@ == (seq![("external_source.provider"@, Order::Ascending), ("external_source.external_id"@, Order::Ascending)], Promise::Plain));
    let list: Vec<Index> = and(list, one);
    list
}

fn invites() -> (r: Vec<Index>)
    ensures
        index_views(r@) == spec_invites(),
{
    let list: Vec<Index> = no_indexes();
    let one: Index = index_unique(key(no_keys(), "code", Order::Ascending));
    assert(one@ == (seq![("code"@, Order::Ascending)], Promise::Unique));
    let list: Vec<Index> = and(list, one);
    let one: Index = index(key(key(no_keys(), "tenant_id", Order::Ascending), "status", Order::Ascending));
    assert(one@ == (seq![("tenant_id"@, Order::Ascending), ("status"@, Order::Ascending)], Promise::Plain));
    let list: Vec<Index> = and(list, one);
    list
}

fn background_tasks() -> (r: Vec<Index>)
    ensures
        index_views(r@) == spec_background_tasks(),
{
    let list: Vec<Index> = no_indexes();
    let one: Index = index(key(key(key(no_keys(), "tenant_id", Order::Ascending), "user_id", Order::Ascending), "status", Order::Ascending));
    assert(one@ == (seq![("tenant_id"@, Order::Ascending), ("user_id"@, Order::Ascending), ("status"@, Order::Ascending)], Promise::Plain));
    let list: Vec<Index> = and(list, one);
    let one: Index = index_ttl(key(no_keys(), "expires_at", Order::Ascending), 0);
    assert(one@ == (seq![("expires_at"@, Order::Ascending)], Promise::Expiry(0)));
    let list: Vec<Index> = and(list, one);
    list
}

fn audit_logs() -> (r: Vec<Index>)
    ensures
        index_views(r@) == spec_audit_logs(),
{
    let list: Vec<Index> = no_indexes();
    let one: Index = index(key(key(no_keys(), "tenant_id", Order::Ascending), "created_at", Order::Descending));
    assert(one@ == (seq![("tenant_id"@, Order::Ascending), ("created_at"@, Order::Descending)], Promise::Plain));
    let list: Vec<Index> = and(list, one);
    let one: Index = index(key(key(key(no_keys(), "tenant_id", Order::Ascending), "action", Order::Ascending), "created_at", Order::Descending));
    assert(one@ == (seq![("tenant_id"@, Order::Ascending), ("action"@, Order::Ascending), ("created_at"@, Order::Descending)], Promise::Plain));
    let list: Vec<Index> = and(list, one);
    let one: Index = index(key(key(key(no_keys(), "tenant_id", Order::Ascending), "actor_id", Order::Ascending), "created_at", Order::Descending));
    assert(one@ == (seq![("tenant_id"@, Order::Ascending), ("actor_id"@, Order::Ascending), ("created_at"@, Order::Descending)], Promise::Plain));
    let list: Vec<Index> = and(list, one);
    let one: Index = index_ttl(key(no_keys(), "created_at", Order::Ascending), AUDIT_LOG_SECONDS);
    assert(one@ == (seq![("created_at"@, Order::Ascending)], Promise::Expiry(AUDIT_LOG_SECONDS)));
    let list: Vec<Index> = and(list, one);
    list
}

fn notifications() -> (r: Vec<Index>)
    ensures
        index_views(r@) == spec_notifications(),
{
    let list: Vec<Index> = no_indexes();
    let one: Index = index(key(key(key(no_keys(), "user_id", Order::Ascending), "is_read", Order::Ascending), "created_at", Order::Descending));
    assert(one@ == (seq![("user_id"@, Order::Ascending), ("is_read"@, Order::Ascending), ("created_at"@, Order::Descending)], Promise::Plain));
    let list: Vec<Index> = and(list, one);
    let one: Index = index(key(key(no_keys(), "tenant_id", Order::Ascending), "user_id", Order::Ascending));
    assert(one@ == (seq![("tenant_id"@, Order::Ascending), ("user_id"@, Order::Ascending)], Promise::Plain));
    let list: Vec<Index> = and(list, one);
    list
}

fn custom_emojis() -> (r: Vec<Index>)
    ensures
        index_views(r@) == spec_custom_emojis(),
{
    let list: Vec<Index> = no_indexes();
    let one: Index = index_unique(key(key(no_keys(), "tenant_id", Order::Ascending), "name", Order::Ascending));
    assert(one@ == (seq![("tenant_id"@, Order::Ascending), ("name"@, Order::Ascending)], Promise::Unique));
    let list: Vec<Index> = and(list, one);
    list
}

fn activation_codes() -> (r: Vec<Index>)
    ensures
        index_views(r@) == spec_activation_codes(),
{
    let list: Vec<Index> = no_indexes();
    let one: Index = index(key(no_keys(), "user_id", Order::Ascending));
    assert(one@ == (seq![("user_id"@, Order::Ascending)], Promise::Plain));
    let list: Vec<Index> = and(list, one);
    let one: Index = index_ttl(key(no_keys(), "valid_to", Order::Ascending), 0);
    assert(one@ == (seq![("valid_to"@, Order::Ascending)], Promise::Expiry(0)));
    let list: Vec<Index> = and(list, one);
    list
}

/// The indexes of a collection, in order.
pub fn ensure_indexes(c: Collection) -> (r: Vec<Index>)
    ensures
        index_views(r@) == indexes_of(c),
{
    match c {
        Collection::Tenants => tenants(),
        Collection::Users => users(),
        Collection::TenantMembers => tenant_members(),
        Collection::Roles => roles(),
        Collection::Rooms => rooms(),
        Collection::RoomMembers => room_members(),
        Collection::Messages => messages(),
        Collection::Reactions => reactions(),
        Collection::Recordings => recordings(),
        Collection::Files => files(),
        Collection::Invites => invites(),
        Collection::BackgroundTasks => background_tasks(),
        Collection::AuditLogs => audit_logs(),
        Collection::Notifications => notifications(),
        Collection::CustomEmojis => custom_emojis(),
        Collection::ActivationCodes => activation_codes(),
    }
}

/// What to do after the indexes of a collection were to be made.
#[derive(Debug, Clone, Copy, PartialEq, Eq, Structural)]
pub enum AfterCreate {
    /// They are made.
    Created,
    /// Indexes of other shapes stand in the way: drop all that the collection
    /// has and make them again.
    DropAndRetry,
    /// They cannot be made.
    Fail,
}

/// The database's code for an index of the same name with other options.
pub const INDEX_OPTIONS_CONFLICT: i32 = 85;

/// The database's code for an index of the same name with other keys.
pub const INDEX_KEY_SPECS_CONFLICT: i32 = 86;

/// What to do after the indexes of a collection were to be made; of an error,
/// the code that the database gave the command, where it gave one.
pub fn create_indexes(outcome: Result<(), Option<i32>>) -> (r: AfterCreate)
    ensures
        r == (match outcome {
            Ok(()) => AfterCreate::Created,
            Err(Some(code)) if code == 85 || code == 86 => AfterCreate::DropAndRetry,
            Err(_) => AfterCreate::Fail,
        }),
{
    match outcome {
        Ok(()) => AfterCreate::Created,
        Err(Some(code)) => if code == INDEX_OPTIONS_CONFLICT || code == INDEX_KEY_SPECS_CONFLICT {
            AfterCreate::DropAndRetry
        } else {
            AfterCreate::Fail
        },
        Err(None) => AfterCreate::Fail,
    }
}

/// An index by which documents go has a single, ascending key.
pub proof fn expiry_is_by_one_key(c: Collection, i: int)
    requires
        0 <= i < indexes_of(c).len(),
        indexes_of(c)[i].1 is Expiry,
    ensures
        indexes_of(c)[i].0.len() == 1,
        indexes_of(c)[i].0[0].1 == Order::Ascending,
{
    match c {
        Collection::Tenants => {},
        Collection::Users => {},
        Collection::TenantMembers => {},
        Collection::Roles => {},
        Collection::Rooms => {},
        Collection::RoomMembers => {},
        Collection::Messages => {},
        Collection::Reactions => {},
        Collection::Recordings => {},
        Collection::Files => {},
        Collection::Invites => {},
        Collection::BackgroundTasks => {},
        Collection::AuditLogs => {},
        Collection::Notifications => {},
        Collection::CustomEmojis => {},
        Collection::ActivationCodes => {},
    }
}

/// An index on the words of one text is on nothing but texts, and there is at
/// most one in a collection.
pub proof fn one_text_index(c: Collection, i: int, j: int, k: int)
    requires
        0 <= i < indexes_of(c).len(),
        0 <= k < indexes_of(c)[i].0.len(),
        indexes_of(c)[i].0[k].1 == Order::Text,
    ensures
        0 <= j < indexes_of(c)[i].0.len() ==> indexes_of(c)[i].0[j].1 == Order::Text,
        i != j && 0 <= j < indexes_of(c).len() ==> indexes_of(c)[j].0[0].1 != Order::Text,
{
    match c {
        Collection::Tenants => {},
        Collection::Users => {},
        Collection::TenantMembers => {},
        Collection::Roles => {},
        Collection::Rooms => {},
        Collection::RoomMembers => {},
        Collection::Messages => {},
        Collection::Reactions => {},
        Collection::Recordings => {},
        Collection::Files => {},
        Collection::Invites => {},
        Collection::BackgroundTasks => {},
        Collection::AuditLogs => {},
        Collection::Notifications => {},
        Collection::CustomEmojis => {},
        Collection::ActivationCodes => {},
    }
}

} // verus!
