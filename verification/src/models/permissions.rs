//! Permission bits of roles.
use vstd::prelude::*;

verus! {

/// See channels.
pub const VIEW_CHANNELS: u64 = 0x1;

/// Create, change and delete channels.
pub const MANAGE_CHANNELS: u64 = 0x2;

/// Create, change and delete roles.
pub const MANAGE_ROLES: u64 = 0x4;

/// Change the tenant and its billing.
pub const MANAGE_TENANT: u64 = 0x8;

/// Remove members.
pub const KICK_MEMBERS: u64 = 0x10;

/// Ban members.
pub const BAN_MEMBERS: u64 = 0x20;

/// Invite members.
pub const INVITE_MEMBERS: u64 = 0x40;

/// Send messages.
pub const SEND_MESSAGES: u64 = 0x80;

/// Reply in threads.
pub const SEND_THREADS: u64 = 0x100;

/// Have links embedded.
pub const EMBED_LINKS: u64 = 0x200;

/// Attach files.
pub const ATTACH_FILES: u64 = 0x400;

/// Read earlier messages.
pub const READ_HISTORY: u64 = 0x800;

/// Mention everyone.
pub const MENTION_EVERYONE: u64 = 0x1000;

/// Change and delete messages of others.
pub const MANAGE_MESSAGES: u64 = 0x2000;

/// React to messages.
pub const ADD_REACTIONS: u64 = 0x4000;

/// Join voice channels.
pub const CONNECT_VOICE: u64 = 0x8000;

/// Speak.
pub const SPEAK: u64 = 0x1_0000;

/// Share video.
pub const STREAM_VIDEO: u64 = 0x2_0000;

/// Mute others.
pub const MUTE_MEMBERS: u64 = 0x4_0000;

/// Deafen others.
pub const DEAFEN_MEMBERS: u64 = 0x8_0000;

/// Move others between channels.
pub const MOVE_MEMBERS: u64 = 0x10_0000;

/// Manage meetings.
pub const MANAGE_MEETINGS: u64 = 0x20_0000;

/// Manage documents.
pub const MANAGE_DOCUMENTS: u64 = 0x40_0000;

/// Everything.
pub const ADMINISTRATOR: u64 = 0x80_0000;

/// What every member may do.
pub const DEFAULT_MEMBER: u64 = 0x3_cf81;

/// What an admin may do: everything but what only [`ADMINISTRATOR`] grants.
pub const DEFAULT_ADMIN: u64 = 0x7f_ffff;

/// What an owner may do: everything.
pub const ALL: u64 = 0xff_ffff;

/// The permissions grant a flag: every bit of it is set, or the holder is an
/// administrator.
pub open spec fn granted(permissions: u64, flag: u64) -> bool {
    permissions & ADMINISTRATOR != 0 || permissions & flag == flag
}

/// Whether the permissions grant a flag.
pub fn has(permissions: u64, flag: u64) -> (r: bool)
    ensures
        r == granted(permissions, flag),
{
    permissions & ADMINISTRATOR != 0 || permissions & flag == flag
}

/// The members' set is what its ten flags make.
pub proof fn default_member_is_its_flags()
    ensures
        DEFAULT_MEMBER == VIEW_CHANNELS | SEND_MESSAGES | SEND_THREADS | EMBED_LINKS | ATTACH_FILES
            | READ_HISTORY | ADD_REACTIONS | CONNECT_VOICE | SPEAK | STREAM_VIDEO,
{
    assert(0x3_cf81u64 == 0x1u64 | 0x80u64 | 0x100u64 | 0x200u64 | 0x400u64 | 0x800u64 | 0x4000u64
        | 0x8000u64 | 0x1_0000u64 | 0x2_0000u64) by (bit_vector);
}

/// An administrator is granted everything.
pub proof fn administrator_is_granted_everything(permissions: u64, flag: u64)
    requires
        permissions & ADMINISTRATOR != 0,
    ensures
        granted(permissions, flag),
{
}

/// More permissions never grant less.
pub proof fn more_permissions_grant_more(permissions: u64, extra: u64, flag: u64)
    requires
        granted(permissions, flag),
    ensures
        granted(permissions | extra, flag),
{
    assert(permissions & 0x80_0000u64 != 0 ==> (permissions | extra) & 0x80_0000u64 != 0)
        by (bit_vector);
    assert(permissions & flag == flag ==> (permissions | extra) & flag == flag) by (bit_vector);
}

/// Two flags are granted together exactly where each is granted.
pub proof fn flags_are_granted_one_by_one(permissions: u64, a: u64, b: u64)
    ensures
        granted(permissions, a | b) == (granted(permissions, a) && granted(permissions, b)),
{
    assert((permissions & (a | b) == a | b) == (permissions & a == a && permissions & b == b))
        by (bit_vector);
}

/// The admins' set holds every flag but one, and that one it does not hold.
pub proof fn admin_holds_all_but_administrator()
    ensures
        DEFAULT_ADMIN | ADMINISTRATOR == ALL,
        DEFAULT_ADMIN & ADMINISTRATOR == 0,
        DEFAULT_ADMIN & DEFAULT_MEMBER == DEFAULT_MEMBER,
        granted(DEFAULT_ADMIN, MANAGE_TENANT),
        !granted(DEFAULT_MEMBER, MANAGE_TENANT),
{
    assert(0x7f_ffffu64 | 0x80_0000u64 == 0xff_ffffu64) by (bit_vector);
    assert(0x7f_ffffu64 & 0x80_0000u64 == 0u64) by (bit_vector);
    assert(0x7f_ffffu64 & 0x3_cf81u64 == 0x3_cf81u64) by (bit_vector);
    assert(0x7f_ffffu64 & 0x8u64 == 0x8u64) by (bit_vector);
    assert(0x3_cf81u64 & 0x80_0000u64 == 0u64) by (bit_vector);
    assert(0x3_cf81u64 & 0x8u64 == 0u64) by (bit_vector);
}

} // verus!
