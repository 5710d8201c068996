//! Discord permission bits, as serenity's `Permissions` type knows them.
//!
//! A permission set is held as its `u64` bits. What serenity computes on such sets
//! (its flag constants, `Permissions::all`, `from_bits_truncate` and
//! `manage_channels`) is called through the trusted items below.
use vstd::prelude::*;
use serenity::model::permissions::Permissions;

verus! {

/// The bits of every flag that serenity 0.10.10 defines: bits 0 through 40
/// (bit 33 is the deprecated `USE_PUBLIC_THREADS`).
pub open spec fn known_permission_bits() -> u64 {
    0x1ff_ffff_ffffu64
}

/// Whom a permission overwrite of a channel applies to: a role (the `@everyone`
/// role of a guild has the guild's id) or a member.
#[derive(Clone, Copy, Debug, PartialEq, Eq)]
pub enum OverwriteKind {
    Role(u64),
    Member(u64),
}

/// A permission overwrite of a channel: the bits it allows and denies, and whom it
/// applies to.
#[derive(Clone, Copy, Debug, PartialEq, Eq)]
pub struct Overwrite {
    pub allow: u64,
    pub deny: u64,
    pub kind: OverwriteKind,
}

impl Overwrite {
    /// Both permission sets hold only flags that serenity knows, as every overwrite
    /// that serenity hands out does (its `Permissions` keep only known bits).
    pub open spec fn wf(self) -> bool {
        &&& self.allow & known_permission_bits() == self.allow
        &&& self.deny & known_permission_bits() == self.deny
    }
}

/// The single permission flags that the bot grants, refuses or tests.
#[derive(Clone, Copy, Debug, PartialEq, Eq)]
pub enum PermissionFlag {
    ReadMessages,
    Connect,
    ManageChannels,
    MoveMembers,
}

/// The bit of each flag, as serenity defines it.
pub open spec fn flag_bits(flag: PermissionFlag) -> u64 {
    match flag {
        PermissionFlag::ReadMessages => 0x400u64,
        PermissionFlag::Connect => 0x10_0000u64,
        PermissionFlag::ManageChannels => 0x10u64,
        PermissionFlag::MoveMembers => 0x100_0000u64,
    }
}

/// The bits of serenity's `Permissions::READ_MESSAGES` constant (`1 << 10` in 0.10.10).
#[verifier::external_body]
pub(crate) fn read_messages_bits() -> (bits: u64)
    ensures
        bits == flag_bits(PermissionFlag::ReadMessages),
{
    Permissions::READ_MESSAGES.bits
}

/// The bits of serenity's `Permissions::CONNECT` constant (`1 << 20` in 0.10.10).
#[verifier::external_body]
pub(crate) fn connect_bits() -> (bits: u64)
    ensures
        bits == flag_bits(PermissionFlag::Connect),
{
    Permissions::CONNECT.bits
}

/// The bits of serenity's `Permissions::MANAGE_CHANNELS` constant (`1 << 4` in 0.10.10).
#[verifier::external_body]
pub(crate) fn manage_channels_bits() -> (bits: u64)
    ensures
        bits == flag_bits(PermissionFlag::ManageChannels),
{
    Permissions::MANAGE_CHANNELS.bits
}

/// The bits of serenity's `Permissions::MOVE_MEMBERS` constant (`1 << 24` in 0.10.10).
#[verifier::external_body]
pub(crate) fn move_members_bits() -> (bits: u64)
    ensures
        bits == flag_bits(PermissionFlag::MoveMembers),
{
    Permissions::MOVE_MEMBERS.bits
}

/// The bits of one flag.
pub fn permission_bits(flag: PermissionFlag) -> (bits: u64)
    ensures
        bits == flag_bits(flag),
{
    match flag {
        PermissionFlag::ReadMessages => read_messages_bits(),
        PermissionFlag::Connect => connect_bits(),
        PermissionFlag::ManageChannels => manage_channels_bits(),
        PermissionFlag::MoveMembers => move_members_bits(),
    }
}

/// The bits of serenity's `Permissions::all()`: the union of every flag it declares.
#[verifier::external_body]
pub(crate) fn all_permission_bits() -> (bits: u64)
    ensures
        bits == known_permission_bits(),
{
    Permissions::all().bits
}

/// serenity's `Permissions::from_bits_truncate`: keeps the bits of known flags and
/// drops the others (its source is `bits & Self::all().bits`).
#[verifier::external_body]
pub(crate) fn truncate_permission_bits(bits: u64) -> (kept: u64)
    ensures
        kept == bits & known_permission_bits(),
{
    Permissions::from_bits_truncate(bits).bits
}

/// serenity's `Permissions::manage_channels` on the set with these bits: whether the
/// `MANAGE_CHANNELS` flag is in it (its source is `self.contains(Self::MANAGE_CHANNELS)`,
/// and `contains` is `(self.bits & other.bits) == other.bits`).
#[verifier::external_body]
pub(crate) fn allows_manage_channels(bits: u64) -> (allowed: bool)
    ensures
        allowed == (bits & 0x10u64 == 0x10u64),
{
    Permissions { bits }.manage_channels()
}

} // verus!
