//! The life of a pair of channels: when the first user joins an empty voice channel,
//! it is renamed with a short tag, a private text channel with a deck is opened, and
//! a copy of the voice channel under its old name is created so that an empty one
//! stays free; users who join or leave later are announced and given or refused
//! access to the text channel; when the last user leaves, the text channel goes.
use vstd::prelude::*;
use vstd::string::*;
use vstd::std_specs::hash::DefaultHasherAdditionalSpecFns;
use std::collections::hash_map::DefaultHasher;
use std::hash::Hasher;
use crate::deck::{create_deck, is_deck_of, Deck};
use crate::operation::{
    action_on_voice_channel, apply_begin, opt_view_string, ApplyAction, ApplyState, Operation,
};
use crate::permissions::{
    all_permission_bits, known_permission_bits, permission_bits, Overwrite, OverwriteKind,
    PermissionFlag,
};
use crate::text::{
    chars_of, decimal_text, hex_text, is_lower_hex_digit, lemma_hex_text, push_char, push_decimal, push_hex,
    push_str,
};
use crate::topic::{channel_topic_text, lemma_topic_round_trip, parse_channel_topic, TopicData, TopicError};

verus! {

broadcast use vstd::string::group_string_axioms;

/// A voice channel as the creation of a pair reads it.
pub struct VoiceChannel {
    pub id: u64,
    pub name: String,
    pub category: Option<u64>,
    pub bitrate: Option<u64>,
    pub user_limit: Option<u64>,
    pub overwrites: Vec<Overwrite>,
}

// ---------------------------------------------------------------------------
// What a new pair is made of
// ---------------------------------------------------------------------------

/// The permissions (allowed, denied) of `@everyone` (the role with the guild's id) on
/// a channel with these overwrites: those of its first overwrite for that role, or
/// reading messages allowed and nothing denied when it has none.
pub open spec fn everyone_permissions(overwrites: Seq<Overwrite>, guild: u64) -> (u64, u64)
    decreases overwrites.len(),
{
    if overwrites.len() == 0 {
        (0x400u64, 0u64)
    } else if overwrites[0].kind == OverwriteKind::Role(guild) {
        (overwrites[0].allow, overwrites[0].deny)
    } else {
        everyone_permissions(overwrites.drop_first(), guild)
    }
}

/// The permissions of `@everyone` on a channel with these overwrites.
pub fn default_permissions(overwrites: &Vec<Overwrite>, guild_id: u64) -> (r: (u64, u64))
    ensures
        r == everyone_permissions(overwrites@, guild_id),
{
    let n = overwrites.len();
    let mut i: usize = 0;
    assert(overwrites@.skip(0) =~= overwrites@);
    while i < n
        invariant
            n == overwrites@.len(),
            i <= n,
            everyone_permissions(overwrites@, guild_id) == everyone_permissions(
                overwrites@.skip(i as int),
                guild_id,
            ),
        decreases n - i,
    {
        let o = overwrites[i];
        assert(overwrites@.skip(i as int)[0] == o);
        let is_everyone = match o.kind {
            OverwriteKind::Role(r) => r == guild_id,
            OverwriteKind::Member(_) => false,
        };
        if is_everyone {
            return (o.allow, o.deny);
        }
        assert(overwrites@.skip(i as int).drop_first() =~= overwrites@.skip(i + 1));
        i = i + 1;
    }
    assert(overwrites@.skip(n as int) =~= Seq::<Overwrite>::empty());
    (permission_bits(PermissionFlag::ReadMessages), 0)
}

/// The short tag that tells a renamed voice channel apart: the first four characters
/// of `hash` in lower-case hexadecimal (fewer when the number is shorter).
pub open spec fn tag_text(hash: u64) -> Seq<char> {
    let h = hex_text(hash as nat);
    if h.len() <= 4 {
        h
    } else {
        h.take(4)
    }
}

/// The tag of a pair, made from a hash of the pair's serial number.
pub fn channel_tag(hash: u64) -> (tag: String)
    ensures
        tag@ == tag_text(hash),
{
    let mut full = String::new();
    push_hex(&mut full, hash);
    let chars = chars_of(full.as_str());
    assert(chars@ =~= hex_text(hash as nat));
    let keep: usize = if chars.len() <= 4 {
        chars.len()
    } else {
        4
    };
    let mut tag = String::new();
    let mut i: usize = 0;
    while i < keep
        invariant
            keep <= chars@.len(),
            i <= keep,
            tag@ == chars@.take(i as int),
        decreases keep - i,
    {
        push_char(&mut tag, chars[i]);
        assert(chars@.take(i + 1) =~= chars@.take(i as int).push(chars@[i as int]));
        i = i + 1;
    }
    assert(chars@.take(chars@.len() as int) =~= chars@);
    tag
}

/// A tag is one to four lower-case hexadecimal digits.
pub proof fn lemma_tag_shape(hash: u64)
    ensures
        1 <= tag_text(hash).len() <= 4,
        forall|i: int| 0 <= i < tag_text(hash).len() ==> is_lower_hex_digit(#[trigger] tag_text(hash)[i]),
{
    lemma_hex_text(hash as nat);
    let h = hex_text(hash as nat);
    if h.len() > 4 {
        assert forall|i: int| 0 <= i < tag_text(hash).len() implies is_lower_hex_digit(#[trigger] tag_text(hash)[i]) by {
            assert(tag_text(hash)[i] == h[i]);
        }
    }
}

/// The hash of a pair's serial number: what std's `DefaultHasher` finishes with after
/// hashing the `u8` (whose `Hash` writes its one byte).
pub open spec fn serial_hash(serial: u8) -> u64 {
    DefaultHasher::spec_finish(seq![seq![serial]])
}

/// Hashes the serial number of a pair with a fresh `DefaultHasher`, as
/// `serial.hash(&mut hasher)` followed by `hasher.finish()` does.
pub fn tag_hash(serial: u8) -> (h: u64)
    ensures
        h == serial_hash(serial),
{
    let mut hasher = DefaultHasher::new();
    let bytes: [u8; 1] = [serial];
    hasher.write(bytes.as_slice());
    assert(bytes@ =~= seq![serial]);
    assert(hasher@ =~= seq![seq![serial]]);
    hasher.finish()
}

/// A text channel to create.
pub struct NewTextChannel {
    pub name: String,
    pub topic: String,
    pub category: Option<u64>,
    pub overwrites: Vec<Overwrite>,
}

/// A voice channel to create.
pub struct NewVoiceChannel {
    pub name: String,
    pub overwrites: Vec<Overwrite>,
    pub bitrate: u32,
    pub category: Option<u64>,
    pub user_limit: Option<u32>,
}

/// Everything that the creation of a pair writes.
pub struct VoiceCreatePlan {
    /// The short tag of the pair.
    pub tag: String,
    /// The new name of the voice channel: `<old name> / <tag>`.
    pub tagged_name: String,
    /// The old name, which the copy of the voice channel takes.
    pub original_name: String,
    /// What the text channel's topic records.
    pub topic: TopicData,
    /// The private text channel.
    pub text_channel: NewTextChannel,
    /// The overwrite that lets the owner see the text channel.
    pub owner_text_overwrite: Overwrite,
    /// The deck posted (and pinned) in the text channel.
    pub deck: Deck,
    /// The copy of the voice channel that stays free.
    pub duplicate: NewVoiceChannel,
    /// The overwrite that gives the bot every permission on the voice channel.
    pub bot_voice_overwrite: Overwrite,
    /// The overwrite that lets the owner manage the voice channel and move its members.
    pub owner_voice_overwrite: Overwrite,
}

/// The overwrite that gives `user` the right to read messages.
pub open spec fn member_read_overwrite(user: u64) -> Overwrite {
    Overwrite { allow: 0x400u64, deny: 0u64, kind: OverwriteKind::Member(user) }
}

/// The topic data of the pair made from `voice` for `user` in guild `guild`.
pub open spec fn pair_topic(guild: u64, voice: &VoiceChannel, user: u64) -> TopicData {
    TopicData {
        voice_channel: voice.id,
        owner: user,
        allow: everyone_permissions(voice.overwrites@, guild).0,
        deny: everyone_permissions(voice.overwrites@, guild).1,
    }
}

/// The bitrate of the copy: the voice channel's, or 64 when it has none, as a `u32`.
pub open spec fn copy_bitrate(bitrate: Option<u64>) -> u32 {
    match bitrate {
        Some(b) => b as u32,
        None => 64u32,
    }
}

/// The user limit of the copy, as a `u32`.
pub open spec fn copy_user_limit(limit: Option<u64>) -> Option<u32> {
    match limit {
        Some(l) => Some(l as u32),
        None => None,
    }
}

/// Whether `plan` is the creation of a pair from `voice` for `user` in guild `guild`,
/// with tag hash `hash` and the bot's user id `bot`.
pub open spec fn is_plan_of(
    plan: VoiceCreatePlan,
    guild: u64,
    voice: &VoiceChannel,
    user: u64,
    hash: u64,
    bot: u64,
) -> bool {
    let tag = tag_text(hash);
    let topic = pair_topic(guild, voice, user);
    &&& plan.tag@ == tag
    &&& plan.original_name@ == voice.name@
    &&& plan.tagged_name@ == voice.name@ + " / "@ + tag
    &&& plan.topic == topic
    &&& plan.text_channel.name@ == "voice-viav-"@ + tag
    &&& plan.text_channel.topic@ == channel_topic_text(topic)
    &&& plan.text_channel.category == voice.category
    &&& plan.text_channel.overwrites@ == seq![
        Overwrite { allow: 0u64, deny: 0x400u64, kind: OverwriteKind::Role(guild) },
        Overwrite { allow: known_permission_bits(), deny: 0u64, kind: OverwriteKind::Member(bot) },
    ]
    &&& plan.owner_text_overwrite == member_read_overwrite(user)
    &&& is_deck_of(plan.deck, voice.name@ + " / "@ + tag, user)
    &&& plan.duplicate.name@ == voice.name@
    &&& plan.duplicate.overwrites@ == voice.overwrites@
    &&& plan.duplicate.bitrate == copy_bitrate(voice.bitrate)
    &&& plan.duplicate.category == voice.category
    &&& plan.duplicate.user_limit == copy_user_limit(voice.user_limit)
    &&& plan.bot_voice_overwrite == Overwrite {
        allow: known_permission_bits(),
        deny: 0u64,
        kind: OverwriteKind::Member(bot),
    }
    &&& plan.owner_voice_overwrite == Overwrite {
        allow: 0x100_0010u64,
        deny: 0u64,
        kind: OverwriteKind::Member(user),
    }
}

fn copy_overwrites(v: &Vec<Overwrite>) -> (r: Vec<Overwrite>)
    ensures
        r@ == v@,
{
    let mut r: Vec<Overwrite> = Vec::new();
    let n = v.len();
    let mut i: usize = 0;
    while i < n
        invariant
            n == v@.len(),
            i <= n,
            r@ == v@.take(i as int),
        decreases n - i,
    {
        r.push(v[i]);
        assert(v@.take(i + 1) =~= r@);
        i = i + 1;
    }
    assert(v@.take(n as int) =~= v@);
    r
}

impl VoiceCreatePlan {
    /// The creation of a pair whose tag comes from the serial number `serial`: the
    /// plan of `new` with the tag hash `tag_hash(serial)`.
    pub fn from_serial(guild_id: u64, voice: &VoiceChannel, user_id: u64, serial: u8, bot_user: u64) -> (plan: VoiceCreatePlan)
        ensures
            is_plan_of(plan, guild_id, voice, user_id, serial_hash(serial), bot_user),
    {
        VoiceCreatePlan::new(guild_id, voice, user_id, tag_hash(serial), bot_user)
    }

    /// The creation of a pair from `voice`, whose first user is `user_id`, in guild
    /// `guild_id`; `tag_hash` is the hash of the pair's serial number and `bot_user`
    /// the bot's own user id.
    pub fn new(guild_id: u64, voice: &VoiceChannel, user_id: u64, tag_hash: u64, bot_user: u64) -> (plan: VoiceCreatePlan)
        ensures
            is_plan_of(plan, guild_id, voice, user_id, tag_hash, bot_user),
    {
        let tag = channel_tag(tag_hash);
        let mut tagged_name = String::new();
        push_str(&mut tagged_name, voice.name.as_str());
        push_str(&mut tagged_name, " / ");
        push_str(&mut tagged_name, tag.as_str());
        assert(tagged_name@ =~= voice.name@ + " / "@ + tag_text(tag_hash));
        let (allow, deny) = default_permissions(&voice.overwrites, guild_id);
        let topic = TopicData { voice_channel: voice.id, owner: user_id, allow, deny };
        let mut text_name = String::new();
        push_str(&mut text_name, "voice-viav-");
        push_str(&mut text_name, tag.as_str());
        let read = permission_bits(PermissionFlag::ReadMessages);
        let all = all_permission_bits();
        let mut text_overwrites: Vec<Overwrite> = Vec::new();
        text_overwrites.push(Overwrite { allow: 0, deny: read, kind: OverwriteKind::Role(guild_id) });
        text_overwrites.push(Overwrite { allow: all, deny: 0, kind: OverwriteKind::Member(bot_user) });
        assert(text_overwrites@ =~= seq![
            Overwrite { allow: 0u64, deny: 0x400u64, kind: OverwriteKind::Role(guild_id) },
            Overwrite { allow: known_permission_bits(), deny: 0u64, kind: OverwriteKind::Member(bot_user) },
        ]);
        let text_channel = NewTextChannel {
            name: text_name,
            topic: topic.channel_topic(),
            category: voice.category,
            overwrites: text_overwrites,
        };
        let deck = create_deck(tagged_name.clone(), user_id);
        let bitrate: u32 = match voice.bitrate {
            Some(b) => b as u32,
            None => 64,
        };
        let user_limit: Option<u32> = match voice.user_limit {
            Some(l) => Some(l as u32),
            None => None,
        };
        let duplicate = NewVoiceChannel {
            name: voice.name.clone(),
            overwrites: copy_overwrites(&voice.overwrites),
            bitrate,
            category: voice.category,
            user_limit,
        };
        let manage = permission_bits(PermissionFlag::ManageChannels) | permission_bits(PermissionFlag::MoveMembers);
        proof {
            assert(0x10u64 | 0x100_0000u64 == 0x100_0010u64) by (bit_vector);
        }
        VoiceCreatePlan {
            tag,
            tagged_name,
            original_name: voice.name.clone(),
            topic,
            text_channel,
            owner_text_overwrite: Overwrite { allow: read, deny: 0, kind: OverwriteKind::Member(user_id) },
            deck,
            duplicate,
            bot_voice_overwrite: Overwrite { allow: all, deny: 0, kind: OverwriteKind::Member(bot_user) },
            owner_voice_overwrite: Overwrite { allow: manage, deny: 0, kind: OverwriteKind::Member(user_id) },
        }
    }
}

impl VoiceChannel {
    /// Every overwrite of the channel holds only flags that serenity knows.
    pub open spec fn wf(&self) -> bool {
        forall|i: int| 0 <= i < self.overwrites@.len() ==> (#[trigger] self.overwrites@[i]).wf()
    }
}

/// The overwrite of `@everyone` (the role with the guild's id) on a channel with
/// these overwrites: its first overwrite for that role, or, when it has none, the
/// one that allows reading messages and denies nothing.
pub open spec fn everyone_overwrite(overwrites: Seq<Overwrite>, guild: u64) -> Overwrite
    decreases overwrites.len(),
{
    if overwrites.len() == 0 {
        Overwrite { allow: 0x400u64, deny: 0u64, kind: OverwriteKind::Role(guild) }
    } else if overwrites[0].kind == OverwriteKind::Role(guild) {
        overwrites[0]
    } else {
        everyone_overwrite(overwrites.drop_first(), guild)
    }
}

/// The permissions recorded for `@everyone` are those of its overwrite, which is for
/// the `@everyone` role, holds known flags only when the channel's overwrites do, and
/// is the channel's first overwrite for that role when there is one.
pub proof fn lemma_everyone_overwrite(overwrites: Seq<Overwrite>, guild: u64)
    ensures
        everyone_permissions(overwrites, guild) == (
            everyone_overwrite(overwrites, guild).allow,
            everyone_overwrite(overwrites, guild).deny,
        ),
        everyone_overwrite(overwrites, guild).kind == OverwriteKind::Role(guild),
        (forall|i: int| 0 <= i < overwrites.len() ==> (#[trigger] overwrites[i]).wf()) ==> everyone_overwrite(
            overwrites,
            guild,
        ).wf(),
        forall|i: int|
            0 <= i < overwrites.len() && overwrites[i].kind == OverwriteKind::Role(guild) && (forall|j: int|
                0 <= j < i ==> (#[trigger] overwrites[j]).kind != OverwriteKind::Role(guild))
                ==> everyone_overwrite(overwrites, guild) == #[trigger] overwrites[i],
    decreases overwrites.len(),
{
    if overwrites.len() == 0 {
        assert(0x400u64 & 0x1ff_ffff_ffffu64 == 0x400u64) by (bit_vector);
        assert(0u64 & 0x1ff_ffff_ffffu64 == 0u64) by (bit_vector);
    } else {
        let rest = overwrites.drop_first();
        lemma_everyone_overwrite(rest, guild);
        if (forall|i: int| 0 <= i < overwrites.len() ==> (#[trigger] overwrites[i]).wf()) {
            assert(overwrites[0].wf());
            assert forall|i: int| 0 <= i < rest.len() implies (#[trigger] rest[i]).wf() by {
                assert(rest[i] == overwrites[i + 1]);
            }
        }
        assert forall|i: int|
            0 <= i < overwrites.len() && overwrites[i].kind == OverwriteKind::Role(guild) && (forall|j: int|
                0 <= j < i ==> (#[trigger] overwrites[j]).kind != OverwriteKind::Role(guild))
            implies everyone_overwrite(overwrites, guild) == #[trigger] overwrites[i] by {
            if i > 0 {
                assert(overwrites[0].kind != OverwriteKind::Role(guild));
                assert(rest[i - 1] == overwrites[i]);
                assert forall|j: int| 0 <= j < i - 1 implies (#[trigger] rest[j]).kind != OverwriteKind::Role(guild) by {
                    assert(rest[j] == overwrites[j + 1]);
                }
            }
        }
    }
}

/// Unhiding undoes hiding: when the owner of a new pair unhides its voice channel,
/// the overwrite put on it for `@everyone` is exactly the one that `@everyone` had
/// on the channel before the pair was made (its first overwrite for the role, or,
/// if it had none, reading allowed and nothing denied). Hiding only puts an
/// overwrite for that same role, which unhiding replaces.
pub proof fn lemma_unhide_restores_everyone(
    plan: VoiceCreatePlan,
    guild: u64,
    voice: &VoiceChannel,
    user: u64,
    hash: u64,
    bot: u64,
)
    requires
        is_plan_of(plan, guild, voice, user, hash, bot),
        voice.wf(),
    ensures
        parse_channel_topic(Some(plan.text_channel.topic@)) == Ok::<TopicData, TopicError>(plan.topic),
        apply_begin(Operation::Hide(false), user, Some(plan.text_channel.topic@)) == (
        ApplyState::AwaitingVoiceChannel { op: Operation::Hide(false), topic: plan.topic },
        ApplyAction::FetchVoiceChannel { channel_id: voice.id },
        ),
        action_on_voice_channel(Operation::Hide(false), plan.topic, guild) == (ApplyAction::SetOverwrite {
            channel_id: voice.id,
            overwrite: everyone_overwrite(voice.overwrites@, guild),
        }),
        action_on_voice_channel(Operation::Hide(true), plan.topic, guild) matches ApplyAction::SetOverwrite {
            channel_id,
            overwrite,
        } && channel_id == voice.id && overwrite.kind == OverwriteKind::Role(guild),
        forall|i: int|
            0 <= i < voice.overwrites@.len() && voice.overwrites@[i].kind == OverwriteKind::Role(guild)
                && (forall|j: int|
                0 <= j < i ==> (#[trigger] voice.overwrites@[j]).kind != OverwriteKind::Role(guild))
                ==> everyone_overwrite(voice.overwrites@, guild) == #[trigger] voice.overwrites@[i],
{
    lemma_everyone_overwrite(voice.overwrites@, guild);
    assert(plan.topic.wf());
    lemma_topic_round_trip(plan.topic);
}

/// The topic that a new pair's text channel is created with reads back as the pair's
/// topic data: the voice channel, the owner and the `@everyone` permissions.
pub proof fn lemma_plan_topic_reads_back(
    plan: VoiceCreatePlan,
    guild: u64,
    voice: &VoiceChannel,
    user: u64,
    hash: u64,
    bot: u64,
)
    requires
        is_plan_of(plan, guild, voice, user, hash, bot),
        plan.topic.wf(),
    ensures
        parse_channel_topic(Some(plan.text_channel.topic@)) == Ok::<TopicData, TopicError>(plan.topic),
        plan.topic.voice_channel == voice.id,
        plan.topic.owner == user,
{
    lemma_topic_round_trip(plan.topic);
}

// ---------------------------------------------------------------------------
// Creating a pair
// ---------------------------------------------------------------------------

/// Why the creation of a pair failed.
#[derive(Clone, Copy, Debug, PartialEq, Eq)]
pub enum VoiceCreateError {
    /// The notice that the pair already exists could not be sent.
    NoticeFailed,
    /// This voice channel could not be renamed.
    RenameFailed(u64),
    /// The text channel could not be created.
    TextChannelFailed,
    /// The owner could not be given access to the text channel.
    TextAccessFailed,
    /// The copy of the voice channel could not be created (its name was put back).
    DuplicateFailed,
    /// The copy could not be created, nor the name put back.
    RenameBackFailed,
    /// The bot could not be given its permissions on the voice channel.
    BotAccessFailed,
    /// The owner could not be given their permissions on the voice channel.
    OwnerAccessFailed,
    /// An answer came that the step did not ask for.
    OutOfOrder,
}

/// The text that an error of the creation of a pair adds of its own, or `None`
/// where the error is Discord's alone.
pub open spec fn voice_create_error_text(e: VoiceCreateError) -> Option<Seq<char>> {
    match e {
        VoiceCreateError::NoticeFailed => None,
        VoiceCreateError::RenameFailed(v) => Some("Editting channel: "@ + decimal_text(v as nat)),
        VoiceCreateError::TextChannelFailed => Some("Create text channel"@),
        VoiceCreateError::TextAccessFailed => Some("Add permissions to text channel"@),
        VoiceCreateError::DuplicateFailed => None,
        VoiceCreateError::RenameBackFailed => None,
        VoiceCreateError::BotAccessFailed => None,
        VoiceCreateError::OwnerAccessFailed => None,
        VoiceCreateError::OutOfOrder => Some("Unexpected answer"@),
    }
}

impl VoiceCreateError {
    /// The text of the error (see `voice_create_error_text`).
    pub fn message(&self) -> (text: Option<String>)
        ensures
            opt_view_string(text) == voice_create_error_text(*self),
    {
        match self {
            VoiceCreateError::RenameFailed(v) => {
                let mut t = String::new();
                push_str(&mut t, "Editting channel: ");
                push_decimal(&mut t, *v);
                assert(t@ =~= "Editting channel: "@ + decimal_text(*v as nat));
                Some(t)
            },
            VoiceCreateError::TextChannelFailed => Some("Create text channel".to_owned()),
            VoiceCreateError::TextAccessFailed => Some("Add permissions to text channel".to_owned()),
            VoiceCreateError::OutOfOrder => Some("Unexpected answer".to_owned()),
            _ => None,
        }
    }
}

/// Where the creation of a pair stands.
#[derive(Clone, Copy, Debug, PartialEq, Eq)]
pub enum VoiceCreateState {
    AwaitingAfkChannel { voice_channel: u64, reserved_name: bool },
    AwaitingTextChannel { voice_channel: u64 },
    AwaitingNotice,
    AwaitingRename { voice_channel: u64 },
    AwaitingTextChannelCreation,
    AwaitingTextAccess,
    AwaitingSetUp,
    AwaitingRenameBack,
    AwaitingBotAccess,
    AwaitingOwnerAccess,
    Finished,
}

/// The answers to the actions.
#[derive(Clone, Copy, Debug, PartialEq, Eq)]
pub enum VoiceCreateEvent {
    /// The guild's AFK channel, or `None` if it has none or is not in the cache.
    AfkChannel(Option<u64>),
    /// The text channel already paired with the voice channel, if any.
    TextChannel(Option<u64>),
    /// Whether the last action went through.
    Completed(bool),
}

/// What to do next.
#[derive(Clone, Copy, Debug, PartialEq, Eq)]
pub enum VoiceCreateAction {
    LookUpAfkChannel,
    FindTextChannel,
    /// Tell the existing text channel that it is used (`exists_notice`).
    SendExistsNotice { text_channel: u64 },
    /// Draw the next serial number, hash it, make the plan (`VoiceCreatePlan::new`)
    /// and rename the voice channel to the plan's tagged name.
    RenameWithTag,
    /// Create the plan's text channel.
    CreateTextChannel,
    /// Put the plan's owner overwrite on the new text channel.
    GrantTextAccess,
    /// At once: send `controls_embed` and the plan's deck to the text channel and pin
    /// the deck (whether these go through does not matter); and after a pause of
    /// `DUPLICATE_DELAY_MS`, create the plan's copy of the voice channel. Answer
    /// whether the copy was created.
    SetUpDeckAndDuplicate,
    /// Rename the voice channel back to the plan's original name.
    RenameBack,
    /// Put the plan's bot overwrite on the voice channel.
    GrantBotVoiceAccess,
    /// Put the plan's owner overwrite on the voice channel.
    GrantOwnerVoiceAccess,
    Finish(Result<(), VoiceCreateError>),
}

/// The pause before the copy of the voice channel is created, in milliseconds.
pub const DUPLICATE_DELAY_MS: u64 = 1500u64;

/// The first step of creating a pair from the voice channel `voice` named `name`.
pub open spec fn voice_create_begin(voice: u64, name: Seq<char>) -> (VoiceCreateState, VoiceCreateAction) {
    (
        VoiceCreateState::AwaitingAfkChannel {
            voice_channel: voice,
            reserved_name: name.len() > 0 && name[0] == '&',
        },
        VoiceCreateAction::LookUpAfkChannel,
    )
}

/// Finish with success when the last action went through, else with `error`.
pub open spec fn finish_create(ok: bool, error: VoiceCreateError) -> (VoiceCreateState, VoiceCreateAction) {
    if ok {
        (VoiceCreateState::Finished, VoiceCreateAction::Finish(Ok(())))
    } else {
        (VoiceCreateState::Finished, VoiceCreateAction::Finish(Err(error)))
    }
}

/// Go on with `next` when the last action went through, else finish with `error`.
pub open spec fn continue_create(ok: bool, next: (VoiceCreateState, VoiceCreateAction), error: VoiceCreateError) -> (VoiceCreateState, VoiceCreateAction) {
    if ok {
        next
    } else {
        (VoiceCreateState::Finished, VoiceCreateAction::Finish(Err(error)))
    }
}

/// The step after `event`. The AFK channel and channels whose name starts with `&`
/// are left alone; a voice channel that already has a text channel only gets a
/// notice there; otherwise the steps of the plan follow in order, each failure
/// ending the creation, and a failed copy puts the old name back.
pub open spec fn voice_create_next(state: VoiceCreateState, event: VoiceCreateEvent) -> (VoiceCreateState, VoiceCreateAction) {
    match (state, event) {
        (
            VoiceCreateState::AwaitingAfkChannel { voice_channel, reserved_name },
            VoiceCreateEvent::AfkChannel(afk),
        ) => if afk == Some(voice_channel) || reserved_name {
            (VoiceCreateState::Finished, VoiceCreateAction::Finish(Ok(())))
        } else {
            (VoiceCreateState::AwaitingTextChannel { voice_channel }, VoiceCreateAction::FindTextChannel)
        },
        (VoiceCreateState::AwaitingTextChannel { voice_channel }, VoiceCreateEvent::TextChannel(found)) => match found {
            Some(tc) => (
                VoiceCreateState::AwaitingNotice,
                VoiceCreateAction::SendExistsNotice { text_channel: tc },
            ),
            None => (VoiceCreateState::AwaitingRename { voice_channel }, VoiceCreateAction::RenameWithTag),
        },
        (VoiceCreateState::AwaitingNotice, VoiceCreateEvent::Completed(ok)) => finish_create(
            ok,
            VoiceCreateError::NoticeFailed,
        ),
        (VoiceCreateState::AwaitingRename { voice_channel }, VoiceCreateEvent::Completed(ok)) => continue_create(
            ok,
            (VoiceCreateState::AwaitingTextChannelCreation, VoiceCreateAction::CreateTextChannel),
            VoiceCreateError::RenameFailed(voice_channel),
        ),
        (VoiceCreateState::AwaitingTextChannelCreation, VoiceCreateEvent::Completed(ok)) => continue_create(
            ok,
            (VoiceCreateState::AwaitingTextAccess, VoiceCreateAction::GrantTextAccess),
            VoiceCreateError::TextChannelFailed,
        ),
        (VoiceCreateState::AwaitingTextAccess, VoiceCreateEvent::Completed(ok)) => continue_create(
            ok,
            (VoiceCreateState::AwaitingSetUp, VoiceCreateAction::SetUpDeckAndDuplicate),
            VoiceCreateError::TextAccessFailed,
        ),
        (VoiceCreateState::AwaitingSetUp, VoiceCreateEvent::Completed(ok)) => if ok {
            (VoiceCreateState::AwaitingBotAccess, VoiceCreateAction::GrantBotVoiceAccess)
        } else {
            (VoiceCreateState::AwaitingRenameBack, VoiceCreateAction::RenameBack)
        },
        (VoiceCreateState::AwaitingRenameBack, VoiceCreateEvent::Completed(ok)) => if ok {
            (VoiceCreateState::Finished, VoiceCreateAction::Finish(Err(VoiceCreateError::DuplicateFailed)))
        } else {
            (VoiceCreateState::Finished, VoiceCreateAction::Finish(Err(VoiceCreateError::RenameBackFailed)))
        },
        (VoiceCreateState::AwaitingBotAccess, VoiceCreateEvent::Completed(ok)) => continue_create(
            ok,
            (VoiceCreateState::AwaitingOwnerAccess, VoiceCreateAction::GrantOwnerVoiceAccess),
            VoiceCreateError::BotAccessFailed,
        ),
        (VoiceCreateState::AwaitingOwnerAccess, VoiceCreateEvent::Completed(ok)) => finish_create(
            ok,
            VoiceCreateError::OwnerAccessFailed,
        ),
        _ => (VoiceCreateState::Finished, VoiceCreateAction::Finish(Err(VoiceCreateError::OutOfOrder))),
    }
}

/// Starts creating a pair from a voice channel that its first user just joined.
pub fn voice_create(voice_channel_id: u64, name: &str) -> (r: (VoiceCreateState, VoiceCreateAction))
    ensures
        r == voice_create_begin(voice_channel_id, name@),
{
    let reserved_name = if name.unicode_len() > 0 {
        name.get_char(0) == '&'
    } else {
        false
    };
    (
        VoiceCreateState::AwaitingAfkChannel { voice_channel: voice_channel_id, reserved_name },
        VoiceCreateAction::LookUpAfkChannel,
    )
}

fn step_or_fail(ok: bool, next: (VoiceCreateState, VoiceCreateAction), error: VoiceCreateError) -> (r: (VoiceCreateState, VoiceCreateAction))
    ensures
        r == continue_create(ok, next, error),
{
    if ok {
        next
    } else {
        (VoiceCreateState::Finished, VoiceCreateAction::Finish(Err(error)))
    }
}

fn finish_or_fail(ok: bool, error: VoiceCreateError) -> (r: (VoiceCreateState, VoiceCreateAction))
    ensures
        r == finish_create(ok, error),
{
    if ok {
        (VoiceCreateState::Finished, VoiceCreateAction::Finish(Ok(())))
    } else {
        (VoiceCreateState::Finished, VoiceCreateAction::Finish(Err(error)))
    }
}

impl VoiceCreateState {
    /// The next state and action after `event` (see `voice_create_next`).
    pub fn next(self, event: VoiceCreateEvent) -> (r: (VoiceCreateState, VoiceCreateAction))
        ensures
            r == voice_create_next(self, event),
    {
        match (self, event) {
            (
                VoiceCreateState::AwaitingAfkChannel { voice_channel, reserved_name },
                VoiceCreateEvent::AfkChannel(afk),
            ) => {
                let is_afk = match afk {
                    Some(a) => a == voice_channel,
                    None => false,
                };
                if is_afk || reserved_name {
                    (VoiceCreateState::Finished, VoiceCreateAction::Finish(Ok(())))
                } else {
                    (VoiceCreateState::AwaitingTextChannel { voice_channel }, VoiceCreateAction::FindTextChannel)
                }
            },
            (VoiceCreateState::AwaitingTextChannel { voice_channel }, VoiceCreateEvent::TextChannel(found)) => match found {
                Some(tc) => (
                    VoiceCreateState::AwaitingNotice,
                    VoiceCreateAction::SendExistsNotice { text_channel: tc },
                ),
                None => (VoiceCreateState::AwaitingRename { voice_channel }, VoiceCreateAction::RenameWithTag),
            },
            (VoiceCreateState::AwaitingNotice, VoiceCreateEvent::Completed(ok)) => finish_or_fail(
                ok,
                VoiceCreateError::NoticeFailed,
            ),
            (VoiceCreateState::AwaitingRename { voice_channel }, VoiceCreateEvent::Completed(ok)) => step_or_fail(
                ok,
                (VoiceCreateState::AwaitingTextChannelCreation, VoiceCreateAction::CreateTextChannel),
                VoiceCreateError::RenameFailed(voice_channel),
            ),
            (VoiceCreateState::AwaitingTextChannelCreation, VoiceCreateEvent::Completed(ok)) => step_or_fail(
                ok,
                (VoiceCreateState::AwaitingTextAccess, VoiceCreateAction::GrantTextAccess),
                VoiceCreateError::TextChannelFailed,
            ),
            (VoiceCreateState::AwaitingTextAccess, VoiceCreateEvent::Completed(ok)) => step_or_fail(
                ok,
                (VoiceCreateState::AwaitingSetUp, VoiceCreateAction::SetUpDeckAndDuplicate),
                VoiceCreateError::TextAccessFailed,
            ),
            (VoiceCreateState::AwaitingSetUp, VoiceCreateEvent::Completed(ok)) => if ok {
                (VoiceCreateState::AwaitingBotAccess, VoiceCreateAction::GrantBotVoiceAccess)
            } else {
                (VoiceCreateState::AwaitingRenameBack, VoiceCreateAction::RenameBack)
            },
            (VoiceCreateState::AwaitingRenameBack, VoiceCreateEvent::Completed(ok)) => if ok {
                (VoiceCreateState::Finished, VoiceCreateAction::Finish(Err(VoiceCreateError::DuplicateFailed)))
            } else {
                (VoiceCreateState::Finished, VoiceCreateAction::Finish(Err(VoiceCreateError::RenameBackFailed)))
            },
            (VoiceCreateState::AwaitingBotAccess, VoiceCreateEvent::Completed(ok)) => step_or_fail(
                ok,
                (VoiceCreateState::AwaitingOwnerAccess, VoiceCreateAction::GrantOwnerVoiceAccess),
                VoiceCreateError::BotAccessFailed,
            ),
            (VoiceCreateState::AwaitingOwnerAccess, VoiceCreateEvent::Completed(ok)) => finish_or_fail(
                ok,
                VoiceCreateError::OwnerAccessFailed,
            ),
            _ => (VoiceCreateState::Finished, VoiceCreateAction::Finish(Err(VoiceCreateError::OutOfOrder))),
        }
    }
}

/// The notice sent to a text channel that already belongs to the voice channel.
pub fn exists_notice() -> (text: String)
    ensures
        text@ == "Tried to create new voice channel but it already exists. Using this text channel."@,
{
    "Tried to create new voice channel but it already exists. Using this text channel.".to_owned()
}

/// How many more answers the creation of a pair waits for, at most.
pub open spec fn voice_create_rank(state: VoiceCreateState) -> nat {
    match state {
        VoiceCreateState::AwaitingAfkChannel { .. } => 9,
        VoiceCreateState::AwaitingTextChannel { .. } => 8,
        VoiceCreateState::AwaitingRename { .. } => 7,
        VoiceCreateState::AwaitingTextChannelCreation => 6,
        VoiceCreateState::AwaitingTextAccess => 5,
        VoiceCreateState::AwaitingSetUp => 4,
        VoiceCreateState::AwaitingBotAccess => 2,
        VoiceCreateState::AwaitingRenameBack => 1,
        VoiceCreateState::AwaitingOwnerAccess => 1,
        VoiceCreateState::AwaitingNotice => 1,
        VoiceCreateState::Finished => 0,
    }
}

/// The creation of a pair always ends: every answer to a waiting state leads to a
/// state that waits for fewer answers, and the flow is finished exactly when its
/// action is `Finish`.
pub proof fn lemma_voice_create_progresses(state: VoiceCreateState, event: VoiceCreateEvent)
    requires
        state != VoiceCreateState::Finished,
    ensures
        voice_create_rank(voice_create_next(state, event).0) < voice_create_rank(state),
        voice_create_next(state, event).0 == VoiceCreateState::Finished <==> voice_create_next(
            state,
            event,
        ).1 is Finish,
{
}

/// A failed copy of the voice channel never leaves it renamed without trying to put
/// the old name back, and the creation then fails.
pub proof fn lemma_failed_copy_renames_back(ok: bool)
    ensures
        voice_create_next(VoiceCreateState::AwaitingSetUp, VoiceCreateEvent::Completed(false)) == (
        VoiceCreateState::AwaitingRenameBack,
        VoiceCreateAction::RenameBack,
        ),
        voice_create_next(VoiceCreateState::AwaitingRenameBack, VoiceCreateEvent::Completed(ok)).1 is Finish,
        voice_create_next(VoiceCreateState::AwaitingRenameBack, VoiceCreateEvent::Completed(ok)).1
            != VoiceCreateAction::Finish(Ok(())),
{
}

/// The AFK channel and channels whose name starts with `&` are never turned into pairs.
pub proof fn lemma_reserved_channels_are_left_alone(voice: u64, name: Seq<char>, afk: Option<u64>)
    requires
        afk == Some(voice) || (name.len() > 0 && name[0] == '&'),
    ensures
        voice_create_next(voice_create_begin(voice, name).0, VoiceCreateEvent::AfkChannel(afk)) == (
        VoiceCreateState::Finished,
        VoiceCreateAction::Finish(Ok(())),
        ),
{
}


/// Every voice channel other than the AFK channel whose name does not start with `&`
/// (an empty name included) is turned into a pair: after the AFK channel is looked
/// up, its text channel is looked for; an existing one only gets a notice; without
/// one, the channel is renamed with its tag, the text channel is created and opened
/// to the owner, the deck and the copy are set up, the bot and then the owner get
/// their rights on the voice channel, and the creation succeeds. A failed rename
/// fails the creation with the voice channel's id.
pub proof fn lemma_ordinary_channels_become_pairs(voice: u64, name: Seq<char>, afk: Option<u64>, tc: u64)
    requires
        afk != Some(voice),
        !(name.len() > 0 && name[0] == '&'),
    ensures
        voice_create_begin(voice, name).1 == VoiceCreateAction::LookUpAfkChannel,
        ({
            let s1 = voice_create_next(voice_create_begin(voice, name).0, VoiceCreateEvent::AfkChannel(afk));
            let s2 = voice_create_next(s1.0, VoiceCreateEvent::TextChannel(None));
            let s3 = voice_create_next(s2.0, VoiceCreateEvent::Completed(true));
            let s4 = voice_create_next(s3.0, VoiceCreateEvent::Completed(true));
            let s5 = voice_create_next(s4.0, VoiceCreateEvent::Completed(true));
            let s6 = voice_create_next(s5.0, VoiceCreateEvent::Completed(true));
            let s7 = voice_create_next(s6.0, VoiceCreateEvent::Completed(true));
            let s8 = voice_create_next(s7.0, VoiceCreateEvent::Completed(true));
            &&& s1.1 == VoiceCreateAction::FindTextChannel
            &&& voice_create_next(s1.0, VoiceCreateEvent::TextChannel(Some(tc))).1
                == (VoiceCreateAction::SendExistsNotice { text_channel: tc })
            &&& s2.1 == VoiceCreateAction::RenameWithTag
            &&& voice_create_next(s2.0, VoiceCreateEvent::Completed(false)).1 == VoiceCreateAction::Finish(
                Err::<(), VoiceCreateError>(VoiceCreateError::RenameFailed(voice)),
            )
            &&& s3.1 == VoiceCreateAction::CreateTextChannel
            &&& s4.1 == VoiceCreateAction::GrantTextAccess
            &&& s5.1 == VoiceCreateAction::SetUpDeckAndDuplicate
            &&& s6.1 == VoiceCreateAction::GrantBotVoiceAccess
            &&& s7.1 == VoiceCreateAction::GrantOwnerVoiceAccess
            &&& s8 == (VoiceCreateState::Finished, VoiceCreateAction::Finish(Ok::<(), VoiceCreateError>(())))
        }),
{
}


/// What a new pair guarantees: the text channel is hidden from `@everyone` (the
/// role with the guild's id is denied reading messages) and readable by the bot and
/// by the owner once the owner's overwrite is put; the free copy takes the old name,
/// the old overwrites and the old category, while the channel itself is renamed to
/// the old name followed by ` / ` and the tag; the owner may manage the voice
/// channel and move its members.
pub proof fn lemma_pair_is_private_and_keeps_a_free_copy(
    plan: VoiceCreatePlan,
    guild: u64,
    voice: &VoiceChannel,
    user: u64,
    hash: u64,
    bot: u64,
)
    requires
        is_plan_of(plan, guild, voice, user, hash, bot),
    ensures
        plan.text_channel.overwrites@.len() == 2,
        plan.text_channel.overwrites@[0].kind == OverwriteKind::Role(guild),
        plan.text_channel.overwrites@[0].deny & 0x400u64 == 0x400u64,
        plan.text_channel.overwrites@[0].allow & 0x400u64 == 0u64,
        plan.text_channel.overwrites@[1].kind == OverwriteKind::Member(bot),
        plan.text_channel.overwrites@[1].allow & 0x400u64 == 0x400u64,
        plan.owner_text_overwrite.kind == OverwriteKind::Member(user),
        plan.owner_text_overwrite.allow & 0x400u64 == 0x400u64,
        plan.owner_text_overwrite.deny == 0u64,
        plan.duplicate.name@ == voice.name@,
        plan.duplicate.overwrites@ == voice.overwrites@,
        plan.duplicate.category == voice.category,
        plan.tagged_name@.len() > voice.name@.len() + 3,
        plan.tagged_name@.subrange(0, voice.name@.len() as int) == voice.name@,
        plan.tagged_name@.subrange(voice.name@.len() as int, voice.name@.len() + 3int) == " / "@,
        plan.tagged_name@.subrange(voice.name@.len() + 3int, plan.tagged_name@.len() as int) == plan.tag@,
        plan.owner_voice_overwrite.kind == OverwriteKind::Member(user),
        plan.owner_voice_overwrite.allow & 0x10u64 == 0x10u64,
        plan.owner_voice_overwrite.allow & 0x100_0000u64 == 0x100_0000u64,
{
    assert(0x400u64 & 0x400u64 == 0x400u64) by (bit_vector);
    assert(0u64 & 0x400u64 == 0u64) by (bit_vector);
    assert(0x1ff_ffff_ffffu64 & 0x400u64 == 0x400u64) by (bit_vector);
    assert(0x100_0010u64 & 0x10u64 == 0x10u64) by (bit_vector);
    assert(0x100_0010u64 & 0x100_0000u64 == 0x100_0000u64) by (bit_vector);
    lemma_tag_shape(hash);
    reveal_strlit(" / ");
    let n = voice.name@;
    let t = tag_text(hash);
    assert((n + " / "@ + t).subrange(0, n.len() as int) =~= n);
    assert((n + " / "@ + t).subrange(n.len() as int, n.len() + 3int) =~= " / "@);
    assert((n + " / "@ + t).subrange(n.len() + 3int, (n + " / "@ + t).len() as int) =~= t);
}

} // verus!
