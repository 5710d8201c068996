//! The operations that the owner of a pair of channels can perform, how reactions
//! on the control deck and slash commands name them, and the steps that carry one
//! out.
use vstd::prelude::*;
use vstd::string::*;
use crate::channels::MASTER_USER;
use crate::permissions::{permission_bits, Overwrite, OverwriteKind, PermissionFlag};
use crate::text::{push_str, same_text};
use crate::topic::{
    channel_topic_text, lemma_topic_round_trip, opt_str_view, parse_channel_topic, topic_error_text, TopicData,
    TopicError,
};

verus! {

broadcast use vstd::string::group_string_axioms;

/// What the owner of a pair of channels can do to it.
#[allow(non_camel_case_types)]
#[derive(Clone, Copy, Debug, PartialEq, Eq)]
pub enum Operation {
    /// Lock (`true`) or unlock the voice channel: its user limit becomes 1 or 0.
    Lock(bool),
    /// Hide (`true`) the voice channel from `@everyone`, or restore what it had.
    Hide(bool),
    /// Mark the text channel NSFW (`true`) or not.
    NSFW(bool),
    /// Send the help message.
    Help,
}

// ---------------------------------------------------------------------------
// Reactions on the deck
// ---------------------------------------------------------------------------

/// The emoji of a reaction: a custom emoji has a name when Discord sends one.
pub enum ReactionEmoji {
    Custom { name: Option<String> },
    Unicode(String),
}

/// Why a reaction names no operation.
#[derive(Clone, Copy, Debug, PartialEq, Eq)]
pub enum ReactionError {
    /// The emoji is not a custom one.
    NotCustom,
    /// The custom emoji has no name.
    NoName,
    /// The custom emoji's name is none of the deck's.
    UnknownName,
}

/// The text of a reaction error: "Emoji not custom", "Emoji name", or nothing for a
/// name that is none of the deck's.
pub open spec fn reaction_error_text(e: ReactionError) -> Seq<char> {
    match e {
        ReactionError::NotCustom => "Emoji not custom"@,
        ReactionError::NoName => "Emoji name"@,
        ReactionError::UnknownName => ""@,
    }
}

impl ReactionError {
    /// The text of the error.
    pub fn message(&self) -> (text: String)
        ensures
            text@ == reaction_error_text(*self),
    {
        let t: &str = match self {
            ReactionError::NotCustom => "Emoji not custom",
            ReactionError::NoName => "Emoji name",
            ReactionError::UnknownName => "",
        };
        t.to_owned()
    }
}

/// The operation of a deck emoji name: `lock`, `eye` and `alert` lock, hide and mark
/// NSFW when the reaction is added, and undo that when it is removed.
pub open spec fn operation_for_emoji(name: Seq<char>, is_add: bool) -> Option<Operation> {
    if name == "lock"@ {
        Some(Operation::Lock(is_add))
    } else if name == "eye"@ {
        Some(Operation::Hide(is_add))
    } else if name == "alert"@ {
        Some(Operation::NSFW(is_add))
    } else {
        None
    }
}

/// The operation that a reaction asks for, or why it asks for none.
pub open spec fn reaction_operation(emoji: ReactionEmoji, is_add: bool) -> Result<Operation, ReactionError> {
    match emoji {
        ReactionEmoji::Unicode(_) => Err(ReactionError::NotCustom),
        ReactionEmoji::Custom { name: None } => Err(ReactionError::NoName),
        ReactionEmoji::Custom { name: Some(n) } => match operation_for_emoji(n@, is_add) {
            Some(op) => Ok(op),
            None => Err(ReactionError::UnknownName),
        },
    }
}

/// The operation that undoes `op`: the same one with its flag turned over.
pub open spec fn opposite(op: Operation) -> Operation {
    match op {
        Operation::Lock(b) => Operation::Lock(!b),
        Operation::Hide(b) => Operation::Hide(!b),
        Operation::NSFW(b) => Operation::NSFW(!b),
        Operation::Help => Operation::Help,
    }
}

/// The names of the deck's emojis, with the custom emoji ids that the deck offers.
pub open spec fn deck_emoji_names() -> Seq<Seq<char>> {
    seq!["lock"@, "eye"@, "alert"@]
}

impl Operation {
    /// The operation that a reaction with emoji `data.0`, added (`data.1`) or
    /// removed on the deck, asks for.
    pub fn try_from(data: (&ReactionEmoji, bool)) -> (r: Result<Operation, ReactionError>)
        ensures
            r == reaction_operation(*data.0, data.1),
            reaction_operation(*data.0, !data.1) == match r {
                Ok(op) => Ok(opposite(op)),
                Err(e) => Err(e),
            },
    {
        let (emoji, is_add) = data;
        let name = match emoji {
            ReactionEmoji::Unicode(_) => return Err(ReactionError::NotCustom),
            ReactionEmoji::Custom { name } => match name {
                None => return Err(ReactionError::NoName),
                Some(n) => n,
            },
        };
        if same_text(name.as_str(), "lock") {
            Ok(Operation::Lock(is_add))
        } else if same_text(name.as_str(), "eye") {
            Ok(Operation::Hide(is_add))
        } else if same_text(name.as_str(), "alert") {
            Ok(Operation::NSFW(is_add))
        } else {
            Err(ReactionError::UnknownName)
        }
    }
}

// ---------------------------------------------------------------------------
// Slash commands
// ---------------------------------------------------------------------------

/// Why a slash command could not be handled.
#[derive(Clone, Copy, Debug, PartialEq, Eq)]
pub enum SlashError {
    /// The command's name is not one that Viav registers.
    UnknownCommand,
    /// The channel of the command could not be fetched.
    ChannelUnavailable,
    /// The channel of the command is not a guild channel.
    NotGuildChannel,
    /// The operation failed.
    Apply(ApplyError),
    /// The answer to the command could not be sent.
    ReplyFailed,
    /// An answer came that the step did not ask for.
    OutOfOrder,
}

/// The operation of a slash command.
pub open spec fn operation_for_command(name: Seq<char>) -> Option<Operation> {
    if name == "lock"@ {
        Some(Operation::Lock(true))
    } else if name == "unlock"@ {
        Some(Operation::Lock(false))
    } else if name == "hide"@ {
        Some(Operation::Hide(true))
    } else if name == "unhide"@ {
        Some(Operation::Hide(false))
    } else if name == "help"@ {
        Some(Operation::Help)
    } else {
        None
    }
}

impl Operation {
    /// The operation that the slash command `name` asks for.
    pub fn from_command(name: &str) -> (r: Result<Operation, SlashError>)
        ensures
            r == match operation_for_command(name@) {
                Some(op) => Ok(op),
                None => Err(SlashError::UnknownCommand),
            },
    {
        if same_text(name, "lock") {
            Ok(Operation::Lock(true))
        } else if same_text(name, "unlock") {
            Ok(Operation::Lock(false))
        } else if same_text(name, "hide") {
            Ok(Operation::Hide(true))
        } else if same_text(name, "unhide") {
            Ok(Operation::Hide(false))
        } else if same_text(name, "help") {
            Ok(Operation::Help)
        } else {
            Err(SlashError::UnknownCommand)
        }
    }
}

/// A slash command that Viav registers, with no options.
pub struct SlashCommand {
    pub name: String,
    pub description: String,
}

/// The names of the registered slash commands, in order.
pub open spec fn slash_command_names() -> Seq<Seq<char>> {
    seq!["help"@, "lock"@, "unlock"@, "hide"@, "unhide"@]
}

/// Their descriptions, in the same order.
pub open spec fn slash_command_descriptions() -> Seq<Seq<char>> {
    seq![
        "Some info about Viav"@,
        "Lock the voice channel"@,
        "Unlock the voice channel"@,
        "Hide the voice channel"@,
        "Unhide the voice channel"@,
    ]
}

fn slash_command(name: &str, description: &str) -> (c: SlashCommand)
    ensures
        c.name@ == name@,
        c.description@ == description@,
{
    SlashCommand { name: name.to_owned(), description: description.to_owned() }
}

/// The slash commands that Viav registers.
pub fn slash_commands() -> (commands: Vec<SlashCommand>)
    ensures
        commands@.len() == 5,
        forall|i: int|
            0 <= i < 5 ==> (#[trigger] commands@[i]).name@ == slash_command_names()[i]
                && commands@[i].description@ == slash_command_descriptions()[i],
{
    let mut commands: Vec<SlashCommand> = Vec::new();
    commands.push(slash_command("help", "Some info about Viav"));
    commands.push(slash_command("lock", "Lock the voice channel"));
    commands.push(slash_command("unlock", "Unlock the voice channel"));
    commands.push(slash_command("hide", "Hide the voice channel"));
    commands.push(slash_command("unhide", "Unhide the voice channel"));
    commands
}

/// Every registered slash command names an operation, and every name that names an
/// operation is registered: what Viav offers is exactly what it handles.
pub proof fn lemma_registered_commands_are_handled(name: Seq<char>)
    ensures
        forall|i: int| 0 <= i < 5 ==> (#[trigger] operation_for_command(slash_command_names()[i])) is Some,
        operation_for_command(name) is Some <==> slash_command_names().contains(name),
{
    reveal_strlit("help");
    reveal_strlit("lock");
    reveal_strlit("unlock");
    reveal_strlit("hide");
    reveal_strlit("unhide");
    let names = slash_command_names();
    assert(operation_for_command(names[0]) is Some);
    assert(operation_for_command(names[1]) is Some);
    assert(operation_for_command(names[2]) is Some);
    assert(operation_for_command(names[3]) is Some);
    assert(operation_for_command(names[4]) is Some);
    if operation_for_command(name) is Some {
        if name == "lock"@ {
            assert(names[1] == name);
        } else if name == "unlock"@ {
            assert(names[2] == name);
        } else if name == "hide"@ {
            assert(names[3] == name);
        } else if name == "unhide"@ {
            assert(names[4] == name);
        } else {
            assert(names[0] == name);
        }
    }
    if names.contains(name) {
        let i = choose|i: int| 0 <= i < names.len() && names[i] == name;
        assert(0 <= i < 5);
    }
}

// ---------------------------------------------------------------------------
// Answers
// ---------------------------------------------------------------------------

/// What the bot answers after an operation was carried out.
pub open spec fn response_text(op: Operation) -> Option<Seq<char>> {
    match op {
        Operation::Lock(true) => Some("Locked"@),
        Operation::Lock(false) => Some("Unlocked"@),
        Operation::Hide(true) => Some("Hidden"@),
        Operation::Hide(false) => Some("Unhidden"@),
        Operation::NSFW(true) => Some("Set nsfw"@),
        Operation::NSFW(false) => Some("Unset NSFW"@),
        Operation::Help => None,
    }
}

impl Operation {
    /// The answer to a carried-out operation.
    pub fn response(&self) -> (text: Option<String>)
        ensures
            opt_view_string(text) == response_text(*self),
    {
        let t: &str = match self {
            Operation::Lock(true) => "Locked",
            Operation::Lock(false) => "Unlocked",
            Operation::Hide(true) => "Hidden",
            Operation::Hide(false) => "Unhidden",
            Operation::NSFW(true) => "Set nsfw",
            Operation::NSFW(false) => "Unset NSFW",
            Operation::Help => return None,
        };
        Some(t.to_owned())
    }
}

pub open spec fn opt_view_string(s: Option<String>) -> Option<Seq<char>> {
    match s {
        None => None,
        Some(s) => Some(s@),
    }
}

/// The answer to a slash command: type 4 carries a message, type 5 only acknowledges.
pub struct InteractionReply {
    pub kind: u8,
    pub content: Option<String>,
}

/// The answer to a slash command whose operation finished with `applied`.
pub fn interaction_reply(applied: Option<Operation>) -> (reply: InteractionReply)
    ensures
        opt_view_string(reply.content) == match applied {
            Some(op) => response_text(op),
            None => None,
        },
        reply.kind == if reply.content is Some {
            4u8
        } else {
            5u8
        },
{
    let content = match applied {
        Some(op) => op.response(),
        None => None,
    };
    let kind: u8 = if content.is_some() {
        4
    } else {
        5
    };
    InteractionReply { kind, content }
}

// ---------------------------------------------------------------------------
// Carrying out an operation
// ---------------------------------------------------------------------------

/// Why an operation failed.
#[derive(Clone, Copy, Debug, PartialEq, Eq)]
pub enum ApplyError {
    /// The text channel's topic could not be read.
    Topic(TopicError),
    /// The voice channel of the topic could not be fetched.
    VoiceChannelUnavailable,
    /// The voice channel of the topic is not a guild channel.
    VoiceChannelNotGuild,
    /// Discord refused to lock or unlock the voice channel.
    LockFailed,
    /// Discord refused to hide or unhide the voice channel.
    HideFailed,
    /// Discord refused to change the NSFW mark of the text channel.
    NsfwFailed,
    /// An answer came that the step did not ask for.
    OutOfOrder,
}

/// The text that an operation's error adds of its own, or `None` where the error is
/// Discord's alone (the voice channel could not be fetched).
pub open spec fn apply_error_text(e: ApplyError) -> Option<Seq<char>> {
    match e {
        ApplyError::Topic(t) => Some(topic_error_text(t)),
        ApplyError::VoiceChannelUnavailable => None,
        ApplyError::VoiceChannelNotGuild => Some("topic to voice channel"@),
        ApplyError::LockFailed => Some("Failed to lock voice channel"@),
        ApplyError::HideFailed => Some("Failed to hide voice channel"@),
        ApplyError::NsfwFailed => Some("Failed to set text channel to NSFW"@),
        ApplyError::OutOfOrder => Some("Unexpected answer"@),
    }
}

impl ApplyError {
    /// The text of the error (see `apply_error_text`).
    pub fn message(&self) -> (text: Option<String>)
        ensures
            opt_view_string(text) == apply_error_text(*self),
    {
        let t: &str = match self {
            ApplyError::Topic(e) => return Some(e.message()),
            ApplyError::VoiceChannelUnavailable => return None,
            ApplyError::VoiceChannelNotGuild => "topic to voice channel",
            ApplyError::LockFailed => "Failed to lock voice channel",
            ApplyError::HideFailed => "Failed to hide voice channel",
            ApplyError::NsfwFailed => "Failed to set text channel to NSFW",
            ApplyError::OutOfOrder => "Unexpected answer",
        };
        Some(t.to_owned())
    }
}

/// The text that a slash command's error adds of its own, or `None` where the error
/// is Discord's alone.
pub open spec fn slash_error_text(e: SlashError) -> Option<Seq<char>> {
    match e {
        SlashError::UnknownCommand => Some("unknown command"@),
        SlashError::ChannelUnavailable => None,
        SlashError::NotGuildChannel => Some("Interaction Guild Channel"@),
        SlashError::Apply(a) => apply_error_text(a),
        SlashError::ReplyFailed => Some("Slash command response"@),
        SlashError::OutOfOrder => Some("Unexpected answer"@),
    }
}

impl SlashError {
    /// The text of the error (see `slash_error_text`).
    pub fn message(&self) -> (text: Option<String>)
        ensures
            opt_view_string(text) == slash_error_text(*self),
    {
        let t: &str = match self {
            SlashError::Apply(e) => return e.message(),
            SlashError::ChannelUnavailable => return None,
            SlashError::UnknownCommand => "unknown command",
            SlashError::NotGuildChannel => "Interaction Guild Channel",
            SlashError::ReplyFailed => "Slash command response",
            SlashError::OutOfOrder => "Unexpected answer",
        };
        Some(t.to_owned())
    }
}

/// Where the steps of an operation stand.
#[derive(Clone, Copy, Debug, PartialEq, Eq)]
pub enum ApplyState {
    /// Waiting for the user's permissions in the text channel.
    AwaitingPermissions { op: Operation, topic: TopicData },
    /// Waiting for the voice channel of the topic.
    AwaitingVoiceChannel { op: Operation, topic: TopicData },
    /// Waiting for Discord to carry out the change.
    AwaitingChange { op: Operation },
    /// Waiting for the help message to be sent.
    AwaitingHelp,
    /// Done; the last action was `Finish`.
    Finished,
}

/// The answers to the actions.
#[derive(Clone, Copy, Debug, PartialEq, Eq)]
pub enum ApplyEvent {
    /// The user's permission bits in the text channel, or `None` if they could not be looked up.
    Permissions(Option<u64>),
    /// The guild of the voice channel, or `None` if it could not be fetched.
    VoiceChannel(Option<u64>),
    /// The voice channel was fetched but is not a guild channel.
    VoiceChannelNotGuild,
    /// Whether the change (or the help message) went through.
    Completed(bool),
}

/// What to do next.
#[derive(Clone, Copy, Debug, PartialEq, Eq)]
pub enum ApplyAction {
    /// Look up the user's permissions in the text channel.
    LookUpPermissions,
    /// Fetch the voice channel with this id.
    FetchVoiceChannel { channel_id: u64 },
    /// Set the user limit of the voice channel.
    SetUserLimit { channel_id: u64, user_limit: u64 },
    /// Put this permission overwrite on the voice channel.
    SetOverwrite { channel_id: u64, overwrite: Overwrite },
    /// Mark the text channel NSFW or not.
    SetNsfw { nsfw: bool },
    /// Send the help message to the text channel (whether it went through does not matter).
    SendHelp,
    /// Stop with this result: the operation carried out, `None` when nothing was to
    /// be answered (help, or a user who may not change the channels), or the error.
    Finish(Result<Option<Operation>, ApplyError>),
}

/// The bits that hiding denies to `@everyone`: reading messages and connecting.
pub open spec fn hidden_deny_bits() -> u64 {
    0x10_0400u64
}

/// The overwrite of `@everyone` (the role with the guild's id) that hiding puts on
/// the voice channel, and the one that unhiding puts back: the permissions recorded
/// in the topic.
pub open spec fn hide_overwrite(hidden: bool, topic: TopicData, guild: u64) -> Overwrite {
    if hidden {
        Overwrite { allow: 0, deny: hidden_deny_bits(), kind: OverwriteKind::Role(guild) }
    } else {
        Overwrite { allow: topic.allow, deny: topic.deny, kind: OverwriteKind::Role(guild) }
    }
}

/// The step after the user was found to be allowed to change the channels.
pub open spec fn apply_allowed(op: Operation, topic: TopicData) -> (ApplyState, ApplyAction) {
    match op {
        Operation::NSFW(on) => (ApplyState::AwaitingChange { op }, ApplyAction::SetNsfw { nsfw: on }),
        Operation::Help => (ApplyState::AwaitingHelp, ApplyAction::SendHelp),
        _ => (
            ApplyState::AwaitingVoiceChannel { op, topic },
            ApplyAction::FetchVoiceChannel { channel_id: topic.voice_channel },
        ),
    }
}

/// The first step of `op`, asked by `user` in a text channel whose topic is `topic`.
/// Help needs nothing; the other operations need the topic, and a user who is
/// neither the owner nor the master user needs their permissions looked up.
pub open spec fn apply_begin(op: Operation, user: u64, topic: Option<Seq<char>>) -> (ApplyState, ApplyAction) {
    match op {
        Operation::Help => (ApplyState::AwaitingHelp, ApplyAction::SendHelp),
        _ => match parse_channel_topic(topic) {
            Err(e) => (ApplyState::Finished, ApplyAction::Finish(Err(ApplyError::Topic(e)))),
            Ok(t) => if t.owner == user || user == MASTER_USER {
                apply_allowed(op, t)
            } else {
                (ApplyState::AwaitingPermissions { op, topic: t }, ApplyAction::LookUpPermissions)
            },
        },
    }
}

/// The failure of a change.
pub open spec fn change_failure(op: Operation) -> ApplyError {
    match op {
        Operation::Lock(_) => ApplyError::LockFailed,
        Operation::Hide(_) => ApplyError::HideFailed,
        _ => ApplyError::NsfwFailed,
    }
}

/// The step after `event` answered the action of `state`.
pub open spec fn apply_next(state: ApplyState, event: ApplyEvent) -> (ApplyState, ApplyAction) {
    match (state, event) {
        (ApplyState::AwaitingPermissions { op, topic }, ApplyEvent::Permissions(p)) => {
            if p matches Some(bits) && bits & 0x10u64 == 0x10u64 {
                apply_allowed(op, topic)
            } else {
                (ApplyState::Finished, ApplyAction::Finish(Ok(None)))
            }
        },
        (ApplyState::AwaitingVoiceChannel { op, topic }, ApplyEvent::VoiceChannel(guild)) => {
            match (op, guild) {
                (_, None) => (
                    ApplyState::Finished,
                    ApplyAction::Finish(Err(ApplyError::VoiceChannelUnavailable)),
                ),
                (Operation::Lock(locked), Some(_)) => (
                    ApplyState::AwaitingChange { op },
                    ApplyAction::SetUserLimit {
                        channel_id: topic.voice_channel,
                        user_limit: if locked {
                            1
                        } else {
                            0
                        },
                    },
                ),
                (Operation::Hide(hidden), Some(g)) => (
                    ApplyState::AwaitingChange { op },
                    ApplyAction::SetOverwrite {
                        channel_id: topic.voice_channel,
                        overwrite: hide_overwrite(hidden, topic, g),
                    },
                ),
                _ => (ApplyState::Finished, ApplyAction::Finish(Err(ApplyError::OutOfOrder))),
            }
        },
        (ApplyState::AwaitingVoiceChannel { .. }, ApplyEvent::VoiceChannelNotGuild) => (
            ApplyState::Finished,
            ApplyAction::Finish(Err(ApplyError::VoiceChannelNotGuild)),
        ),
        (ApplyState::AwaitingChange { op }, ApplyEvent::Completed(done)) => {
            if done {
                (ApplyState::Finished, ApplyAction::Finish(Ok(Some(op))))
            } else {
                (ApplyState::Finished, ApplyAction::Finish(Err(change_failure(op))))
            }
        },
        (ApplyState::AwaitingHelp, ApplyEvent::Completed(_)) => (
            ApplyState::Finished,
            ApplyAction::Finish(Ok(None)),
        ),
        _ => (ApplyState::Finished, ApplyAction::Finish(Err(ApplyError::OutOfOrder))),
    }
}

fn allowed_step(op: Operation, topic: TopicData) -> (r: (ApplyState, ApplyAction))
    ensures
        r == apply_allowed(op, topic),
{
    match op {
        Operation::NSFW(on) => (ApplyState::AwaitingChange { op }, ApplyAction::SetNsfw { nsfw: on }),
        Operation::Help => (ApplyState::AwaitingHelp, ApplyAction::SendHelp),
        _ => (
            ApplyState::AwaitingVoiceChannel { op, topic },
            ApplyAction::FetchVoiceChannel { channel_id: topic.voice_channel },
        ),
    }
}

impl Operation {
    /// Starts carrying out the operation for `user_id` in a text channel whose topic
    /// is `topic`: the first state and action (see `apply_begin`).
    pub fn apply(&self, user_id: u64, topic: Option<&str>) -> (r: (ApplyState, ApplyAction))
        ensures
            r == apply_begin(*self, user_id, opt_str_view(topic)),
    {
        match self {
            Operation::Help => (ApplyState::AwaitingHelp, ApplyAction::SendHelp),
            _ => match TopicData::try_from(topic) {
                Err(e) => (ApplyState::Finished, ApplyAction::Finish(Err(ApplyError::Topic(e)))),
                Ok(t) => if t.owner == user_id || user_id == MASTER_USER {
                    allowed_step(*self, t)
                } else {
                    (ApplyState::AwaitingPermissions { op: *self, topic: t }, ApplyAction::LookUpPermissions)
                },
            },
        }
    }
}

impl ApplyState {
    /// The next state and action after `event` answered this state's action (see `apply_next`).
    pub fn next(self, event: ApplyEvent) -> (r: (ApplyState, ApplyAction))
        ensures
            r == apply_next(self, event),
    {
        match (self, event) {
            (ApplyState::AwaitingPermissions { op, topic }, ApplyEvent::Permissions(p)) => {
                let allowed = match p {
                    Some(bits) => crate::permissions::allows_manage_channels(bits),
                    None => false,
                };
                if allowed {
                    allowed_step(op, topic)
                } else {
                    (ApplyState::Finished, ApplyAction::Finish(Ok(None)))
                }
            },
            (ApplyState::AwaitingVoiceChannel { op, topic }, ApplyEvent::VoiceChannel(guild)) => {
                match (op, guild) {
                    (_, None) => (
                        ApplyState::Finished,
                        ApplyAction::Finish(Err(ApplyError::VoiceChannelUnavailable)),
                    ),
                    (Operation::Lock(locked), Some(_)) => (
                        ApplyState::AwaitingChange { op },
                        ApplyAction::SetUserLimit {
                            channel_id: topic.voice_channel,
                            user_limit: if locked {
                                1
                            } else {
                                0
                            },
                        },
                    ),
                    (Operation::Hide(hidden), Some(g)) => {
                        let overwrite = if hidden {
                            Overwrite {
                                allow: 0,
                                deny: permission_bits(PermissionFlag::ReadMessages) | permission_bits(
                                    PermissionFlag::Connect,
                                ),
                                kind: OverwriteKind::Role(g),
                            }
                        } else {
                            Overwrite { allow: topic.allow, deny: topic.deny, kind: OverwriteKind::Role(g) }
                        };
                        proof {
                            assert(0x400u64 | 0x10_0000u64 == 0x10_0400u64) by (bit_vector);
                        }
                        (
                            ApplyState::AwaitingChange { op },
                            ApplyAction::SetOverwrite { channel_id: topic.voice_channel, overwrite },
                        )
                    },
                    _ => (ApplyState::Finished, ApplyAction::Finish(Err(ApplyError::OutOfOrder))),
                }
            },
            (ApplyState::AwaitingVoiceChannel { .. }, ApplyEvent::VoiceChannelNotGuild) => (
                ApplyState::Finished,
                ApplyAction::Finish(Err(ApplyError::VoiceChannelNotGuild)),
            ),
            (ApplyState::AwaitingChange { op }, ApplyEvent::Completed(done)) => {
                if done {
                    (ApplyState::Finished, ApplyAction::Finish(Ok(Some(op))))
                } else {
                    let failure = match op {
                        Operation::Lock(_) => ApplyError::LockFailed,
                        Operation::Hide(_) => ApplyError::HideFailed,
                        _ => ApplyError::NsfwFailed,
                    };
                    (ApplyState::Finished, ApplyAction::Finish(Err(failure)))
                }
            },
            (ApplyState::AwaitingHelp, ApplyEvent::Completed(_)) => (
                ApplyState::Finished,
                ApplyAction::Finish(Ok(None)),
            ),
            _ => (ApplyState::Finished, ApplyAction::Finish(Err(ApplyError::OutOfOrder))),
        }
    }
}

// ---------------------------------------------------------------------------
// What the steps of an operation guarantee
// ---------------------------------------------------------------------------

/// A user who is neither the owner of the pair nor the master user, and whose
/// permissions in the text channel do not include managing channels (or could not
/// be looked up), changes nothing: the operation ends at once with no answer.
pub proof fn lemma_unauthorized_user_changes_nothing(op: Operation, user: u64, topic: Seq<char>, permissions: Option<u64>)
    requires
        op != Operation::Help,
        parse_channel_topic(Some(topic)) matches Ok(t) && t.owner != user && user != MASTER_USER,
        !(permissions matches Some(bits) && bits & 0x10u64 == 0x10u64),
    ensures
        apply_begin(op, user, Some(topic)).1 == ApplyAction::LookUpPermissions,
        apply_next(apply_begin(op, user, Some(topic)).0, ApplyEvent::Permissions(permissions))
            == (ApplyState::Finished, ApplyAction::Finish(Ok::<Option<Operation>, ApplyError>(None))),
{
}

/// The owner of the pair and the master user are never asked for permissions: their
/// operation goes straight to its change.
pub proof fn lemma_owner_and_master_need_no_permissions(op: Operation, user: u64, topic: Seq<char>)
    requires
        parse_channel_topic(Some(topic)) matches Ok(t) && (t.owner == user || user == MASTER_USER),
    ensures
        apply_begin(op, user, Some(topic)).1 != ApplyAction::LookUpPermissions,
        !(apply_begin(op, user, Some(topic)).1 is Finish),
{
}

/// An operation other than help on a channel whose topic cannot be read fails with
/// that reason and changes nothing.
pub proof fn lemma_unreadable_topic_fails(op: Operation, user: u64, topic: Option<Seq<char>>)
    requires
        op != Operation::Help,
        parse_channel_topic(topic) is Err,
    ensures
        apply_begin(op, user, topic) == (
            ApplyState::Finished,
            ApplyAction::Finish(Err::<Option<Operation>, ApplyError>(ApplyError::Topic(parse_channel_topic(topic)->Err_0))),
        ),
{
}

/// The action that follows once the voice channel of `topic`, in guild `guild`, is had.
pub open spec fn action_on_voice_channel(op: Operation, topic: TopicData, guild: u64) -> ApplyAction {
    apply_next((ApplyState::AwaitingVoiceChannel { op, topic }), ApplyEvent::VoiceChannel(Some(guild))).1
}

/// Once the voice channel is had, locking limits it to one user and unlocking lifts
/// the limit (0); hiding denies `@everyone` reading and connecting, and unhiding
/// gives `@everyone` back the permissions recorded in the topic.
pub proof fn lemma_voice_changes(topic: TopicData, guild: u64)
    ensures
        action_on_voice_channel(Operation::Lock(true), topic, guild) == (ApplyAction::SetUserLimit {
            channel_id: topic.voice_channel,
            user_limit: 1u64,
        }),
        action_on_voice_channel(Operation::Lock(false), topic, guild) == (ApplyAction::SetUserLimit {
            channel_id: topic.voice_channel,
            user_limit: 0u64,
        }),
        action_on_voice_channel(Operation::Hide(true), topic, guild) == (ApplyAction::SetOverwrite {
            channel_id: topic.voice_channel,
            overwrite: (Overwrite {
                allow: 0u64,
                deny: 0x400u64 | 0x10_0000u64,
                kind: OverwriteKind::Role(guild),
            }),
        }),
        action_on_voice_channel(Operation::Hide(false), topic, guild) == (ApplyAction::SetOverwrite {
            channel_id: topic.voice_channel,
            overwrite: (Overwrite { allow: topic.allow, deny: topic.deny, kind: OverwriteKind::Role(guild) }),
        }),
{
    assert(0x400u64 | 0x10_0000u64 == 0x10_0400u64) by (bit_vector);
}

/// How many more answers an operation in this state waits for, at most.
pub open spec fn apply_rank(state: ApplyState) -> nat {
    match state {
        ApplyState::AwaitingPermissions { .. } => 3,
        ApplyState::AwaitingVoiceChannel { .. } => 2,
        ApplyState::AwaitingChange { .. } => 1,
        ApplyState::AwaitingHelp => 1,
        ApplyState::Finished => 0,
    }
}

/// The steps of an operation always end: every answer to a waiting state leads to a
/// state that waits for fewer answers, and the flow is finished exactly when its
/// action is `Finish`.
pub proof fn lemma_apply_progresses(state: ApplyState, event: ApplyEvent)
    requires
        state != ApplyState::Finished,
    ensures
        apply_rank(apply_next(state, event).0) < apply_rank(state),
        apply_next(state, event).0 == ApplyState::Finished <==> apply_next(state, event).1 is Finish,
{
}


/// What the operation of a user who may change the pair asks for first: the owner
/// and the master user are let through at once, anyone else once their permissions
/// include managing channels (0x10). Marking NSFW (`true`) or not sets the text
/// channel's NSFW mark to that same flag; locking and hiding, either way, first
/// fetch the voice channel of the topic.
pub proof fn lemma_allowed_operations(
    op: Operation,
    user: u64,
    topic: Seq<char>,
    t: TopicData,
    permissions: Option<u64>,
)
    requires
        op != Operation::Help,
        parse_channel_topic(Some(topic)) == Ok::<TopicData, TopicError>(t),
        t.owner == user || user == MASTER_USER || (permissions matches Some(p) && p & 0x10u64 == 0x10u64),
    ensures
        ({
            let first = apply_begin(op, user, Some(topic));
            let allowed = if t.owner == user || user == MASTER_USER {
                first
            } else {
                apply_next(first.0, ApplyEvent::Permissions(permissions))
            };
            &&& (t.owner != user && user != MASTER_USER) ==> first.1 == ApplyAction::LookUpPermissions
            &&& match op {
                Operation::NSFW(b) => allowed == (ApplyState::AwaitingChange { op }, ApplyAction::SetNsfw { nsfw: b }),
                _ => allowed == (
                    ApplyState::AwaitingVoiceChannel { op, topic: t },
                    ApplyAction::FetchVoiceChannel { channel_id: t.voice_channel },
                ),
            }
        }),
{
}

/// On the text channel of a pair made from topic data `t`, the owner's and the
/// master user's `NSFW(b)` sets the channel's NSFW mark to `b`, and its success is
/// reported as `NSFW(b)` carried out.
pub proof fn lemma_nsfw_follows_its_flag(b: bool, t: TopicData)
    requires
        t.wf(),
    ensures
        apply_begin(Operation::NSFW(b), t.owner, Some(channel_topic_text(t))).1 == (ApplyAction::SetNsfw { nsfw: b }),
        apply_begin(Operation::NSFW(b), MASTER_USER, Some(channel_topic_text(t))).1 == (ApplyAction::SetNsfw { nsfw: b }),
        apply_next(apply_begin(Operation::NSFW(b), t.owner, Some(channel_topic_text(t))).0, ApplyEvent::Completed(true))
            == (ApplyState::Finished, ApplyAction::Finish(Ok::<Option<Operation>, ApplyError>(Some(Operation::NSFW(b))))),
{
    lemma_topic_round_trip(t);
}

/// How a change ends: once Discord carried it out, the operation is reported as
/// done; otherwise it fails with the failure of its kind (locking, hiding or the
/// NSFW mark).
pub proof fn lemma_change_outcome(op: Operation, done: bool)
    requires
        op != Operation::Help,
    ensures
        apply_next(ApplyState::AwaitingChange { op }, ApplyEvent::Completed(done)) == (
        ApplyState::Finished,
        if done {
            ApplyAction::Finish(Ok::<Option<Operation>, ApplyError>(Some(op)))
        } else {
            ApplyAction::Finish(Err::<Option<Operation>, ApplyError>(match op {
                Operation::Lock(_) => ApplyError::LockFailed,
                Operation::Hide(_) => ApplyError::HideFailed,
                _ => ApplyError::NsfwFailed,
            }))
        },
        ),
{
}

/// Help is sent to anyone, whatever the topic, and then ends with nothing to answer.
pub proof fn lemma_help_for_everyone(user: u64, topic: Option<Seq<char>>, sent: bool)
    ensures
        apply_begin(Operation::Help, user, topic) == (ApplyState::AwaitingHelp, ApplyAction::SendHelp),
        apply_next(ApplyState::AwaitingHelp, ApplyEvent::Completed(sent)) == (
        ApplyState::Finished,
        ApplyAction::Finish(Ok::<Option<Operation>, ApplyError>(None)),
        ),
{
}


/// The answers to carried-out operations: each names what was done and turns with
/// the operation's flag; help has nothing to say.
pub proof fn lemma_responses()
    ensures
        response_text(Operation::Lock(true)) == Some("Locked"@),
        response_text(Operation::Lock(false)) == Some("Unlocked"@),
        response_text(Operation::Hide(true)) == Some("Hidden"@),
        response_text(Operation::Hide(false)) == Some("Unhidden"@),
        response_text(Operation::NSFW(true)) == Some("Set nsfw"@),
        response_text(Operation::NSFW(false)) == Some("Unset NSFW"@),
        response_text(Operation::Help) is None,
{
}

} // verus!
