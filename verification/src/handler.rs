//! The decisions of the gateway event handler: which joins and leaves a voice state
//! update means, which channel goes with a deleted one, and how a slash command is
//! handled.
use vstd::prelude::*;
use crate::channels::{is_text_channel_of, linked_voice_channel, text_to_voice, topic_voice_field};
use crate::operation::{operation_for_command, ApplyError, Operation, SlashError};
use crate::text::{lemma_parse_decimal_text};
use crate::topic::{channel_topic_text, lemma_channel_topic_pieces, opt_str_view, TopicData};

verus! {

/// The handler of the gateway events.
pub struct Handler;

/// A user's voice state: the voice channel they are in, if any.
#[derive(Clone, Copy, Debug, PartialEq, Eq)]
pub struct VoiceStateInfo {
    pub channel: Option<u64>,
    pub user: u64,
}

/// A user leaving or joining a voice channel.
#[derive(Clone, Copy, Debug, PartialEq, Eq)]
pub enum VoiceEvent {
    Leave { channel: u64, user: u64 },
    Join { channel: u64, user: u64 },
}

/// What a voice state update in guild `guild` (none for a direct call) from `old`
/// to `new` means: nothing outside a guild or when the channel did not change;
/// otherwise the user left the old channel, if any, and then joined the new one, if
/// any. Without an old state, the leaving user is user 0.
pub open spec fn voice_events(guild: Option<u64>, old: Option<VoiceStateInfo>, new: VoiceStateInfo) -> Seq<VoiceEvent> {
    let (old_channel, old_user) = match old {
        Some(o) => (o.channel, o.user),
        None => (None, 0u64),
    };
    if guild is None || new.channel == old_channel {
        Seq::empty()
    } else {
        let leave = match old_channel {
            Some(c) => seq![VoiceEvent::Leave { channel: c, user: old_user }],
            None => Seq::empty(),
        };
        let join = match new.channel {
            Some(c) => seq![VoiceEvent::Join { channel: c, user: new.user }],
            None => Seq::empty(),
        };
        leave + join
    }
}

/// The kind of a deleted channel.
#[derive(Clone, Copy, Debug, PartialEq, Eq)]
pub enum ChannelKind {
    Text,
    Voice,
    Other,
}

/// Which channel goes with a deleted one.
#[derive(Clone, Copy, Debug, PartialEq, Eq)]
pub enum DeleteLookup {
    /// Nothing to delete.
    Ignore,
    /// Delete this channel.
    Delete(u64),
    /// Delete the text channel of this voice channel (`voice_to_text`), if there is one.
    DeleteTextChannelOf(u64),
}

/// For a deleted text channel, the voice channel its topic names; for a deleted
/// voice channel, its text channel; for anything else, nothing.
pub open spec fn delete_lookup(kind: ChannelKind, channel: u64, topic: Option<Seq<char>>) -> DeleteLookup {
    match kind {
        ChannelKind::Text => match linked_voice_channel(topic) {
            Some(v) => DeleteLookup::Delete(v),
            None => DeleteLookup::Ignore,
        },
        ChannelKind::Voice => DeleteLookup::DeleteTextChannelOf(channel),
        ChannelKind::Other => DeleteLookup::Ignore,
    }
}

impl Handler {
    /// The leaves and joins that a voice state update means (see `voice_events`).
    pub fn voice_state_update(&self, guild: Option<u64>, old: Option<VoiceStateInfo>, new: VoiceStateInfo) -> (events: Vec<VoiceEvent>)
        ensures
            events@ == voice_events(guild, old, new),
    {
        let mut events: Vec<VoiceEvent> = Vec::new();
        if guild.is_none() {
            return events;
        }
        let (old_channel, old_user) = match old {
            Some(o) => (o.channel, o.user),
            None => (None, 0u64),
        };
        if new.channel == old_channel {
            return events;
        }
        match old_channel {
            Some(c) => events.push(VoiceEvent::Leave { channel: c, user: old_user }),
            None => {},
        }
        match new.channel {
            Some(c) => events.push(VoiceEvent::Join { channel: c, user: new.user }),
            None => {},
        }
        assert(events@ =~= voice_events(guild, old, new));
        events
    }

    /// Which channel goes with a deleted channel of kind `kind`, id `channel_id` and
    /// topic `topic` (see `delete_lookup`).
    pub fn channel_delete(&self, kind: ChannelKind, channel_id: u64, topic: Option<&str>) -> (r: DeleteLookup)
        ensures
            r == delete_lookup(kind, channel_id, opt_str_view(topic)),
    {
        match kind {
            ChannelKind::Text => match text_to_voice(topic) {
                Some(v) => DeleteLookup::Delete(v),
                None => DeleteLookup::Ignore,
            },
            ChannelKind::Voice => DeleteLookup::DeleteTextChannelOf(channel_id),
            ChannelKind::Other => DeleteLookup::Ignore,
        }
    }
}

/// The channels of a pair find each other: the topic that Viav writes in the text
/// channel of `t` names the voice channel, so that deleting that text channel
/// deletes the voice channel (unless its id is 0), and looking for the text channel
/// of the voice channel finds a channel with that topic.
pub proof fn lemma_pair_channels_find_each_other(t: TopicData, text_channel: u64)
    ensures
        topic_voice_field(channel_topic_text(t)) == Some(t.voice_channel),
        is_text_channel_of(Some(channel_topic_text(t)), t.voice_channel),
        t.voice_channel != 0 ==> delete_lookup(ChannelKind::Text, text_channel, Some(channel_topic_text(t)))
            == DeleteLookup::Delete(t.voice_channel),
        delete_lookup(ChannelKind::Voice, t.voice_channel, None) == DeleteLookup::DeleteTextChannelOf(
            t.voice_channel,
        ),
{
    lemma_channel_topic_pieces(t);
    lemma_parse_decimal_text(t.voice_channel);
}

// ---------------------------------------------------------------------------
// Slash commands
// ---------------------------------------------------------------------------

/// Where the handling of a slash command stands.
#[derive(Clone, Copy, Debug, PartialEq, Eq)]
pub enum SlashState {
    AwaitingChannel { op: Result<Operation, SlashError> },
    AwaitingApply,
    AwaitingReply,
    Finished,
}

/// The answers to the actions.
#[derive(Clone, Copy, Debug, PartialEq, Eq)]
pub enum SlashEvent {
    /// Whether the command's channel was fetched as a guild channel (`false` when it
    /// could not be fetched).
    Channel(bool),
    /// The command's channel was fetched but is not a guild channel.
    ChannelNotGuild,
    /// How the operation ended (`Operation::apply`).
    Applied(Result<Option<Operation>, ApplyError>),
    /// Whether the answer went through.
    Completed(bool),
}

/// What to do next.
#[derive(Clone, Copy, Debug, PartialEq, Eq)]
pub enum SlashAction {
    FetchChannel,
    /// Carry out the operation for the member who sent the command, in its channel.
    Apply(Operation),
    /// Answer the command with `interaction_reply` of what was carried out.
    Reply(Option<Operation>),
    Finish(Result<(), SlashError>),
}

/// The operation of a command name, or why it has none.
pub open spec fn command_operation(name: Seq<char>) -> Result<Operation, SlashError> {
    match operation_for_command(name) {
        Some(op) => Ok(op),
        None => Err(SlashError::UnknownCommand),
    }
}

/// The first step for an interaction whose command is named `name` (`None` when the
/// interaction carries no command data, which is then ignored). The name is judged
/// now and reported once the channel is had.
pub open spec fn slash_begin(name: Option<Seq<char>>) -> (SlashState, SlashAction) {
    match name {
        None => (SlashState::Finished, SlashAction::Finish(Ok(()))),
        Some(n) => (SlashState::AwaitingChannel { op: command_operation(n) }, SlashAction::FetchChannel),
    }
}

/// The step after `event`.
pub open spec fn slash_next(state: SlashState, event: SlashEvent) -> (SlashState, SlashAction) {
    match (state, event) {
        (SlashState::AwaitingChannel { op }, SlashEvent::Channel(found)) => if !found {
            (SlashState::Finished, SlashAction::Finish(Err(SlashError::ChannelUnavailable)))
        } else {
            match op {
                Err(e) => (SlashState::Finished, SlashAction::Finish(Err(e))),
                Ok(o) => (SlashState::AwaitingApply, SlashAction::Apply(o)),
            }
        },
        (SlashState::AwaitingChannel { .. }, SlashEvent::ChannelNotGuild) => (
            SlashState::Finished,
            SlashAction::Finish(Err(SlashError::NotGuildChannel)),
        ),
        (SlashState::AwaitingApply, SlashEvent::Applied(r)) => match r {
            Err(e) => (SlashState::Finished, SlashAction::Finish(Err(SlashError::Apply(e)))),
            Ok(done) => (SlashState::AwaitingReply, SlashAction::Reply(done)),
        },
        (SlashState::AwaitingReply, SlashEvent::Completed(ok)) => if ok {
            (SlashState::Finished, SlashAction::Finish(Ok(())))
        } else {
            (SlashState::Finished, SlashAction::Finish(Err(SlashError::ReplyFailed)))
        },
        _ => (SlashState::Finished, SlashAction::Finish(Err(SlashError::OutOfOrder))),
    }
}

/// Starts handling an interaction whose command is named `name`.
pub fn handle_slash_command(name: Option<&str>) -> (r: (SlashState, SlashAction))
    ensures
        r == slash_begin(opt_str_view(name)),
{
    match name {
        None => (SlashState::Finished, SlashAction::Finish(Ok(()))),
        Some(n) => (SlashState::AwaitingChannel { op: Operation::from_command(n) }, SlashAction::FetchChannel),
    }
}

impl SlashState {
    /// The next state and action after `event` (see `slash_next`).
    pub fn next(self, event: SlashEvent) -> (r: (SlashState, SlashAction))
        ensures
            r == slash_next(self, event),
    {
        match (self, event) {
            (SlashState::AwaitingChannel { op }, SlashEvent::Channel(found)) => if !found {
                (SlashState::Finished, SlashAction::Finish(Err(SlashError::ChannelUnavailable)))
            } else {
                match op {
                    Err(e) => (SlashState::Finished, SlashAction::Finish(Err(e))),
                    Ok(o) => (SlashState::AwaitingApply, SlashAction::Apply(o)),
                }
            },
            (SlashState::AwaitingChannel { .. }, SlashEvent::ChannelNotGuild) => (
                SlashState::Finished,
                SlashAction::Finish(Err(SlashError::NotGuildChannel)),
            ),
            (SlashState::AwaitingApply, SlashEvent::Applied(r)) => match r {
                Err(e) => (SlashState::Finished, SlashAction::Finish(Err(SlashError::Apply(e)))),
                Ok(done) => (SlashState::AwaitingReply, SlashAction::Reply(done)),
            },
            (SlashState::AwaitingReply, SlashEvent::Completed(ok)) => if ok {
                (SlashState::Finished, SlashAction::Finish(Ok(())))
            } else {
                (SlashState::Finished, SlashAction::Finish(Err(SlashError::ReplyFailed)))
            },
            _ => (SlashState::Finished, SlashAction::Finish(Err(SlashError::OutOfOrder))),
        }
    }
}


/// Every command that was carried out is answered, whether or not the operation has
/// anything to say (`done` is `None` for help and for a user without rights, and the
/// answer then only acknowledges); a failed operation fails the command unanswered.
pub proof fn lemma_applied_commands_are_answered(applied: Result<Option<Operation>, ApplyError>)
    ensures
        slash_next(SlashState::AwaitingApply, SlashEvent::Applied(applied)) == match applied {
            Ok(done) => (SlashState::AwaitingReply, SlashAction::Reply(done)),
            Err(e) => (SlashState::Finished, SlashAction::Finish(Err::<(), SlashError>(SlashError::Apply(e)))),
        },
{
}

/// A whole slash command named `name`: its channel is fetched first; a channel that
/// cannot be had, or is not a guild channel, fails it; in a guild channel `lock`,
/// `unlock`, `hide`, `unhide` and `help` carry out their operation and any other
/// name fails as unknown; an operation carried out with `done` is answered with
/// `Reply(done)`, and the command ends well exactly when the answer went through.
pub proof fn lemma_slash_command_flow(
    name: Seq<char>,
    applied: Result<Option<Operation>, ApplyError>,
    answered: bool,
)
    ensures
        slash_begin(None) == (SlashState::Finished, SlashAction::Finish(Ok::<(), SlashError>(()))),
        slash_begin(Some(name)).1 == SlashAction::FetchChannel,
        slash_next(slash_begin(Some(name)).0, SlashEvent::Channel(false)) == (
        SlashState::Finished,
        SlashAction::Finish(Err::<(), SlashError>(SlashError::ChannelUnavailable)),
        ),
        slash_next(slash_begin(Some(name)).0, SlashEvent::ChannelNotGuild) == (
        SlashState::Finished,
        SlashAction::Finish(Err::<(), SlashError>(SlashError::NotGuildChannel)),
        ),
        slash_next(slash_begin(Some(name)).0, SlashEvent::Channel(true)).1 == if name == "lock"@ {
            SlashAction::Apply(Operation::Lock(true))
        } else if name == "unlock"@ {
            SlashAction::Apply(Operation::Lock(false))
        } else if name == "hide"@ {
            SlashAction::Apply(Operation::Hide(true))
        } else if name == "unhide"@ {
            SlashAction::Apply(Operation::Hide(false))
        } else if name == "help"@ {
            SlashAction::Apply(Operation::Help)
        } else {
            SlashAction::Finish(Err::<(), SlashError>(SlashError::UnknownCommand))
        },
        ({
            let s1 = slash_next(slash_begin(Some(name)).0, SlashEvent::Channel(true));
            let s2 = slash_next(s1.0, SlashEvent::Applied(applied));
            let s3 = slash_next(s2.0, SlashEvent::Completed(answered));
            s1.1 is Apply ==> (applied matches Ok(done) ==> {
                &&& s2.1 == SlashAction::Reply(done)
                &&& s3 == (SlashState::Finished, if answered {
                    SlashAction::Finish(Ok::<(), SlashError>(()))
                } else {
                    SlashAction::Finish(Err::<(), SlashError>(SlashError::ReplyFailed))
                })
            })
        }),
{
}


/// What a voice state update means in a guild: a user who moves from channel `a`
/// to another channel `b` leaves `a` and then joins `b`; a user who only connects
/// joins, one who only disconnects leaves, and an update that keeps the channel, or
/// comes from outside a guild, means nothing.
pub proof fn lemma_voice_state_changes(guild: u64, user: u64, a: u64, b: u64)
    ensures
        a != b ==> voice_events(
            Some(guild),
            Some(VoiceStateInfo { channel: Some(a), user }),
            VoiceStateInfo { channel: Some(b), user },
        ) == seq![VoiceEvent::Leave { channel: a, user }, VoiceEvent::Join { channel: b, user }],
        voice_events(Some(guild), None, VoiceStateInfo { channel: Some(b), user }) == seq![
            VoiceEvent::Join { channel: b, user },
        ],
        voice_events(
            Some(guild),
            Some(VoiceStateInfo { channel: Some(a), user }),
            VoiceStateInfo { channel: None, user },
        ) == seq![VoiceEvent::Leave { channel: a, user }],
        voice_events(
            Some(guild),
            Some(VoiceStateInfo { channel: Some(a), user }),
            VoiceStateInfo { channel: Some(a), user },
        ).len() == 0,
        voice_events(
            None,
            Some(VoiceStateInfo { channel: Some(a), user }),
            VoiceStateInfo { channel: Some(b), user },
        ).len() == 0,
{
    assert(seq![VoiceEvent::Leave { channel: a, user }] + seq![VoiceEvent::Join { channel: b, user }] =~= seq![
        VoiceEvent::Leave { channel: a, user },
        VoiceEvent::Join { channel: b, user },
    ]);
    assert(Seq::<VoiceEvent>::empty() + seq![VoiceEvent::Join { channel: b, user }] =~= seq![
        VoiceEvent::Join { channel: b, user },
    ]);
    assert(seq![VoiceEvent::Leave { channel: a, user }] + Seq::<VoiceEvent>::empty() =~= seq![
        VoiceEvent::Leave { channel: a, user },
    ]);
}

} // verus!
