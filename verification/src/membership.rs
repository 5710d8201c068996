//! What happens when a user joins or leaves a voice channel: the first user creates
//! a pair, later users are announced in the text channel and let into it, leaving
//! users are announced and shut out, and the last user to leave removes the text
//! channel.
use vstd::prelude::*;
use vstd::string::*;
use crate::permissions::{permission_bits, Overwrite, OverwriteKind, PermissionFlag};
use crate::content::{embed_colour, Embed, EmbedAuthor, EmbedField};
use crate::operation::opt_view_string;
use crate::text::{decimal_text, push_decimal, push_str};
use crate::voice::{member_read_overwrite, voice_create_error_text, VoiceCreateError};

verus! {

broadcast use vstd::string::group_string_axioms;

// ---------------------------------------------------------------------------
// Removing a pair
// ---------------------------------------------------------------------------

/// Why the text channel of a pair could not be removed.
#[derive(Clone, Copy, Debug, PartialEq, Eq)]
pub enum DestroyError {
    /// No text channel belongs to this voice channel.
    TextChannelNotFound(u64),
    /// The text channel could not be deleted.
    DeleteFailed,
    /// An answer came that the step did not ask for.
    OutOfOrder,
}

#[derive(Clone, Copy, Debug, PartialEq, Eq)]
pub enum DestroyState {
    AwaitingTextChannel { voice_channel: u64 },
    AwaitingDelete,
    Finished,
}

#[derive(Clone, Copy, Debug, PartialEq, Eq)]
pub enum DestroyEvent {
    /// The text channel of the voice channel, if any.
    TextChannel(Option<u64>),
    /// Whether the deletion went through.
    Completed(bool),
}

#[derive(Clone, Copy, Debug, PartialEq, Eq)]
pub enum DestroyAction {
    FindTextChannel,
    DeleteChannel { channel_id: u64 },
    Finish(Result<(), DestroyError>),
}

/// The step after `event`: the text channel must be found and deleted; the voice
/// channel itself is deleted by the handler of the text channel's deletion.
pub open spec fn destroy_next(state: DestroyState, event: DestroyEvent) -> (DestroyState, DestroyAction) {
    match (state, event) {
        (DestroyState::AwaitingTextChannel { voice_channel }, DestroyEvent::TextChannel(found)) => match found {
            None => (
                DestroyState::Finished,
                DestroyAction::Finish(Err(DestroyError::TextChannelNotFound(voice_channel))),
            ),
            Some(tc) => (DestroyState::AwaitingDelete, DestroyAction::DeleteChannel { channel_id: tc }),
        },
        (DestroyState::AwaitingDelete, DestroyEvent::Completed(ok)) => if ok {
            (DestroyState::Finished, DestroyAction::Finish(Ok(())))
        } else {
            (DestroyState::Finished, DestroyAction::Finish(Err(DestroyError::DeleteFailed)))
        },
        _ => (DestroyState::Finished, DestroyAction::Finish(Err(DestroyError::OutOfOrder))),
    }
}

/// Starts removing the pair of the voice channel `voice_channel_id`.
pub fn voice_destroy(voice_channel_id: u64) -> (r: (DestroyState, DestroyAction))
    ensures
        r == (DestroyState::AwaitingTextChannel { voice_channel: voice_channel_id }, DestroyAction::FindTextChannel),
{
    (DestroyState::AwaitingTextChannel { voice_channel: voice_channel_id }, DestroyAction::FindTextChannel)
}

impl DestroyState {
    /// The next state and action after `event` (see `destroy_next`).
    pub fn next(self, event: DestroyEvent) -> (r: (DestroyState, DestroyAction))
        ensures
            r == destroy_next(self, event),
    {
        match (self, event) {
            (DestroyState::AwaitingTextChannel { voice_channel }, DestroyEvent::TextChannel(found)) => match found {
                None => (
                    DestroyState::Finished,
                    DestroyAction::Finish(Err(DestroyError::TextChannelNotFound(voice_channel))),
                ),
                Some(tc) => (DestroyState::AwaitingDelete, DestroyAction::DeleteChannel { channel_id: tc }),
            },
            (DestroyState::AwaitingDelete, DestroyEvent::Completed(ok)) => if ok {
                (DestroyState::Finished, DestroyAction::Finish(Ok(())))
            } else {
                (DestroyState::Finished, DestroyAction::Finish(Err(DestroyError::DeleteFailed)))
            },
            _ => (DestroyState::Finished, DestroyAction::Finish(Err(DestroyError::OutOfOrder))),
        }
    }
}

/// How an announcement of a join or a leave went: the user is fetched (with their
/// nickname in the guild), then the message is sent.
#[derive(Clone, Copy, Debug, PartialEq, Eq)]
pub enum AnnounceOutcome {
    Sent,
    /// The user could not be fetched; nothing was sent.
    UserUnavailable,
    /// The message could not be sent.
    SendFailed,
}

// ---------------------------------------------------------------------------
// Joining
// ---------------------------------------------------------------------------

/// Why a join was not handled.
#[derive(Clone, Copy, Debug, PartialEq, Eq)]
pub enum JoinError {
    /// The number of users in the voice channel could not be had.
    UsersUnknown,
    /// The pair could not be created.
    Create(VoiceCreateError),
    /// The joining user could not be fetched for the announcement.
    UserUnavailable,
    /// The announcement could not be sent.
    AnnounceFailed,
    /// The user could not be let into the text channel (the failure was reported there).
    AccessFailed,
    /// The user could not be let in, nor could that be reported.
    ReportFailed,
    /// An answer came that the step did not ask for.
    OutOfOrder,
}

#[derive(Clone, Copy, Debug, PartialEq, Eq)]
pub enum JoinState {
    AwaitingCreate,
    AwaitingTextChannel { user: u64 },
    AwaitingAnnounce { user: u64, text_channel: u64 },
    AwaitingAccess { text_channel: u64 },
    AwaitingReport,
    Finished,
}

#[derive(Clone, Copy, Debug, PartialEq, Eq)]
pub enum JoinEvent {
    /// How the announcement went.
    Announced(AnnounceOutcome),
    /// How the creation of the pair ended.
    Created(Result<(), VoiceCreateError>),
    /// The text channel of the voice channel, if any.
    TextChannel(Option<u64>),
    /// Whether the last action went through.
    Completed(bool),
}

#[derive(Clone, Copy, Debug, PartialEq, Eq)]
pub enum JoinAction {
    /// Create a pair from the voice channel (`voice_create`).
    RunVoiceCreate,
    FindTextChannel,
    /// Fetch the user and send `announcement(<their name>, <their picture>, true)`
    /// to the text channel.
    AnnounceJoin { text_channel: u64, user: u64 },
    /// Put this overwrite on the text channel.
    GrantTextAccess { text_channel: u64, overwrite: Overwrite },
    /// Send `access_failure_report(<the failure>)` to the text channel.
    ReportAccessFailure { text_channel: u64 },
    Finish(Result<(), JoinError>),
}

/// The first step when `user` joined a voice channel in which `connected` users now
/// are (`None` when that could not be had): the first user creates a pair.
pub open spec fn join_begin(connected: Option<u32>, user: u64) -> (JoinState, JoinAction) {
    match connected {
        None => (JoinState::Finished, JoinAction::Finish(Err(JoinError::UsersUnknown))),
        Some(n) => if n == 1 {
            (JoinState::AwaitingCreate, JoinAction::RunVoiceCreate)
        } else {
            (JoinState::AwaitingTextChannel { user }, JoinAction::FindTextChannel)
        },
    }
}

/// The step after `event`.
pub open spec fn join_next(state: JoinState, event: JoinEvent) -> (JoinState, JoinAction) {
    match (state, event) {
        (JoinState::AwaitingCreate, JoinEvent::Created(r)) => match r {
            Ok(()) => (JoinState::Finished, JoinAction::Finish(Ok(()))),
            Err(e) => (JoinState::Finished, JoinAction::Finish(Err(JoinError::Create(e)))),
        },
        (JoinState::AwaitingTextChannel { user }, JoinEvent::TextChannel(found)) => match found {
            None => (JoinState::Finished, JoinAction::Finish(Ok(()))),
            Some(tc) => (
                JoinState::AwaitingAnnounce { user, text_channel: tc },
                JoinAction::AnnounceJoin { text_channel: tc, user },
            ),
        },
        (JoinState::AwaitingAnnounce { user, text_channel }, JoinEvent::Announced(outcome)) => match outcome {
            AnnounceOutcome::Sent => (
                JoinState::AwaitingAccess { text_channel },
                JoinAction::GrantTextAccess { text_channel, overwrite: member_read_overwrite(user) },
            ),
            AnnounceOutcome::UserUnavailable => (
                JoinState::Finished,
                JoinAction::Finish(Err(JoinError::UserUnavailable)),
            ),
            AnnounceOutcome::SendFailed => (JoinState::Finished, JoinAction::Finish(Err(JoinError::AnnounceFailed))),
        },
        (JoinState::AwaitingAccess { text_channel }, JoinEvent::Completed(ok)) => if ok {
            (JoinState::Finished, JoinAction::Finish(Ok(())))
        } else {
            (JoinState::AwaitingReport, JoinAction::ReportAccessFailure { text_channel })
        },
        (JoinState::AwaitingReport, JoinEvent::Completed(ok)) => if ok {
            (JoinState::Finished, JoinAction::Finish(Err(JoinError::AccessFailed)))
        } else {
            (JoinState::Finished, JoinAction::Finish(Err(JoinError::ReportFailed)))
        },
        _ => (JoinState::Finished, JoinAction::Finish(Err(JoinError::OutOfOrder))),
    }
}

/// Starts handling `user_id` joining a voice channel in which `connected` users now are.
pub fn on_join(connected: Option<u32>, user_id: u64) -> (r: (JoinState, JoinAction))
    ensures
        r == join_begin(connected, user_id),
{
    match connected {
        None => (JoinState::Finished, JoinAction::Finish(Err(JoinError::UsersUnknown))),
        Some(n) => if n == 1 {
            (JoinState::AwaitingCreate, JoinAction::RunVoiceCreate)
        } else {
            (JoinState::AwaitingTextChannel { user: user_id }, JoinAction::FindTextChannel)
        },
    }
}

impl JoinState {
    /// The next state and action after `event` (see `join_next`).
    pub fn next(self, event: JoinEvent) -> (r: (JoinState, JoinAction))
        ensures
            r == join_next(self, event),
    {
        match (self, event) {
            (JoinState::AwaitingCreate, JoinEvent::Created(r)) => match r {
                Ok(()) => (JoinState::Finished, JoinAction::Finish(Ok(()))),
                Err(e) => (JoinState::Finished, JoinAction::Finish(Err(JoinError::Create(e)))),
            },
            (JoinState::AwaitingTextChannel { user }, JoinEvent::TextChannel(found)) => match found {
                None => (JoinState::Finished, JoinAction::Finish(Ok(()))),
                Some(tc) => (
                    JoinState::AwaitingAnnounce { user, text_channel: tc },
                    JoinAction::AnnounceJoin { text_channel: tc, user },
                ),
            },
            (JoinState::AwaitingAnnounce { user, text_channel }, JoinEvent::Announced(outcome)) => match outcome {
                AnnounceOutcome::Sent => {
                    let overwrite = Overwrite {
                        allow: permission_bits(PermissionFlag::ReadMessages),
                        deny: 0,
                        kind: OverwriteKind::Member(user),
                    };
                    (JoinState::AwaitingAccess { text_channel }, JoinAction::GrantTextAccess { text_channel, overwrite })
                },
                AnnounceOutcome::UserUnavailable => (
                    JoinState::Finished,
                    JoinAction::Finish(Err(JoinError::UserUnavailable)),
                ),
                AnnounceOutcome::SendFailed => (
                    JoinState::Finished,
                    JoinAction::Finish(Err(JoinError::AnnounceFailed)),
                ),
            },
            (JoinState::AwaitingAccess { text_channel }, JoinEvent::Completed(ok)) => if ok {
                (JoinState::Finished, JoinAction::Finish(Ok(())))
            } else {
                (JoinState::AwaitingReport, JoinAction::ReportAccessFailure { text_channel })
            },
            (JoinState::AwaitingReport, JoinEvent::Completed(ok)) => if ok {
                (JoinState::Finished, JoinAction::Finish(Err(JoinError::AccessFailed)))
            } else {
                (JoinState::Finished, JoinAction::Finish(Err(JoinError::ReportFailed)))
            },
            _ => (JoinState::Finished, JoinAction::Finish(Err(JoinError::OutOfOrder))),
        }
    }
}

// ---------------------------------------------------------------------------
// Leaving
// ---------------------------------------------------------------------------

/// Why a leave was not handled.
#[derive(Clone, Copy, Debug, PartialEq, Eq)]
pub enum LeaveError {
    /// The number of users in this voice channel could not be had.
    UsersUnknown(u64),
    /// The pair could not be removed.
    Destroy(DestroyError),
    /// The leaving user could not be fetched for the announcement.
    UserUnavailable,
    /// The announcement could not be sent.
    AnnounceFailed,
    /// An answer came that the step did not ask for.
    OutOfOrder,
}

#[derive(Clone, Copy, Debug, PartialEq, Eq)]
pub enum LeaveState {
    AwaitingDestroy,
    AwaitingTextChannel { user: u64 },
    AwaitingRevoke { user: u64, text_channel: u64 },
    AwaitingAnnounce,
    Finished,
}

#[derive(Clone, Copy, Debug, PartialEq, Eq)]
pub enum LeaveEvent {
    /// How the announcement went.
    Announced(AnnounceOutcome),
    /// How the removal of the pair ended.
    Destroyed(Result<(), DestroyError>),
    /// The text channel of the voice channel, if any.
    TextChannel(Option<u64>),
    /// Whether the last action went through.
    Completed(bool),
}

#[derive(Clone, Copy, Debug, PartialEq, Eq)]
pub enum LeaveAction {
    /// Remove the pair of the voice channel (`voice_destroy`).
    RunVoiceDestroy,
    FindTextChannel,
    /// Delete the user's overwrite on the text channel (whether it goes through does not matter).
    RevokeTextAccess { text_channel: u64, user: u64 },
    /// Fetch the user and send `announcement(<their name>, <their picture>, false)`
    /// to the text channel.
    AnnounceLeave { text_channel: u64, user: u64 },
    Finish(Result<(), LeaveError>),
}

/// The first step when `user` left the voice channel `voice`, in which `connected`
/// users now are: the last user to leave removes the pair.
pub open spec fn leave_begin(connected: Option<u32>, voice: u64, user: u64) -> (LeaveState, LeaveAction) {
    match connected {
        None => (LeaveState::Finished, LeaveAction::Finish(Err(LeaveError::UsersUnknown(voice)))),
        Some(n) => if n == 0 {
            (LeaveState::AwaitingDestroy, LeaveAction::RunVoiceDestroy)
        } else {
            (LeaveState::AwaitingTextChannel { user }, LeaveAction::FindTextChannel)
        },
    }
}

/// The step after `event`.
pub open spec fn leave_next(state: LeaveState, event: LeaveEvent) -> (LeaveState, LeaveAction) {
    match (state, event) {
        (LeaveState::AwaitingDestroy, LeaveEvent::Destroyed(r)) => match r {
            Ok(()) => (LeaveState::Finished, LeaveAction::Finish(Ok(()))),
            Err(e) => (LeaveState::Finished, LeaveAction::Finish(Err(LeaveError::Destroy(e)))),
        },
        (LeaveState::AwaitingTextChannel { user }, LeaveEvent::TextChannel(found)) => match found {
            None => (LeaveState::Finished, LeaveAction::Finish(Ok(()))),
            Some(tc) => (
                LeaveState::AwaitingRevoke { user, text_channel: tc },
                LeaveAction::RevokeTextAccess { text_channel: tc, user },
            ),
        },
        (LeaveState::AwaitingRevoke { user, text_channel }, LeaveEvent::Completed(_)) => (
            LeaveState::AwaitingAnnounce,
            LeaveAction::AnnounceLeave { text_channel, user },
        ),
        (LeaveState::AwaitingAnnounce, LeaveEvent::Announced(outcome)) => match outcome {
            AnnounceOutcome::Sent => (LeaveState::Finished, LeaveAction::Finish(Ok(()))),
            AnnounceOutcome::UserUnavailable => (
                LeaveState::Finished,
                LeaveAction::Finish(Err(LeaveError::UserUnavailable)),
            ),
            AnnounceOutcome::SendFailed => (
                LeaveState::Finished,
                LeaveAction::Finish(Err(LeaveError::AnnounceFailed)),
            ),
        },
        _ => (LeaveState::Finished, LeaveAction::Finish(Err(LeaveError::OutOfOrder))),
    }
}

/// Starts handling `user_id` leaving the voice channel `voice_channel_id`, in which
/// `connected` users now are.
pub fn on_leave(connected: Option<u32>, voice_channel_id: u64, user_id: u64) -> (r: (LeaveState, LeaveAction))
    ensures
        r == leave_begin(connected, voice_channel_id, user_id),
{
    match connected {
        None => (LeaveState::Finished, LeaveAction::Finish(Err(LeaveError::UsersUnknown(voice_channel_id)))),
        Some(n) => if n == 0 {
            (LeaveState::AwaitingDestroy, LeaveAction::RunVoiceDestroy)
        } else {
            (LeaveState::AwaitingTextChannel { user: user_id }, LeaveAction::FindTextChannel)
        },
    }
}

impl LeaveState {
    /// The next state and action after `event` (see `leave_next`).
    pub fn next(self, event: LeaveEvent) -> (r: (LeaveState, LeaveAction))
        ensures
            r == leave_next(self, event),
    {
        match (self, event) {
            (LeaveState::AwaitingDestroy, LeaveEvent::Destroyed(r)) => match r {
                Ok(()) => (LeaveState::Finished, LeaveAction::Finish(Ok(()))),
                Err(e) => (LeaveState::Finished, LeaveAction::Finish(Err(LeaveError::Destroy(e)))),
            },
            (LeaveState::AwaitingTextChannel { user }, LeaveEvent::TextChannel(found)) => match found {
                None => (LeaveState::Finished, LeaveAction::Finish(Ok(()))),
                Some(tc) => (
                    LeaveState::AwaitingRevoke { user, text_channel: tc },
                    LeaveAction::RevokeTextAccess { text_channel: tc, user },
                ),
            },
            (LeaveState::AwaitingRevoke { user, text_channel }, LeaveEvent::Completed(_)) => (
                LeaveState::AwaitingAnnounce,
                LeaveAction::AnnounceLeave { text_channel, user },
            ),
            (LeaveState::AwaitingAnnounce, LeaveEvent::Announced(outcome)) => match outcome {
                AnnounceOutcome::Sent => (LeaveState::Finished, LeaveAction::Finish(Ok(()))),
                AnnounceOutcome::UserUnavailable => (
                    LeaveState::Finished,
                    LeaveAction::Finish(Err(LeaveError::UserUnavailable)),
                ),
                AnnounceOutcome::SendFailed => (
                    LeaveState::Finished,
                    LeaveAction::Finish(Err(LeaveError::AnnounceFailed)),
                ),
            },
            _ => (LeaveState::Finished, LeaveAction::Finish(Err(LeaveError::OutOfOrder))),
        }
    }
}

// ---------------------------------------------------------------------------
// Announcements
// ---------------------------------------------------------------------------

/// The name under which a user is announced: their nickname in the guild, or else
/// their user name.
pub fn display_name(nickname: Option<String>, user_name: String) -> (name: String)
    ensures
        name@ == match nickname {
            Some(n) => n@,
            None => user_name@,
        },
{
    match nickname {
        Some(n) => n,
        None => user_name,
    }
}

/// The title of the announcement that `name` joined (`joined`) or left:
/// "<name> - joined" or "<name> - left".
pub open spec fn join_leave_text(name: Seq<char>, joined: bool) -> Seq<char> {
    name + " - "@ + if joined {
        "joined"@
    } else {
        "left"@
    }
}

/// The title of the announcement that `name` joined (`joined`) or left.
pub fn join_leave_title(name: &str, joined: bool) -> (title: String)
    ensures
        title@ == join_leave_text(name@, joined),
{
    let mut title = String::new();
    push_str(&mut title, name);
    push_str(&mut title, " - ");
    if joined {
        push_str(&mut title, "joined");
    } else {
        push_str(&mut title, "left");
    }
    assert(Seq::<char>::empty() + name@ =~= name@);
    title
}

/// The colour of the report that a user could not be let into a text channel.
pub open spec fn report_colour() -> (u8, u8, u8) {
    (200u8, 50u8, 80u8)
}

/// The announcement in a text channel that the user named `name`, whose picture is
/// at `face`, joined (`joined`) or left: an author line with the title and the
/// picture, in Viav's colour, and nothing else.
pub fn announcement(name: &str, face: String, joined: bool) -> (e: Embed)
    ensures
        e.author matches Some(a) && a.name@ == join_leave_text(name@, joined) && a.icon_url
            == Some(face) && a.url is None,
        e.description is None,
        e.fields@.len() == 0,
        e.colour == embed_colour(),
{
    let title = join_leave_title(name, joined);
    let fields: Vec<EmbedField> = Vec::new();
    Embed {
        author: Some(EmbedAuthor { name: title, icon_url: Some(face), url: None }),
        description: None,
        fields,
        colour: (103, 58, 183),
    }
}

/// The report in a text channel that a user could not be let in: the failure
/// `description` in red, and nothing else.
pub fn access_failure_report(description: String) -> (e: Embed)
    ensures
        e.author is None,
        e.description == Some(description),
        e.fields@.len() == 0,
        e.colour == report_colour(),
{
    let fields: Vec<EmbedField> = Vec::new();
    Embed { author: None, description: Some(description), fields, colour: (200, 50, 80) }
}

// ---------------------------------------------------------------------------
// Error texts
// ---------------------------------------------------------------------------

/// The text of an error of the removal of a pair.
pub open spec fn destroy_error_text(e: DestroyError) -> Seq<char> {
    match e {
        DestroyError::TextChannelNotFound(v) => "Could not find text channel for voice channel: "@
            + decimal_text(v as nat),
        DestroyError::DeleteFailed => "delete text channel"@,
        DestroyError::OutOfOrder => "Unexpected answer"@,
    }
}

impl DestroyError {
    /// The text of the error (see `destroy_error_text`).
    pub fn message(&self) -> (text: String)
        ensures
            text@ == destroy_error_text(*self),
    {
        match self {
            DestroyError::TextChannelNotFound(v) => {
                let mut t = String::new();
                push_str(&mut t, "Could not find text channel for voice channel: ");
                push_decimal(&mut t, *v);
                assert(t@ =~= "Could not find text channel for voice channel: "@ + decimal_text(*v as nat));
                t
            },
            DestroyError::DeleteFailed => "delete text channel".to_owned(),
            DestroyError::OutOfOrder => "Unexpected answer".to_owned(),
        }
    }
}

/// The text that an error of a join adds of its own, or `None` where the error is
/// Discord's alone.
pub open spec fn join_error_text(e: JoinError) -> Option<Seq<char>> {
    match e {
        JoinError::UsersUnknown => Some("Could not get number of connected users"@),
        JoinError::Create(c) => voice_create_error_text(c),
        JoinError::UserUnavailable => None,
        JoinError::AnnounceFailed => Some("Join / leave message"@),
        JoinError::AccessFailed => None,
        JoinError::ReportFailed => Some("Join / leave message"@),
        JoinError::OutOfOrder => Some("Unexpected answer"@),
    }
}

impl JoinError {
    /// The text of the error (see `join_error_text`).
    pub fn message(&self) -> (text: Option<String>)
        ensures
            opt_view_string(text) == join_error_text(*self),
    {
        match self {
            JoinError::UsersUnknown => Some("Could not get number of connected users".to_owned()),
            JoinError::Create(c) => c.message(),
            JoinError::UserUnavailable => None,
            JoinError::AnnounceFailed => Some("Join / leave message".to_owned()),
            JoinError::AccessFailed => None,
            JoinError::ReportFailed => Some("Join / leave message".to_owned()),
            JoinError::OutOfOrder => Some("Unexpected answer".to_owned()),
        }
    }
}

/// The text that an error of a leave adds of its own, or `None` where the error is
/// Discord's alone.
pub open spec fn leave_error_text(e: LeaveError) -> Option<Seq<char>> {
    match e {
        LeaveError::UsersUnknown(v) => Some(
            "Could not get number of connected users for voice channel: "@ + decimal_text(v as nat),
        ),
        LeaveError::Destroy(d) => Some(destroy_error_text(d)),
        LeaveError::UserUnavailable => None,
        LeaveError::AnnounceFailed => Some("Join / leave message"@),
        LeaveError::OutOfOrder => Some("Unexpected answer"@),
    }
}

impl LeaveError {
    /// The text of the error (see `leave_error_text`).
    pub fn message(&self) -> (text: Option<String>)
        ensures
            opt_view_string(text) == leave_error_text(*self),
    {
        match self {
            LeaveError::UsersUnknown(v) => {
                let mut t = String::new();
                push_str(&mut t, "Could not get number of connected users for voice channel: ");
                push_decimal(&mut t, *v);
                assert(t@ =~= "Could not get number of connected users for voice channel: "@ + decimal_text(
                    *v as nat,
                ));
                Some(t)
            },
            LeaveError::Destroy(d) => Some(d.message()),
            LeaveError::UserUnavailable => None,
            LeaveError::AnnounceFailed => Some("Join / leave message".to_owned()),
            LeaveError::OutOfOrder => Some("Unexpected answer".to_owned()),
        }
    }
}

/// The first user to join an empty voice channel creates a pair and later users do
/// not; the last user to leave removes the pair and earlier leavers do not.
pub proof fn lemma_first_joins_create_last_leaves_destroy(n: u32, voice: u64, user: u64)
    ensures
        (join_begin(Some(n), user).1 == JoinAction::RunVoiceCreate) <==> n == 1,
        (leave_begin(Some(n), voice, user).1 == LeaveAction::RunVoiceDestroy) <==> n == 0,
{
}

/// A user who joins a channel with others is let into its text channel (once the
/// join is announced), with the right to read messages and nothing else.
pub proof fn lemma_joiner_may_read(user: u64, text_channel: u64)
    ensures
        join_next((JoinState::AwaitingAnnounce { user, text_channel }), JoinEvent::Announced(AnnounceOutcome::Sent)).1
            == (JoinAction::GrantTextAccess {
            text_channel,
            overwrite: (Overwrite { allow: 0x400u64, deny: 0u64, kind: OverwriteKind::Member(user) }),
        }),
{
}


/// A user who leaves a voice channel in which `n > 0` users remain: the pair's text
/// channel is looked for (none: nothing to do); the leaver's overwrite on it is
/// deleted, and whether that went through or not, the leave is then announced
/// there; the leave ends well exactly when the announcement was sent.
pub proof fn lemma_leave_flow(n: u32, voice: u64, user: u64, tc: u64, revoked: bool, outcome: AnnounceOutcome)
    requires
        n > 0,
    ensures
        leave_begin(Some(n), voice, user).1 == LeaveAction::FindTextChannel,
        leave_next(leave_begin(Some(n), voice, user).0, LeaveEvent::TextChannel(None)) == (
        LeaveState::Finished,
        LeaveAction::Finish(Ok::<(), LeaveError>(())),
        ),
        ({
            let s2 = leave_next(leave_begin(Some(n), voice, user).0, LeaveEvent::TextChannel(Some(tc)));
            let s3 = leave_next(s2.0, LeaveEvent::Completed(revoked));
            let s4 = leave_next(s3.0, LeaveEvent::Announced(outcome));
            &&& s2.1 == (LeaveAction::RevokeTextAccess { text_channel: tc, user })
            &&& s3 == (LeaveState::AwaitingAnnounce, LeaveAction::AnnounceLeave { text_channel: tc, user })
            &&& s4 == (LeaveState::Finished, match outcome {
                AnnounceOutcome::Sent => LeaveAction::Finish(Ok::<(), LeaveError>(())),
                AnnounceOutcome::UserUnavailable => LeaveAction::Finish(
                    Err::<(), LeaveError>(LeaveError::UserUnavailable),
                ),
                AnnounceOutcome::SendFailed => LeaveAction::Finish(Err::<(), LeaveError>(LeaveError::AnnounceFailed)),
            })
        }),
{
}

/// The revoke's outcome never decides whether a leave is announced.
pub proof fn lemma_leave_announced_whatever_revoke(user: u64, text_channel: u64, revoked: bool)
    ensures
        leave_next(LeaveState::AwaitingRevoke { user, text_channel }, LeaveEvent::Completed(revoked)) == (
        LeaveState::AwaitingAnnounce,
        LeaveAction::AnnounceLeave { text_channel, user },
        ),
{
}

/// The last user to leave (`0` remain) removes the pair: the text channel of the
/// voice channel is looked for and deleted, and the leave ends as that removal did;
/// without a text channel the removal fails naming the voice channel. When the
/// number of users cannot be had the leave fails naming the voice channel.
pub proof fn lemma_last_leave_flow(voice: u64, user: u64, tc: u64, deleted: bool, removal: Result<(), DestroyError>)
    ensures
        leave_begin(None, voice, user) == (
        LeaveState::Finished,
        LeaveAction::Finish(Err::<(), LeaveError>(LeaveError::UsersUnknown(voice))),
        ),
        leave_begin(Some(0), voice, user).1 == LeaveAction::RunVoiceDestroy,
        leave_next(leave_begin(Some(0), voice, user).0, LeaveEvent::Destroyed(removal)) == (
        LeaveState::Finished,
        LeaveAction::Finish(match removal {
            Ok(()) => Ok::<(), LeaveError>(()),
            Err(e) => Err::<(), LeaveError>(LeaveError::Destroy(e)),
        }),
        ),
        destroy_next(DestroyState::AwaitingTextChannel { voice_channel: voice }, DestroyEvent::TextChannel(None)) == (
        DestroyState::Finished,
        DestroyAction::Finish(Err::<(), DestroyError>(DestroyError::TextChannelNotFound(voice))),
        ),
        ({
            let s1 = destroy_next(
                DestroyState::AwaitingTextChannel { voice_channel: voice },
                DestroyEvent::TextChannel(Some(tc)),
            );
            &&& s1.1 == (DestroyAction::DeleteChannel { channel_id: tc })
            &&& destroy_next(s1.0, DestroyEvent::Completed(deleted)) == (DestroyState::Finished, if deleted {
                DestroyAction::Finish(Ok::<(), DestroyError>(()))
            } else {
                DestroyAction::Finish(Err::<(), DestroyError>(DestroyError::DeleteFailed))
            })
        }),
{
}

/// A user who joins a voice channel in which `n != 1` users now are: the pair's
/// text channel is looked for (none: nothing to do); the join is announced there;
/// once announced, the user gets an overwrite that lets them read messages and
/// denies nothing; if that fails, the failure is reported in the text channel and
/// the join fails. A failed announcement fails the join without letting the user in.
pub proof fn lemma_join_flow(n: u32, user: u64, tc: u64, outcome: AnnounceOutcome, reported: bool)
    requires
        n != 1,
    ensures
        join_begin(Some(n), user).1 == JoinAction::FindTextChannel,
        join_next(join_begin(Some(n), user).0, JoinEvent::TextChannel(None)) == (
        JoinState::Finished,
        JoinAction::Finish(Ok::<(), JoinError>(())),
        ),
        ({
            let s2 = join_next(join_begin(Some(n), user).0, JoinEvent::TextChannel(Some(tc)));
            let s3 = join_next(s2.0, JoinEvent::Announced(outcome));
            let granted = join_next(s3.0, JoinEvent::Completed(true));
            let refused = join_next(s3.0, JoinEvent::Completed(false));
            let after_report = join_next(refused.0, JoinEvent::Completed(reported));
            &&& s2.1 == (JoinAction::AnnounceJoin { text_channel: tc, user })
            &&& match outcome {
                AnnounceOutcome::Sent => {
                    &&& s3.1 == (JoinAction::GrantTextAccess {
                        text_channel: tc,
                        overwrite: Overwrite { allow: 0x400u64, deny: 0u64, kind: OverwriteKind::Member(user) },
                    })
                    &&& granted == (JoinState::Finished, JoinAction::Finish(Ok::<(), JoinError>(())))
                    &&& refused.1 == (JoinAction::ReportAccessFailure { text_channel: tc })
                    &&& after_report == (JoinState::Finished, JoinAction::Finish(Err::<(), JoinError>(
                        if reported {
                            JoinError::AccessFailed
                        } else {
                            JoinError::ReportFailed
                        },
                    )))
                },
                AnnounceOutcome::UserUnavailable => s3 == (
                    JoinState::Finished,
                    JoinAction::Finish(Err::<(), JoinError>(JoinError::UserUnavailable)),
                ),
                AnnounceOutcome::SendFailed => s3 == (
                    JoinState::Finished,
                    JoinAction::Finish(Err::<(), JoinError>(JoinError::AnnounceFailed)),
                ),
            }
        }),
{
}

/// The first user to join (`1` is now there) creates a pair, and the join ends as
/// the creation did; when the number of users cannot be had the join fails.
pub proof fn lemma_first_join_flow(user: u64, created: Result<(), VoiceCreateError>)
    ensures
        join_begin(None, user) == (JoinState::Finished, JoinAction::Finish(Err::<(), JoinError>(JoinError::UsersUnknown))),
        join_begin(Some(1), user).1 == JoinAction::RunVoiceCreate,
        join_next(join_begin(Some(1), user).0, JoinEvent::Created(created)) == (
        JoinState::Finished,
        JoinAction::Finish(match created {
            Ok(()) => Ok::<(), JoinError>(()),
            Err(e) => Err::<(), JoinError>(JoinError::Create(e)),
        }),
        ),
{
}

} // verus!
