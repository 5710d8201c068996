//! The control deck: the message in a text channel whose reactions lock, hide and
//! mark the channels, and the steps that turn a reaction into an operation.
use vstd::prelude::*;
use vstd::string::*;
use crate::channels::{may_manage, MASTER_USER};
use crate::operation::{
    opt_view_string, reaction_error_text, reaction_operation, Operation, ReactionEmoji, ReactionError,
};
use crate::text::{decimal_text, push_decimal, push_str};
use crate::topic::{opt_view, parse_channel_topic, topic_error_text, TopicData, TopicError};
use crate::content::{embed_colour, Embed, EmbedAuthor, EmbedField};

verus! {

broadcast use vstd::string::group_string_axioms;

/// A custom emoji that the deck offers as a reaction.
pub struct DeckEmoji {
    pub id: u64,
    pub name: String,
}

/// The deck message: an embed and the reactions put under it.
pub struct Deck {
    pub embed: Embed,
    pub reactions: Vec<DeckEmoji>,
}

/// The ids of the deck's custom emojis, in the order of `deck_emoji_names`.
pub open spec fn deck_emoji_ids() -> Seq<u64> {
    seq![684471911920566281u64, 684471928739725376u64, 684470685430448128u64]
}

/// How the deck names the owner: a mention of the user.
pub open spec fn mention_text(user: u64) -> Seq<char> {
    "<@"@ + decimal_text(user as nat) + ">"@
}

fn deck_emoji(id: u64, name: &str) -> (e: DeckEmoji)
    ensures
        e.id == id,
        e.name@ == name@,
{
    DeckEmoji { id, name: name.to_owned() }
}

/// Whether `deck` is the deck of a pair of channels named `name` and owned by `user`:
/// an embed with Viav's author line under that name, one inline field "Channel Owner"
/// that mentions the owner, Viav's colour, and the three reactions of the deck.
pub open spec fn is_deck_of(deck: Deck, name: Seq<char>, user: u64) -> bool {
    &&& deck.embed.author matches Some(a) && crate::content::is_viav_author(a, name)
    &&& deck.embed.description is None
    &&& deck.embed.fields@.len() == 1
    &&& deck.embed.fields@[0].name@ == "Channel Owner"@
    &&& deck.embed.fields@[0].value@ == mention_text(user)
    &&& deck.embed.fields@[0].inline
    &&& deck.embed.colour == embed_colour()
    &&& deck.reactions@.len() == 3
    &&& forall|i: int|
        0 <= i < 3 ==> (#[trigger] deck.reactions@[i]).id == deck_emoji_ids()[i]
            && deck.reactions@[i].name@ == crate::operation::deck_emoji_names()[i]
}

/// The deck of a pair of channels named `deck_name` and owned by `user_id`.
pub fn create_deck(deck_name: String, user_id: u64) -> (deck: Deck)
    ensures
        is_deck_of(deck, deck_name@, user_id),
{
    let author = EmbedAuthor::viav(deck_name);
    let mut mention = String::new();
    push_str(&mut mention, "<@");
    push_decimal(&mut mention, user_id);
    push_str(&mut mention, ">");
    assert(mention@ =~= mention_text(user_id));
    let mut fields: Vec<EmbedField> = Vec::new();
    fields.push(EmbedField { name: "Channel Owner".to_owned(), value: mention, inline: true });
    let embed = Embed { author: Some(author), description: None, fields, colour: embed_colour_value() };
    let mut reactions: Vec<DeckEmoji> = Vec::new();
    reactions.push(deck_emoji(684471911920566281, "lock"));
    reactions.push(deck_emoji(684471928739725376, "eye"));
    reactions.push(deck_emoji(684470685430448128, "alert"));
    Deck { embed, reactions }
}

fn embed_colour_value() -> (c: (u8, u8, u8))
    ensures
        c == embed_colour(),
{
    (103, 58, 183)
}

/// Every reaction of the deck names an operation: adding `lock`, `eye` or `alert`
/// locks, hides or marks the channels NSFW, and removing it undoes that.
pub proof fn lemma_deck_reactions_name_operations(i: int, is_add: bool)
    requires
        0 <= i < 3,
    ensures
        crate::operation::operation_for_emoji(crate::operation::deck_emoji_names()[i], is_add)
            == if i == 0 {
            Some(Operation::Lock(is_add))
        } else if i == 1 {
            Some(Operation::Hide(is_add))
        } else {
            Some(Operation::NSFW(is_add))
        },
{
    reveal_strlit("lock");
    reveal_strlit("eye");
    reveal_strlit("alert");
    assert("eye"@.len() != "lock"@.len());
    assert("alert"@.len() != "lock"@.len());
    assert("alert"@.len() != "eye"@.len());
    let names = crate::operation::deck_emoji_names();
    if i == 0 {
        assert(names[i] == "lock"@);
    } else if i == 1 {
        assert(names[i] == "eye"@);
    } else {
        assert(names[i] == "alert"@);
    }
}

/// Removing a deck reaction asks for the opposite of adding it: the emoji of each of
/// the deck's reactions gives, added and removed, the same operation (lock, hide or
/// NSFW) with `true` and `false`.
pub proof fn lemma_deck_reaction_undoes_itself(emoji: ReactionEmoji, i: int)
    requires
        0 <= i < 3,
        emoji matches ReactionEmoji::Custom { name: Some(n) } && n@ == crate::operation::deck_emoji_names()[i],
    ensures
        i == 0 ==> reaction_operation(emoji, true) == Ok::<Operation, ReactionError>(Operation::Lock(true))
            && reaction_operation(emoji, false) == Ok::<Operation, ReactionError>(Operation::Lock(false)),
        i == 1 ==> reaction_operation(emoji, true) == Ok::<Operation, ReactionError>(Operation::Hide(true))
            && reaction_operation(emoji, false) == Ok::<Operation, ReactionError>(Operation::Hide(false)),
        i == 2 ==> reaction_operation(emoji, true) == Ok::<Operation, ReactionError>(Operation::NSFW(true))
            && reaction_operation(emoji, false) == Ok::<Operation, ReactionError>(Operation::NSFW(false)),
{
    lemma_deck_reactions_name_operations(i, true);
    lemma_deck_reactions_name_operations(i, false);
}

// ---------------------------------------------------------------------------
// Reacting on the deck
// ---------------------------------------------------------------------------

/// Why a reaction on the deck was not turned into an operation.
#[derive(Clone, Copy, Debug, PartialEq, Eq)]
pub enum DeckError {
    /// The reacting user could not be fetched.
    UserUnavailable,
    /// The channel of the reaction could not be fetched.
    ChannelUnavailable,
    /// The channel of the reaction is not a guild channel.
    NotGuildChannel,
    /// The channel's topic could not be read.
    Topic(TopicError),
    /// The user's permissions in the channel could not be looked up.
    PermissionsUnavailable,
    /// The reaction names no operation.
    Reaction(ReactionError),
    /// An answer came that the step did not ask for.
    OutOfOrder,
}

/// The text that a deck error adds of its own, or `None` where the error is
/// Discord's alone.
pub open spec fn deck_error_text(e: DeckError) -> Option<Seq<char>> {
    match e {
        DeckError::UserUnavailable => None,
        DeckError::ChannelUnavailable => None,
        DeckError::NotGuildChannel => Some("Get text channel of reaction"@),
        DeckError::Topic(t) => Some(topic_error_text(t)),
        DeckError::PermissionsUnavailable => None,
        DeckError::Reaction(r) => Some(reaction_error_text(r)),
        DeckError::OutOfOrder => Some("Unexpected answer"@),
    }
}

impl DeckError {
    /// The text of the error (see `deck_error_text`).
    pub fn message(&self) -> (text: Option<String>)
        ensures
            opt_view_string(text) == deck_error_text(*self),
    {
        match self {
            DeckError::UserUnavailable => None,
            DeckError::ChannelUnavailable => None,
            DeckError::NotGuildChannel => Some("Get text channel of reaction".to_owned()),
            DeckError::Topic(t) => Some(t.message()),
            DeckError::PermissionsUnavailable => None,
            DeckError::Reaction(r) => Some(r.message()),
            DeckError::OutOfOrder => Some("Unexpected answer".to_owned()),
        }
    }
}

/// Where the handling of a deck reaction stands.
#[derive(Clone, Copy, Debug, PartialEq, Eq)]
pub enum DeckState {
    AwaitingUser { op: Result<Operation, ReactionError> },
    AwaitingChannel { op: Result<Operation, ReactionError>, user: u64 },
    AwaitingPermissions { op: Result<Operation, ReactionError>, user: u64, topic: TopicData },
    Finished,
}

/// The user who reacted.
#[derive(Clone, Copy, Debug, PartialEq, Eq)]
pub struct ReactingUser {
    pub id: u64,
    pub bot: bool,
}

/// The answers to the actions.
pub enum DeckEvent {
    /// The reacting user, or `None` if they could not be fetched.
    User(Option<ReactingUser>),
    /// The topic of the reaction's channel, or `None` if the channel could not be fetched.
    TextChannel(Option<Option<String>>),
    /// The reaction's channel was fetched but is not a guild channel.
    ChannelNotGuild,
    /// The user's permission bits in the channel, or `None` if they could not be looked up.
    Permissions(Option<u64>),
}

/// What to do next.
#[derive(Clone, Copy, Debug, PartialEq, Eq)]
pub enum DeckAction {
    FetchUser,
    FetchTextChannel,
    LookUpPermissions { user: u64 },
    /// Stop: carry out the operation (for the user who reacted), or nothing, or fail.
    Finish(Result<Option<Operation>, DeckError>),
}

/// The first step of handling a reaction: the operation it names is settled now and
/// reported only once the user is known to be allowed.
pub open spec fn deck_begin(emoji: ReactionEmoji, is_add: bool) -> (DeckState, DeckAction) {
    (DeckState::AwaitingUser { op: reaction_operation(emoji, is_add) }, DeckAction::FetchUser)
}

/// The step after `event`. Bots are ignored; the topic must be readable; the
/// permissions must be had; the owner, the master user and users who may manage
/// channels get the operation; anyone else gets nothing.
pub open spec fn deck_next(state: DeckState, event: DeckEvent) -> (DeckState, DeckAction) {
    match (state, event) {
        (DeckState::AwaitingUser { .. }, DeckEvent::User(None)) => (
            DeckState::Finished,
            DeckAction::Finish(Err(DeckError::UserUnavailable)),
        ),
        (DeckState::AwaitingUser { op }, DeckEvent::User(Some(u))) => {
            if u.bot {
                (DeckState::Finished, DeckAction::Finish(Ok(None)))
            } else {
                (DeckState::AwaitingChannel { op, user: u.id }, DeckAction::FetchTextChannel)
            }
        },
        (DeckState::AwaitingChannel { .. }, DeckEvent::TextChannel(None)) => (
            DeckState::Finished,
            DeckAction::Finish(Err(DeckError::ChannelUnavailable)),
        ),
        (DeckState::AwaitingChannel { .. }, DeckEvent::ChannelNotGuild) => (
            DeckState::Finished,
            DeckAction::Finish(Err(DeckError::NotGuildChannel)),
        ),
        (DeckState::AwaitingChannel { op, user }, DeckEvent::TextChannel(Some(topic))) => {
            match parse_channel_topic(opt_view(topic)) {
                Err(e) => (DeckState::Finished, DeckAction::Finish(Err(DeckError::Topic(e)))),
                Ok(t) => (
                    DeckState::AwaitingPermissions { op, user, topic: t },
                    DeckAction::LookUpPermissions { user },
                ),
            }
        },
        (DeckState::AwaitingPermissions { .. }, DeckEvent::Permissions(None)) => (
            DeckState::Finished,
            DeckAction::Finish(Err(DeckError::PermissionsUnavailable)),
        ),
        (DeckState::AwaitingPermissions { op, user, topic }, DeckEvent::Permissions(Some(bits))) => {
            if !may_manage(user, topic, Some(bits)) {
                (DeckState::Finished, DeckAction::Finish(Ok(None)))
            } else {
                match op {
                    Err(e) => (DeckState::Finished, DeckAction::Finish(Err(DeckError::Reaction(e)))),
                    Ok(o) => (DeckState::Finished, DeckAction::Finish(Ok(Some(o)))),
                }
            }
        },
        _ => (DeckState::Finished, DeckAction::Finish(Err(DeckError::OutOfOrder))),
    }
}

/// Starts handling a reaction added (`is_add`) or removed on a deck.
pub fn on_deck_reaction(emoji: &ReactionEmoji, is_add: bool) -> (r: (DeckState, DeckAction))
    ensures
        r == deck_begin(*emoji, is_add),
{
    (DeckState::AwaitingUser { op: Operation::try_from((emoji, is_add)) }, DeckAction::FetchUser)
}

impl DeckState {
    /// The next state and action after `event` (see `deck_next`).
    pub fn next(self, event: DeckEvent) -> (r: (DeckState, DeckAction))
        ensures
            r == deck_next(self, event),
    {
        match (self, event) {
            (DeckState::AwaitingUser { .. }, DeckEvent::User(None)) => (
                DeckState::Finished,
                DeckAction::Finish(Err(DeckError::UserUnavailable)),
            ),
            (DeckState::AwaitingUser { op }, DeckEvent::User(Some(u))) => {
                if u.bot {
                    (DeckState::Finished, DeckAction::Finish(Ok(None)))
                } else {
                    (DeckState::AwaitingChannel { op, user: u.id }, DeckAction::FetchTextChannel)
                }
            },
            (DeckState::AwaitingChannel { .. }, DeckEvent::TextChannel(None)) => (
                DeckState::Finished,
                DeckAction::Finish(Err(DeckError::ChannelUnavailable)),
            ),
            (DeckState::AwaitingChannel { .. }, DeckEvent::ChannelNotGuild) => (
                DeckState::Finished,
                DeckAction::Finish(Err(DeckError::NotGuildChannel)),
            ),
            (DeckState::AwaitingChannel { op, user }, DeckEvent::TextChannel(Some(topic))) => {
                let parsed = match &topic {
                    None => TopicData::try_from(None),
                    Some(s) => TopicData::try_from(Some(s.as_str())),
                };
                match parsed {
                    Err(e) => (DeckState::Finished, DeckAction::Finish(Err(DeckError::Topic(e)))),
                    Ok(t) => (
                        DeckState::AwaitingPermissions { op, user, topic: t },
                        DeckAction::LookUpPermissions { user },
                    ),
                }
            },
            (DeckState::AwaitingPermissions { .. }, DeckEvent::Permissions(None)) => (
                DeckState::Finished,
                DeckAction::Finish(Err(DeckError::PermissionsUnavailable)),
            ),
            (DeckState::AwaitingPermissions { op, user, topic }, DeckEvent::Permissions(Some(bits))) => {
                if !crate::channels::is_user_perms(user, &topic, Some(bits)) {
                    (DeckState::Finished, DeckAction::Finish(Ok(None)))
                } else {
                    match op {
                        Err(e) => (DeckState::Finished, DeckAction::Finish(Err(DeckError::Reaction(e)))),
                        Ok(o) => (DeckState::Finished, DeckAction::Finish(Ok(Some(o)))),
                    }
                }
            },
            _ => (DeckState::Finished, DeckAction::Finish(Err(DeckError::OutOfOrder))),
        }
    }
}


// ---------------------------------------------------------------------------
// Who may use the deck
// ---------------------------------------------------------------------------

/// What the deck answers once the reacting user's permission bits `bits` in the
/// text channel of the pair `topic` are had: the reaction of the owner of the pair,
/// of the master user, or of a user whose permissions include managing channels
/// (0x10) gives its operation (or why it names none); anyone else's changes nothing.
pub proof fn lemma_deck_permissions_decide(
    op: Result<Operation, ReactionError>,
    user: u64,
    topic: TopicData,
    bits: u64,
)
    ensures
        deck_next(DeckState::AwaitingPermissions { op, user, topic }, DeckEvent::Permissions(Some(bits))) == (
        DeckState::Finished,
        if topic.owner == user || user == MASTER_USER || bits & 0x10u64 == 0x10u64 {
            match op {
                Ok(o) => DeckAction::Finish(Ok::<Option<Operation>, DeckError>(Some(o))),
                Err(e) => DeckAction::Finish(Err::<Option<Operation>, DeckError>(DeckError::Reaction(e))),
            }
        } else {
            DeckAction::Finish(Ok::<Option<Operation>, DeckError>(None))
        },
        ),
{
}

/// A whole deck reaction: a custom emoji named `name`, added (`is_add`) or removed by
/// a user who is not a bot, on a text channel whose topic reads as `t`. The user is
/// fetched, then the channel, then the user's permissions; then `lock`, `eye` and
/// `alert` lock/unlock, hide/unhide and mark/unmark NSFW (the flag is `is_add`) when
/// the user is the owner, the master user or may manage channels, and nothing
/// changes otherwise. A bot's reaction changes nothing.
pub proof fn lemma_deck_reaction_flow(
    name: String,
    is_add: bool,
    user: u64,
    bot_user: u64,
    topic: String,
    t: TopicData,
    bits: u64,
)
    requires
        parse_channel_topic(Some(topic@)) == Ok::<TopicData, TopicError>(t),
    ensures
        deck_begin(ReactionEmoji::Custom { name: Some(name) }, is_add).1 == DeckAction::FetchUser,
        deck_next(
            deck_begin(ReactionEmoji::Custom { name: Some(name) }, is_add).0,
            DeckEvent::User(Some(ReactingUser { id: bot_user, bot: true })),
        ) == (DeckState::Finished, DeckAction::Finish(Ok::<Option<Operation>, DeckError>(None))),
        ({
            let s1 = deck_next(
                deck_begin(ReactionEmoji::Custom { name: Some(name) }, is_add).0,
                DeckEvent::User(Some(ReactingUser { id: user, bot: false })),
            );
            let s2 = deck_next(s1.0, DeckEvent::TextChannel(Some(Some(topic))));
            let s3 = deck_next(s2.0, DeckEvent::Permissions(Some(bits)));
            &&& s1.1 == DeckAction::FetchTextChannel
            &&& s2.1 == (DeckAction::LookUpPermissions { user })
            &&& s3.0 == DeckState::Finished
            &&& s3.1 == if t.owner == user || user == MASTER_USER || bits & 0x10u64 == 0x10u64 {
                if name@ == "lock"@ {
                    DeckAction::Finish(Ok::<Option<Operation>, DeckError>(Some(Operation::Lock(is_add))))
                } else if name@ == "eye"@ {
                    DeckAction::Finish(Ok::<Option<Operation>, DeckError>(Some(Operation::Hide(is_add))))
                } else if name@ == "alert"@ {
                    DeckAction::Finish(Ok::<Option<Operation>, DeckError>(Some(Operation::NSFW(is_add))))
                } else {
                    DeckAction::Finish(
                        Err::<Option<Operation>, DeckError>(DeckError::Reaction(ReactionError::UnknownName)),
                    )
                }
            } else {
                DeckAction::Finish(Ok::<Option<Operation>, DeckError>(None))
            }
        }),
{
}

} // verus!
