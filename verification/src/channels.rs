//! Finding the channels of a pair, counting the users in a voice channel, and
//! deciding who may change a pair of channels.
use vstd::prelude::*;
use crate::permissions::allows_manage_channels;
use crate::text::{parse_u64, parse_u64_text, split, split_on, views};
use crate::topic::{opt_str_view, opt_view, TopicData};

verus! {

/// The user who may change every pair of channels.
pub const MASTER_USER: u64 = 222554302793646083u64;

/// The second piece of a topic, between its first and second `&`, read as a number:
/// the voice channel that a text channel belongs to.
pub open spec fn topic_voice_field(s: Seq<char>) -> Option<u64> {
    let p = split_on(s, '&');
    if p.len() < 2 {
        None
    } else {
        parse_u64_text(p[1])
    }
}

/// The third piece of a topic read as a number: the owner of the pair.
pub open spec fn topic_owner_field(s: Seq<char>) -> Option<u64> {
    let p = split_on(s, '&');
    if p.len() < 3 {
        None
    } else {
        parse_u64_text(p[2])
    }
}

/// The voice channel that a text channel with topic `topic` belongs to: the second
/// piece of the topic, when it is a number other than 0.
pub open spec fn linked_voice_channel(topic: Option<Seq<char>>) -> Option<u64> {
    match topic {
        None => None,
        Some(s) => match topic_voice_field(s) {
            Some(v) => if v != 0 {
                Some(v)
            } else {
                None
            },
            None => None,
        },
    }
}

fn voice_field(s: &str) -> (r: Option<u64>)
    ensures
        r == topic_voice_field(s@),
{
    let pieces = split(s, '&');
    proof {
        assert(views(pieces@).len() == pieces@.len());
    }
    if pieces.len() < 2 {
        return None;
    }
    proof {
        assert(views(pieces@)[1] == pieces@[1]@);
    }
    parse_u64(pieces[1].as_slice())
}

/// Given the topic of a text channel, the voice channel it belongs to.
pub fn text_to_voice(topic: Option<&str>) -> (r: Option<u64>)
    ensures
        r == linked_voice_channel(opt_str_view(topic)),
{
    match topic {
        None => None,
        Some(s) => match voice_field(s) {
            Some(v) => if v != 0 {
                Some(v)
            } else {
                None
            },
            None => None,
        },
    }
}

/// A channel of a guild, with its topic if it has one.
pub struct ChannelTopic {
    pub id: u64,
    pub topic: Option<String>,
}

/// Whether a channel with topic `topic` is the text channel of voice channel `voice`.
pub open spec fn is_text_channel_of(topic: Option<Seq<char>>, voice: u64) -> bool {
    match topic {
        None => false,
        Some(s) => topic_voice_field(s) == Some(voice),
    }
}

/// Given the channels of a guild and a voice channel, the first channel in that
/// order whose topic names the voice channel: the text channel of the pair.
pub fn voice_to_text(channels: &Vec<ChannelTopic>, voice_channel: u64) -> (r: Option<u64>)
    ensures
        r matches Some(id) ==> exists|i: int|
            0 <= i < channels@.len() && channels@[i].id == id && is_text_channel_of(
                opt_view(channels@[i].topic),
                voice_channel,
            ) && forall|j: int|
                0 <= j < i ==> !is_text_channel_of(
                    opt_view(#[trigger] channels@[j].topic),
                    voice_channel,
                ),
        r is None ==> forall|i: int|
            0 <= i < channels@.len() ==> !is_text_channel_of(
                opt_view(#[trigger] channels@[i].topic),
                voice_channel,
            ),
{
    let n = channels.len();
    let mut i: usize = 0;
    while i < n
        invariant
            n == channels@.len(),
            i <= n,
            forall|j: int|
                0 <= j < i ==> !is_text_channel_of(
                    opt_view(#[trigger] channels@[j].topic),
                    voice_channel,
                ),
        decreases n - i,
    {
        let channel = &channels[i];
        match &channel.topic {
            Some(topic) => {
                if voice_field(topic.as_str()) == Some(voice_channel) {
                    return Some(channel.id);
                }
            },
            None => {},
        }
        i = i + 1;
    }
    None
}

/// The number of voice states in `states` that are in channel `channel`.
pub open spec fn users_in(states: Seq<Option<u64>>, channel: u64) -> nat
    decreases states.len(),
{
    if states.len() == 0 {
        0
    } else {
        users_in(states.drop_last(), channel) + if states.last() == Some(channel) {
            1nat
        } else {
            0nat
        }
    }
}

proof fn lemma_users_in_bound(states: Seq<Option<u64>>, channel: u64)
    ensures
        users_in(states, channel) <= states.len(),
    decreases states.len(),
{
    if states.len() > 0 {
        lemma_users_in_bound(states.drop_last(), channel);
    }
}

/// Given the channels of a guild's voice states (`None` when the guild is not in
/// the cache), the number of users connected to voice channel `voice_channel`.
pub fn number_of_connected_users(guild_voice_states: Option<&Vec<Option<u64>>>, voice_channel: u64) -> (r: Option<u32>)
    requires
        guild_voice_states matches Some(states) ==> states@.len() <= u32::MAX,
    ensures
        match guild_voice_states {
            None => r is None,
            Some(states) => r == Some(users_in(states@, voice_channel) as u32),
        },
{
    let states = match guild_voice_states {
        None => return None,
        Some(states) => states,
    };
    let n = states.len();
    let mut count: u32 = 0;
    let mut i: usize = 0;
    while i < n
        invariant
            n == states@.len(),
            n <= u32::MAX,
            i <= n,
            count == users_in(states@.take(i as int), voice_channel),
        decreases n - i,
    {
        proof {
            assert(states@.take(i + 1).drop_last() =~= states@.take(i as int));
            lemma_users_in_bound(states@.take(i as int), voice_channel);
        }
        if states[i] == Some(voice_channel) {
            count = count + 1;
        }
        i = i + 1;
    }
    assert(states@.take(n as int) =~= states@);
    Some(count)
}

/// Whether `user` may change the pair of channels described by `topic`: its owner
/// and the master user may; anyone else may if the permissions that the user holds
/// in the text channel (`None` when they could not be looked up) allow managing
/// channels.
pub open spec fn may_manage(user: u64, topic: TopicData, permissions: Option<u64>) -> bool {
    ||| topic.owner == user
    ||| user == MASTER_USER
    ||| (permissions matches Some(p) && p & 0x10u64 == 0x10u64)
}

/// Checks whether a user is allowed to change the pair of channels of `topic`.
pub fn is_user_perms(user_id: u64, topic: &TopicData, permissions: Option<u64>) -> (allowed: bool)
    ensures
        allowed == may_manage(user_id, *topic, permissions),
{
    if topic.owner == user_id || MASTER_USER == user_id {
        return true;
    }
    match permissions {
        Some(p) => allows_manage_channels(p),
        None => false,
    }
}

/// The owner of a pair of channels as the controls command reads it from the topic
/// of the text channel: the third piece, read as a number.
pub fn controls_owner(topic: Option<&str>) -> (r: Option<u64>)
    ensures
        r == match opt_str_view(topic) {
            None => None,
            Some(s) => topic_owner_field(s),
        },
{
    let s = match topic {
        None => return None,
        Some(s) => s,
    };
    let pieces = split(s, '&');
    proof {
        assert(views(pieces@).len() == pieces@.len());
    }
    if pieces.len() < 3 {
        return None;
    }
    proof {
        assert(views(pieces@)[2] == pieces@[2]@);
    }
    parse_u64(pieces[2].as_slice())
}

} // verus!
