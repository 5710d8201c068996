//! The data that a Viav text channel keeps in its topic: the voice channel it belongs
//! to, the user who owns it, and the permissions that `@everyone` had on the voice
//! channel before Viav changed them. The topic holds them as `&voice&owner&allow&deny`
//! after a free-form prefix.
use vstd::prelude::*;
use vstd::string::*;
use crate::permissions::{known_permission_bits, truncate_permission_bits};
use crate::text::{
    decimal_text, lemma_decimal_text, lemma_parse_decimal_text, lemma_split_five,
    parse_u64_detailed, parse_u64_failure, parse_u64_text, ParseIntKind, push_char, push_decimal, push_str, split, split_on, views,
};

verus! {

broadcast use vstd::string::group_string_axioms;

/// The fields of a topic, in the order in which they are written.
#[derive(Clone, Copy, Debug, PartialEq, Eq)]
pub enum TopicField {
    VoiceChannel,
    Owner,
    Allow,
    Deny,
}

/// Why a channel topic could not be read.
#[derive(Clone, Copy, Debug, PartialEq, Eq)]
pub enum TopicError {
    /// The channel has no topic.
    NoTopic,
    /// The topic ends before this field.
    Missing(TopicField),
    /// This field is not an unsigned decimal number that fits in 64 bits, for
    /// this reason.
    NotANumber(TopicField, ParseIntKind),
}

/// The name of a topic field, as the error of a missing field gives it.
pub open spec fn field_name_text(field: TopicField) -> Seq<char> {
    match field {
        TopicField::VoiceChannel => "Voice Channel"@,
        TopicField::Owner => "Owner"@,
        TopicField::Allow => "Allow"@,
        TopicField::Deny => "Deny"@,
    }
}

/// The text of std's `ParseIntError` of each kind.
pub open spec fn parse_int_error_text(kind: ParseIntKind) -> Seq<char> {
    match kind {
        ParseIntKind::Empty => "cannot parse integer from empty string"@,
        ParseIntKind::InvalidDigit => "invalid digit found in string"@,
        ParseIntKind::PosOverflow => "number too large to fit in target type"@,
    }
}

/// The text of a topic error: "No topic in channel" when there is no topic, the
/// field's name when the topic ends before it, and std's text of the number's
/// parse error otherwise.
pub open spec fn topic_error_text(e: TopicError) -> Seq<char> {
    match e {
        TopicError::NoTopic => "No topic in channel"@,
        TopicError::Missing(field) => field_name_text(field),
        TopicError::NotANumber(_, kind) => parse_int_error_text(kind),
    }
}

impl TopicError {
    /// The text of the error, as a user reads it.
    pub fn message(&self) -> (text: String)
        ensures
            text@ == topic_error_text(*self),
    {
        let t: &str = match self {
            TopicError::NoTopic => "No topic in channel",
            TopicError::Missing(field) => field_name(*field),
            TopicError::NotANumber(_, ParseIntKind::Empty) => "cannot parse integer from empty string",
            TopicError::NotANumber(_, ParseIntKind::InvalidDigit) => "invalid digit found in string",
            TopicError::NotANumber(_, ParseIntKind::PosOverflow) => "number too large to fit in target type",
        };
        t.to_owned()
    }
}

fn field_name(field: TopicField) -> (name: &'static str)
    ensures
        name@ == field_name_text(field),
{
    match field {
        TopicField::VoiceChannel => "Voice Channel",
        TopicField::Owner => "Owner",
        TopicField::Allow => "Allow",
        TopicField::Deny => "Deny",
    }
}

/// What a Viav text channel records about its voice channel.
#[derive(Clone, Copy, Debug, PartialEq, Eq)]
pub struct TopicData {
    /// The id of the voice channel.
    pub voice_channel: u64,
    /// The id of the user who owns the pair of channels.
    pub owner: u64,
    /// The permission bits that `@everyone` was allowed on the voice channel.
    pub allow: u64,
    /// The permission bits that `@everyone` was denied on the voice channel.
    pub deny: u64,
}

impl TopicData {
    /// Both permission sets hold only flags that serenity knows, as every set that
    /// serenity hands out does.
    pub open spec fn wf(self) -> bool {
        &&& self.allow & known_permission_bits() == self.allow
        &&& self.deny & known_permission_bits() == self.deny
    }
}

/// The topic text of `t`: `&voice&owner&allow&deny`, each number in decimal.
pub open spec fn topic_text(t: TopicData) -> Seq<char> {
    seq!['&'] + decimal_text(t.voice_channel as nat) + seq!['&'] + decimal_text(t.owner as nat)
        + seq!['&'] + decimal_text(t.allow as nat) + seq!['&'] + decimal_text(t.deny as nat)
}

/// The prefix that Viav writes before the topic data of the text channels it creates.
pub open spec fn channel_topic_prefix() -> Seq<char> {
    seq!['V', 'i', 'a', 'v', ' ', '-', ' ']
}

/// The whole topic of a text channel that Viav creates for `t`.
pub open spec fn channel_topic_text(t: TopicData) -> Seq<char> {
    channel_topic_prefix() + topic_text(t)
}

/// Reads the topic data from `s`: the pieces between `&` signs, after the first, are
/// the voice channel, the owner, and the allowed and denied permission bits; the
/// permission bits are cut to the flags that serenity knows. A missing piece is
/// reported before any piece is read as a number, and pieces are read in order.
pub open spec fn parse_topic(s: Seq<char>) -> Result<TopicData, TopicError> {
    let p = split_on(s, '&');
    if p.len() < 2 {
        Err(TopicError::Missing(TopicField::VoiceChannel))
    } else if p.len() < 3 {
        Err(TopicError::Missing(TopicField::Owner))
    } else if p.len() < 4 {
        Err(TopicError::Missing(TopicField::Allow))
    } else if p.len() < 5 {
        Err(TopicError::Missing(TopicField::Deny))
    } else if parse_u64_text(p[1]) is None {
        Err(TopicError::NotANumber(TopicField::VoiceChannel, parse_u64_failure(p[1])))
    } else if parse_u64_text(p[2]) is None {
        Err(TopicError::NotANumber(TopicField::Owner, parse_u64_failure(p[2])))
    } else if parse_u64_text(p[3]) is None {
        Err(TopicError::NotANumber(TopicField::Allow, parse_u64_failure(p[3])))
    } else if parse_u64_text(p[4]) is None {
        Err(TopicError::NotANumber(TopicField::Deny, parse_u64_failure(p[4])))
    } else {
        Ok(
            TopicData {
                voice_channel: parse_u64_text(p[1])->0,
                owner: parse_u64_text(p[2])->0,
                allow: parse_u64_text(p[3])->0 & known_permission_bits(),
                deny: parse_u64_text(p[4])->0 & known_permission_bits(),
            },
        )
    }
}

/// The topic data of a channel whose topic is `topic`, if it has one.
pub open spec fn parse_channel_topic(topic: Option<Seq<char>>) -> Result<TopicData, TopicError> {
    match topic {
        None => Err(TopicError::NoTopic),
        Some(s) => parse_topic(s),
    }
}

/// The view of an optional string.
pub open spec fn opt_view(s: Option<String>) -> Option<Seq<char>> {
    match s {
        None => None,
        Some(s) => Some(s@),
    }
}

/// The view of an optional string slice.
pub open spec fn opt_str_view(s: Option<&str>) -> Option<Seq<char>> {
    match s {
        None => None,
        Some(s) => Some(s@),
    }
}

impl TopicData {
    /// Writes the topic data as `&voice&owner&allow&deny`.
    pub fn to_string(&self) -> (s: String)
        ensures
            s@ == topic_text(*self),
    {
        let mut s = String::new();
        push_char(&mut s, '&');
        push_decimal(&mut s, self.voice_channel);
        push_char(&mut s, '&');
        push_decimal(&mut s, self.owner);
        push_char(&mut s, '&');
        push_decimal(&mut s, self.allow);
        push_char(&mut s, '&');
        push_decimal(&mut s, self.deny);
        assert(s@ =~= topic_text(*self));
        s
    }

    /// The topic of the text channel that Viav creates for this data:
    /// `Viav - &voice&owner&allow&deny`.
    pub fn channel_topic(&self) -> (s: String)
        ensures
            s@ == channel_topic_text(*self),
    {
        let mut s = String::new();
        push_str(&mut s, "Viav - ");
        let data = self.to_string();
        push_str(&mut s, data.as_str());
        proof {
            reveal_strlit("Viav - ");
        }
        assert(s@ =~= channel_topic_text(*self));
        s
    }

    /// Reads topic data from `data` (see `parse_topic`).
    pub fn from_str(data: &str) -> (r: Result<TopicData, TopicError>)
        ensures
            r == parse_topic(data@),
            r matches Ok(t) ==> t.wf(),
    {
        let pieces = split(data, '&');
        proof {
            assert(views(pieces@).len() == pieces@.len());
        }
        if pieces.len() < 2 {
            return Err(TopicError::Missing(TopicField::VoiceChannel));
        }
        if pieces.len() < 3 {
            return Err(TopicError::Missing(TopicField::Owner));
        }
        if pieces.len() < 4 {
            return Err(TopicError::Missing(TopicField::Allow));
        }
        if pieces.len() < 5 {
            return Err(TopicError::Missing(TopicField::Deny));
        }
        proof {
            assert(views(pieces@)[1] == pieces@[1]@);
            assert(views(pieces@)[2] == pieces@[2]@);
            assert(views(pieces@)[3] == pieces@[3]@);
            assert(views(pieces@)[4] == pieces@[4]@);
        }
        let voice_channel = match parse_u64_detailed(pieces[1].as_slice()) {
            Ok(v) => v,
            Err(kind) => return Err(TopicError::NotANumber(TopicField::VoiceChannel, kind)),
        };
        let owner = match parse_u64_detailed(pieces[2].as_slice()) {
            Ok(v) => v,
            Err(kind) => return Err(TopicError::NotANumber(TopicField::Owner, kind)),
        };
        let raw_allow = match parse_u64_detailed(pieces[3].as_slice()) {
            Ok(v) => v,
            Err(kind) => return Err(TopicError::NotANumber(TopicField::Allow, kind)),
        };
        let raw_deny = match parse_u64_detailed(pieces[4].as_slice()) {
            Ok(v) => v,
            Err(kind) => return Err(TopicError::NotANumber(TopicField::Deny, kind)),
        };
        let allow = truncate_permission_bits(raw_allow);
        let deny = truncate_permission_bits(raw_deny);
        proof {
            let k = known_permission_bits();
            assert((raw_allow & k) & k == raw_allow & k) by (bit_vector);
            assert((raw_deny & k) & k == raw_deny & k) by (bit_vector);
        }
        Ok(TopicData { voice_channel, owner, allow, deny })
    }

    /// Reads the topic data of a channel whose topic is `topic`.
    pub fn try_from(topic: Option<&str>) -> (r: Result<TopicData, TopicError>)
        ensures
            r == parse_channel_topic(opt_str_view(topic)),
            r matches Ok(t) ==> t.wf(),
    {
        match topic {
            None => Err(TopicError::NoTopic),
            Some(s) => TopicData::from_str(s),
        }
    }
}

/// The pieces of the topic of a text channel that Viav creates: the prefix, then the
/// four numbers in decimal.
pub proof fn lemma_channel_topic_pieces(t: TopicData)
    ensures
        split_on(channel_topic_text(t), '&') == seq![
            channel_topic_prefix(),
            decimal_text(t.voice_channel as nat),
            decimal_text(t.owner as nat),
            decimal_text(t.allow as nat),
            decimal_text(t.deny as nat),
        ],
        split_on(topic_text(t), '&') == seq![
            Seq::<char>::empty(),
            decimal_text(t.voice_channel as nat),
            decimal_text(t.owner as nat),
            decimal_text(t.allow as nat),
            decimal_text(t.deny as nat),
        ],
{
    let a = decimal_text(t.voice_channel as nat);
    let b = decimal_text(t.owner as nat);
    let c = decimal_text(t.allow as nat);
    let d = decimal_text(t.deny as nat);
    lemma_decimal_text(t.voice_channel as nat);
    lemma_decimal_text(t.owner as nat);
    lemma_decimal_text(t.allow as nat);
    lemma_decimal_text(t.deny as nat);
    let rest = a.push('&') + (b.push('&') + (c.push('&') + d));
    let e = Seq::<char>::empty();
    assert(!e.contains('&'));
    assert(e.push('&') + rest =~= topic_text(t));
    lemma_split_five(e, a, b, c, d, '&');
    let p = channel_topic_prefix();
    assert(!p.contains('&')) by {
        if p.contains('&') {
            let i = choose|i: int| 0 <= i < p.len() && p[i] == '&';
            assert(p[i] != '&');
        }
    }
    assert(p.push('&') + rest =~= channel_topic_text(t));
    lemma_split_five(p, a, b, c, d, '&');
}

/// Writing topic data and reading it back gives the same data: the data that Viav
/// stores in a text channel's topic is what it later reads from it.
pub proof fn lemma_topic_round_trip(t: TopicData)
    requires
        t.wf(),
    ensures
        parse_topic(topic_text(t)) == Ok::<TopicData, TopicError>(t),
        parse_topic(channel_topic_text(t)) == Ok::<TopicData, TopicError>(t),
        parse_channel_topic(Some(channel_topic_text(t))) == Ok::<TopicData, TopicError>(t),
{
    lemma_channel_topic_pieces(t);
    lemma_parse_decimal_text(t.voice_channel);
    lemma_parse_decimal_text(t.owner);
    lemma_parse_decimal_text(t.allow);
    lemma_parse_decimal_text(t.deny);
}

} // verus!
