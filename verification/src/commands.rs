//! The text commands (`-viav ping`, `help`, `info`, `controls`).
use vstd::prelude::*;
use vstd::string::*;
use crate::channels::{controls_owner, topic_owner_field};
use crate::deck::{create_deck, is_deck_of, Deck};
use crate::text::{decimal_text, push_decimal, push_str};
use crate::topic::opt_str_view;

verus! {

broadcast use vstd::string::group_string_axioms;

/// The answer to `ping`.
pub fn ping_reply() -> (text: String)
    ensures
        text@ == "Pong!"@,
{
    "Pong!".to_owned()
}

/// The answer to `info`: the shard that handles the guild.
pub fn info_message(shard_id: u64) -> (text: String)
    ensures
        text@ == "Shard ID: "@ + decimal_text(shard_id as nat),
{
    let mut text = String::new();
    push_str(&mut text, "Shard ID: ");
    push_decimal(&mut text, shard_id);
    assert(text@ =~= "Shard ID: "@ + decimal_text(shard_id as nat));
    text
}

/// The answer to `controls` when no deck can be made.
pub fn controls_error_reply() -> (text: String)
    ensures
        text@ == "Error"@,
{
    "Error".to_owned()
}

/// The deck that `controls` posts in a text channel whose topic is `topic`: a deck
/// named "Viav Controls" for the owner that the topic names, or none when the topic
/// names no owner.
pub fn controls_deck(topic: Option<&str>) -> (deck: Option<Deck>)
    ensures
        match opt_str_view(topic) {
            None => deck is None,
            Some(s) => match topic_owner_field(s) {
                None => deck is None,
                Some(owner) => deck matches Some(d) && is_deck_of(d, "Viav Controls"@, owner),
            },
        },
{
    match controls_owner(topic) {
        None => None,
        Some(owner) => Some(create_deck("Viav Controls".to_owned(), owner)),
    }
}

} // verus!
