use viav::channels::MASTER_USER;
use viav::commands::{controls_deck, controls_error_reply, info_message, ping_reply};
use viav::content::{controls_embed, create_help_embed};
use viav::deck::{create_deck, on_deck_reaction, DeckAction, DeckError, DeckEvent, DeckState, ReactingUser};
use viav::operation::{
    interaction_reply, slash_commands, ApplyAction, ApplyError, ApplyEvent, ApplyState, Operation,
    ReactionEmoji, ReactionError, SlashError,
};
use viav::permissions::{Overwrite, OverwriteKind};
use viav::topic::{TopicError, TopicField};

const TOPIC: &str = "Viav - &500&10&1024&0";

fn custom(name: &str) -> ReactionEmoji {
    ReactionEmoji::Custom { name: Some(name.to_string()) }
}

#[test]
fn reactions_name_operations() {
    assert_eq!(Operation::try_from((&custom("lock"), true)), Ok(Operation::Lock(true)));
    assert_eq!(Operation::try_from((&custom("lock"), false)), Ok(Operation::Lock(false)));
    assert_eq!(Operation::try_from((&custom("eye"), true)), Ok(Operation::Hide(true)));
    assert_eq!(Operation::try_from((&custom("alert"), false)), Ok(Operation::NSFW(false)));
    assert_eq!(Operation::try_from((&custom("Lock"), true)), Err(ReactionError::UnknownName));
    assert_eq!(
        Operation::try_from((&ReactionEmoji::Custom { name: None }, true)),
        Err(ReactionError::NoName)
    );
    assert_eq!(
        Operation::try_from((&ReactionEmoji::Unicode("🔒".to_string()), true)),
        Err(ReactionError::NotCustom)
    );
}

#[test]
fn slash_commands_name_operations() {
    assert_eq!(Operation::from_command("lock"), Ok(Operation::Lock(true)));
    assert_eq!(Operation::from_command("unlock"), Ok(Operation::Lock(false)));
    assert_eq!(Operation::from_command("hide"), Ok(Operation::Hide(true)));
    assert_eq!(Operation::from_command("unhide"), Ok(Operation::Hide(false)));
    assert_eq!(Operation::from_command("help"), Ok(Operation::Help));
    assert_eq!(Operation::from_command("nsfw"), Err(SlashError::UnknownCommand));
    assert_eq!(Operation::from_command(""), Err(SlashError::UnknownCommand));
}

#[test]
fn registered_slash_commands() {
    let commands = slash_commands();
    let names: Vec<&str> = commands.iter().map(|c| c.name.as_str()).collect();
    assert_eq!(names, vec!["help", "lock", "unlock", "hide", "unhide"]);
    assert_eq!(commands[0].description, "Some info about Viav");
    assert_eq!(commands[4].description, "Unhide the voice channel");
    for c in &commands {
        assert!(Operation::from_command(&c.name).is_ok());
    }
}

#[test]
fn responses() {
    assert_eq!(Operation::Lock(true).response().as_deref(), Some("Locked"));
    assert_eq!(Operation::Lock(false).response().as_deref(), Some("Unlocked"));
    assert_eq!(Operation::Hide(true).response().as_deref(), Some("Hidden"));
    assert_eq!(Operation::Hide(false).response().as_deref(), Some("Unhidden"));
    assert_eq!(Operation::NSFW(true).response().as_deref(), Some("Set nsfw"));
    assert_eq!(Operation::NSFW(false).response().as_deref(), Some("Unset NSFW"));
    assert_eq!(Operation::Help.response(), None);
}

#[test]
fn interaction_replies() {
    let r = interaction_reply(Some(Operation::Lock(true)));
    assert_eq!(r.kind, 4);
    assert_eq!(r.content.as_deref(), Some("Locked"));
    let r = interaction_reply(None);
    assert_eq!(r.kind, 5);
    assert_eq!(r.content, None);
}

#[test]
fn apply_help_sends_help_only() {
    let (s, a) = Operation::Help.apply(1, None);
    assert_eq!(a, ApplyAction::SendHelp);
    let (s, a) = s.next(ApplyEvent::Completed(false));
    assert_eq!(s, ApplyState::Finished);
    assert_eq!(a, ApplyAction::Finish(Ok(None)));
}

#[test]
fn apply_without_topic_fails() {
    let (s, a) = Operation::Lock(true).apply(10, None);
    assert_eq!(s, ApplyState::Finished);
    assert_eq!(a, ApplyAction::Finish(Err(ApplyError::Topic(TopicError::NoTopic))));
    let (_, a) = Operation::NSFW(true).apply(10, Some("Viav - &1&2"));
    assert_eq!(a, ApplyAction::Finish(Err(ApplyError::Topic(TopicError::Missing(TopicField::Allow)))));
}

#[test]
fn owner_locks_voice_channel() {
    let (s, a) = Operation::Lock(true).apply(10, Some(TOPIC));
    assert_eq!(a, ApplyAction::FetchVoiceChannel { channel_id: 500 });
    let (s, a) = s.next(ApplyEvent::VoiceChannel(Some(77)));
    assert_eq!(a, ApplyAction::SetUserLimit { channel_id: 500, user_limit: 1 });
    let (s, a) = s.next(ApplyEvent::Completed(true));
    assert_eq!(s, ApplyState::Finished);
    assert_eq!(a, ApplyAction::Finish(Ok(Some(Operation::Lock(true)))));
}

#[test]
fn master_unlocks_voice_channel() {
    let (s, _) = Operation::Lock(false).apply(MASTER_USER, Some(TOPIC));
    let (_, a) = s.next(ApplyEvent::VoiceChannel(Some(77)));
    assert_eq!(a, ApplyAction::SetUserLimit { channel_id: 500, user_limit: 0 });
}

#[test]
fn stranger_without_permission_changes_nothing() {
    let (s, a) = Operation::Hide(true).apply(11, Some(TOPIC));
    assert_eq!(a, ApplyAction::LookUpPermissions);
    let (s2, a) = s.next(ApplyEvent::Permissions(Some(0x20)));
    assert_eq!(s2, ApplyState::Finished);
    assert_eq!(a, ApplyAction::Finish(Ok(None)));
    let (_, a) = s.next(ApplyEvent::Permissions(None));
    assert_eq!(a, ApplyAction::Finish(Ok(None)));
}

#[test]
fn manager_hides_and_unhides() {
    let (s, _) = Operation::Hide(true).apply(11, Some(TOPIC));
    let (s, a) = s.next(ApplyEvent::Permissions(Some(0x10)));
    assert_eq!(a, ApplyAction::FetchVoiceChannel { channel_id: 500 });
    let (_, a) = s.next(ApplyEvent::VoiceChannel(Some(77)));
    assert_eq!(
        a,
        ApplyAction::SetOverwrite {
            channel_id: 500,
            overwrite: Overwrite { allow: 0, deny: 0x10_0400, kind: OverwriteKind::Role(77) },
        }
    );
    let (s, _) = Operation::Hide(false).apply(10, Some(TOPIC));
    let (_, a) = s.next(ApplyEvent::VoiceChannel(Some(77)));
    assert_eq!(
        a,
        ApplyAction::SetOverwrite {
            channel_id: 500,
            overwrite: Overwrite { allow: 1024, deny: 0, kind: OverwriteKind::Role(77) },
        }
    );
}

#[test]
fn nsfw_and_failures() {
    let (s, a) = Operation::NSFW(true).apply(10, Some(TOPIC));
    assert_eq!(a, ApplyAction::SetNsfw { nsfw: true });
    let (_, a) = s.next(ApplyEvent::Completed(false));
    assert_eq!(a, ApplyAction::Finish(Err(ApplyError::NsfwFailed)));
    let (s, _) = Operation::Lock(true).apply(10, Some(TOPIC));
    let (_, a) = s.next(ApplyEvent::VoiceChannel(None));
    assert_eq!(a, ApplyAction::Finish(Err(ApplyError::VoiceChannelUnavailable)));
    let (s, _) = Operation::Hide(true).apply(10, Some(TOPIC));
    let (s, _) = s.next(ApplyEvent::VoiceChannel(Some(1)));
    let (_, a) = s.next(ApplyEvent::Completed(false));
    assert_eq!(a, ApplyAction::Finish(Err(ApplyError::HideFailed)));
    let (s, _) = Operation::Lock(true).apply(10, Some(TOPIC));
    let (_, a) = s.next(ApplyEvent::Completed(true));
    assert_eq!(a, ApplyAction::Finish(Err(ApplyError::OutOfOrder)));
}

#[test]
fn apply_error_messages() {
    assert_eq!(ApplyError::LockFailed.message().as_deref(), Some("Failed to lock voice channel"));
    assert_eq!(ApplyError::HideFailed.message().as_deref(), Some("Failed to hide voice channel"));
    assert_eq!(ApplyError::NsfwFailed.message().as_deref(), Some("Failed to set text channel to NSFW"));
    assert_eq!(ApplyError::VoiceChannelNotGuild.message().as_deref(), Some("topic to voice channel"));
    assert_eq!(ApplyError::VoiceChannelUnavailable.message(), None);
    assert_eq!(ApplyError::Topic(TopicError::NoTopic).message().as_deref(), Some("No topic in channel"));
    assert_eq!(ApplyError::Topic(TopicError::Missing(TopicField::Allow)).message().as_deref(), Some("Allow"));
    assert_eq!(ApplyError::OutOfOrder.message().as_deref(), Some("Unexpected answer"));
}

#[test]
fn slash_and_deck_and_reaction_error_messages() {
    assert_eq!(SlashError::UnknownCommand.message().as_deref(), Some("unknown command"));
    assert_eq!(SlashError::NotGuildChannel.message().as_deref(), Some("Interaction Guild Channel"));
    assert_eq!(SlashError::ChannelUnavailable.message(), None);
    assert_eq!(SlashError::ReplyFailed.message().as_deref(), Some("Slash command response"));
    assert_eq!(
        SlashError::Apply(ApplyError::LockFailed).message().as_deref(),
        Some("Failed to lock voice channel")
    );
    assert_eq!(SlashError::Apply(ApplyError::VoiceChannelUnavailable).message(), None);
    assert_eq!(DeckError::NotGuildChannel.message().as_deref(), Some("Get text channel of reaction"));
    assert_eq!(DeckError::UserUnavailable.message(), None);
    assert_eq!(DeckError::ChannelUnavailable.message(), None);
    assert_eq!(DeckError::PermissionsUnavailable.message(), None);
    assert_eq!(DeckError::Topic(TopicError::NoTopic).message().as_deref(), Some("No topic in channel"));
    assert_eq!(DeckError::Reaction(ReactionError::NotCustom).message().as_deref(), Some("Emoji not custom"));
    assert_eq!(ReactionError::NotCustom.message(), "Emoji not custom");
    assert_eq!(ReactionError::NoName.message(), "Emoji name");
    assert_eq!(ReactionError::UnknownName.message(), "");
}

#[test]
fn removing_a_deck_reaction_asks_for_the_opposite() {
    for name in ["lock", "eye", "alert"] {
        let added = Operation::try_from((&custom(name), true)).unwrap();
        let removed = Operation::try_from((&custom(name), false)).unwrap();
        let flipped = match added {
            Operation::Lock(b) => Operation::Lock(!b),
            Operation::Hide(b) => Operation::Hide(!b),
            Operation::NSFW(b) => Operation::NSFW(!b),
            Operation::Help => Operation::Help,
        };
        assert_eq!(removed, flipped, "{}", name);
    }
    assert_eq!(Operation::try_from((&custom("star"), false)), Err(ReactionError::UnknownName));
}

#[test]
fn deck_content() {
    let deck = create_deck("Room / ab12".to_string(), 42);
    let author = deck.embed.author.as_ref().unwrap();
    assert_eq!(author.name, "Room / ab12");
    assert_eq!(author.url.as_deref(), Some("https://viav.app/"));
    assert_eq!(deck.embed.fields.len(), 1);
    assert_eq!(deck.embed.fields[0].name, "Channel Owner");
    assert_eq!(deck.embed.fields[0].value, "<@42>");
    assert!(deck.embed.fields[0].inline);
    assert_eq!(deck.embed.colour, (103, 58, 183));
    let reactions: Vec<(u64, &str)> = deck.reactions.iter().map(|r| (r.id, r.name.as_str())).collect();
    assert_eq!(
        reactions,
        vec![(684471911920566281, "lock"), (684471928739725376, "eye"), (684470685430448128, "alert")]
    );
    for r in &deck.reactions {
        assert!(Operation::try_from((&custom(&r.name), true)).is_ok());
    }
}

#[test]
fn deck_reaction_by_owner() {
    let (s, a) = on_deck_reaction(&custom("lock"), true);
    assert_eq!(a, DeckAction::FetchUser);
    let (s, a) = s.next(DeckEvent::User(Some(ReactingUser { id: 10, bot: false })));
    assert_eq!(a, DeckAction::FetchTextChannel);
    let (s, a) = s.next(DeckEvent::TextChannel(Some(Some(TOPIC.to_string()))));
    assert_eq!(a, DeckAction::LookUpPermissions { user: 10 });
    let (s, a) = s.next(DeckEvent::Permissions(Some(0)));
    assert_eq!(s, DeckState::Finished);
    assert_eq!(a, DeckAction::Finish(Ok(Some(Operation::Lock(true)))));
}

#[test]
fn deck_reaction_ignores_bots_and_strangers() {
    let (s, _) = on_deck_reaction(&custom("eye"), false);
    let (_, a) = s.next(DeckEvent::User(Some(ReactingUser { id: 10, bot: true })));
    assert_eq!(a, DeckAction::Finish(Ok(None)));
    let (s, _) = on_deck_reaction(&custom("eye"), false);
    let (s, _) = s.next(DeckEvent::User(Some(ReactingUser { id: 11, bot: false })));
    let (s, _) = s.next(DeckEvent::TextChannel(Some(Some(TOPIC.to_string()))));
    let (_, a) = s.next(DeckEvent::Permissions(Some(0x20)));
    assert_eq!(a, DeckAction::Finish(Ok(None)));
}

#[test]
fn deck_reaction_errors() {
    let (s, _) = on_deck_reaction(&custom("star"), true);
    let (s, _) = s.next(DeckEvent::User(Some(ReactingUser { id: 10, bot: false })));
    let (s, _) = s.next(DeckEvent::TextChannel(Some(Some(TOPIC.to_string()))));
    let (_, a) = s.next(DeckEvent::Permissions(Some(0)));
    assert_eq!(a, DeckAction::Finish(Err(DeckError::Reaction(ReactionError::UnknownName))));
    let (s, _) = on_deck_reaction(&custom("lock"), true);
    let (s, _) = s.next(DeckEvent::User(Some(ReactingUser { id: 10, bot: false })));
    let (_, a) = s.next(DeckEvent::TextChannel(Some(None)));
    assert_eq!(a, DeckAction::Finish(Err(DeckError::Topic(TopicError::NoTopic))));
    let (s, _) = on_deck_reaction(&custom("lock"), true);
    let (s, _) = s.next(DeckEvent::User(Some(ReactingUser { id: 10, bot: false })));
    let (s, _) = s.next(DeckEvent::TextChannel(Some(Some(TOPIC.to_string()))));
    let (_, a) = s.next(DeckEvent::Permissions(None));
    assert_eq!(a, DeckAction::Finish(Err(DeckError::PermissionsUnavailable)));
    let (s, _) = on_deck_reaction(&custom("lock"), true);
    let (_, a) = s.next(DeckEvent::User(None));
    assert_eq!(a, DeckAction::Finish(Err(DeckError::UserUnavailable)));
    let (s, _) = on_deck_reaction(&custom("lock"), true);
    let (s, _) = s.next(DeckEvent::User(Some(ReactingUser { id: 10, bot: false })));
    assert_eq!(s.next(DeckEvent::ChannelNotGuild).1, DeckAction::Finish(Err(DeckError::NotGuildChannel)));
    assert_eq!(s.next(DeckEvent::TextChannel(None)).1, DeckAction::Finish(Err(DeckError::ChannelUnavailable)));
}

#[test]
fn help_and_controls_embeds() {
    let help = create_help_embed();
    assert_eq!(help.author.as_ref().unwrap().name, "Viav");
    assert!(help.description.as_ref().unwrap().starts_with("**Infinite Voice Channels**\n\nViav will"));
    assert_eq!(help.fields.len(), 2);
    assert_eq!(help.fields[0].value, "-viav help\n        -viav controls");
    assert!(help.fields[1].value.ends_with("[**` Support `**](https://discord.gg/6J27ETD) "));
    let controls = controls_embed();
    assert_eq!(controls.fields.len(), 3);
    assert_eq!(controls.fields[2].name, "Controls");
    assert!(controls.fields[2].value.starts_with("<:lock:684471911920566281> - Lock voice channel\n\n"));
}

#[test]
fn text_commands() {
    assert_eq!(ping_reply(), "Pong!");
    assert_eq!(info_message(3), "Shard ID: 3");
    assert_eq!(controls_error_reply(), "Error");
    let deck = controls_deck(Some(TOPIC)).unwrap();
    assert_eq!(deck.embed.author.as_ref().unwrap().name, "Viav Controls");
    assert_eq!(deck.embed.fields[0].value, "<@10>");
    assert!(controls_deck(Some("Viav - &500")).is_none());
    assert!(controls_deck(None).is_none());
}
