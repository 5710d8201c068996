use std::collections::hash_map::DefaultHasher;
use std::hash::{Hash, Hasher};
use viav::handler::{
    handle_slash_command, ChannelKind, DeleteLookup, Handler, SlashAction, SlashEvent, SlashState,
    VoiceEvent, VoiceStateInfo,
};
use viav::membership::{
    access_failure_report, announcement, display_name, join_leave_title, on_join, on_leave, voice_destroy,
    AnnounceOutcome, DestroyAction, DestroyError, DestroyEvent, JoinAction, JoinError, JoinEvent, LeaveAction,
    LeaveError, LeaveEvent,
};
use viav::operation::{ApplyAction, ApplyError, ApplyEvent, Operation, SlashError};
use viav::permissions::{Overwrite, OverwriteKind};
use viav::topic::TopicData;
use viav::voice::{
    channel_tag, default_permissions, exists_notice, tag_hash, voice_create, VoiceChannel, VoiceCreateAction,
    VoiceCreateError, VoiceCreateEvent, VoiceCreatePlan, VoiceCreateState, DUPLICATE_DELAY_MS,
};

fn room() -> VoiceChannel {
    VoiceChannel {
        id: 500,
        name: "Room".to_string(),
        category: Some(9),
        bitrate: Some(96000),
        user_limit: None,
        overwrites: vec![
            Overwrite { allow: 1, deny: 2, kind: OverwriteKind::Member(77) },
            Overwrite { allow: 0x100000, deny: 0x800, kind: OverwriteKind::Role(77) },
            Overwrite { allow: 3, deny: 4, kind: OverwriteKind::Role(77) },
        ],
    }
}

#[test]
fn default_permissions_of_everyone() {
    assert_eq!(default_permissions(&room().overwrites, 77), (0x100000, 0x800));
    assert_eq!(default_permissions(&room().overwrites, 78), (0x400, 0));
    assert_eq!(default_permissions(&vec![], 1), (0x400, 0));
}

#[test]
fn tags_are_short_lower_hex() {
    assert_eq!(channel_tag(0), "0");
    assert_eq!(channel_tag(0x1f), "1f");
    assert_eq!(channel_tag(0xabcdef), "abcd");
    assert_eq!(channel_tag(u64::MAX), "ffff");
    let h = 0x1234_5678_9abc_def0u64;
    assert_eq!(channel_tag(h), format!("{:x}", h)[..4]);
}

#[test]
fn plan_of_a_new_pair() {
    let plan = VoiceCreatePlan::new(77, &room(), 10, 0xbeef12, 1000);
    assert_eq!(plan.tag, "beef");
    assert_eq!(plan.tagged_name, "Room / beef");
    assert_eq!(plan.original_name, "Room");
    assert_eq!(plan.topic, TopicData { voice_channel: 500, owner: 10, allow: 0x100000, deny: 0x800 });
    assert_eq!(plan.text_channel.name, "voice-viav-beef");
    assert_eq!(plan.text_channel.topic, "Viav - &500&10&1048576&2048");
    assert_eq!(plan.text_channel.category, Some(9));
    assert_eq!(
        plan.text_channel.overwrites,
        vec![
            Overwrite { allow: 0, deny: 0x400, kind: OverwriteKind::Role(77) },
            Overwrite { allow: 0x1ff_ffff_ffff, deny: 0, kind: OverwriteKind::Member(1000) },
        ]
    );
    assert_eq!(plan.owner_text_overwrite, Overwrite { allow: 0x400, deny: 0, kind: OverwriteKind::Member(10) });
    assert_eq!(plan.deck.embed.author.as_ref().unwrap().name, "Room / beef");
    assert_eq!(plan.deck.embed.fields[0].value, "<@10>");
    assert_eq!(plan.duplicate.name, "Room");
    assert_eq!(plan.duplicate.overwrites, room().overwrites);
    assert_eq!(plan.duplicate.bitrate, 96000);
    assert_eq!(plan.duplicate.category, Some(9));
    assert_eq!(plan.duplicate.user_limit, None);
    assert_eq!(plan.bot_voice_overwrite, Overwrite { allow: 0x1ff_ffff_ffff, deny: 0, kind: OverwriteKind::Member(1000) });
    assert_eq!(plan.owner_voice_overwrite, Overwrite { allow: 0x100_0010, deny: 0, kind: OverwriteKind::Member(10) });
    assert_eq!(TopicData::from_str(&plan.text_channel.topic), Ok(plan.topic));
}

#[test]
fn plan_defaults_bitrate_and_keeps_limit() {
    let mut v = room();
    v.bitrate = None;
    v.user_limit = Some(5);
    let plan = VoiceCreatePlan::new(77, &v, 10, 1, 1000);
    assert_eq!(plan.duplicate.bitrate, 64);
    assert_eq!(plan.duplicate.user_limit, Some(5));
    assert_eq!(plan.tagged_name, "Room / 1");
}

#[test]
fn voice_create_full_flow() {
    assert_eq!(DUPLICATE_DELAY_MS, 1500);
    let (s, a) = voice_create(500, "Room");
    assert_eq!(a, VoiceCreateAction::LookUpAfkChannel);
    let (s, a) = s.next(VoiceCreateEvent::AfkChannel(Some(1)));
    assert_eq!(a, VoiceCreateAction::FindTextChannel);
    let (s, a) = s.next(VoiceCreateEvent::TextChannel(None));
    assert_eq!(a, VoiceCreateAction::RenameWithTag);
    let (s, a) = s.next(VoiceCreateEvent::Completed(true));
    assert_eq!(a, VoiceCreateAction::CreateTextChannel);
    let (s, a) = s.next(VoiceCreateEvent::Completed(true));
    assert_eq!(a, VoiceCreateAction::GrantTextAccess);
    let (s, a) = s.next(VoiceCreateEvent::Completed(true));
    assert_eq!(a, VoiceCreateAction::SetUpDeckAndDuplicate);
    let (s, a) = s.next(VoiceCreateEvent::Completed(true));
    assert_eq!(a, VoiceCreateAction::GrantBotVoiceAccess);
    let (s, a) = s.next(VoiceCreateEvent::Completed(true));
    assert_eq!(a, VoiceCreateAction::GrantOwnerVoiceAccess);
    let (s, a) = s.next(VoiceCreateEvent::Completed(true));
    assert_eq!(s, VoiceCreateState::Finished);
    assert_eq!(a, VoiceCreateAction::Finish(Ok(())));
}

#[test]
fn voice_create_skips_afk_and_reserved() {
    let (s, _) = voice_create(500, "Room");
    assert_eq!(s.next(VoiceCreateEvent::AfkChannel(Some(500))).1, VoiceCreateAction::Finish(Ok(())));
    let (s, _) = voice_create(500, "&Lobby");
    assert_eq!(s.next(VoiceCreateEvent::AfkChannel(None)).1, VoiceCreateAction::Finish(Ok(())));
}

#[test]
fn voice_create_existing_text_channel() {
    let (s, _) = voice_create(500, "Room");
    let (s, _) = s.next(VoiceCreateEvent::AfkChannel(None));
    let (s, a) = s.next(VoiceCreateEvent::TextChannel(Some(600)));
    assert_eq!(a, VoiceCreateAction::SendExistsNotice { text_channel: 600 });
    assert_eq!(s.next(VoiceCreateEvent::Completed(false)).1, VoiceCreateAction::Finish(Err(VoiceCreateError::NoticeFailed)));
    assert_eq!(
        exists_notice(),
        "Tried to create new voice channel but it already exists. Using this text channel."
    );
}

#[test]
fn voice_create_failed_copy_renames_back() {
    let mut s = voice_create(500, "Room").0;
    for e in [
        VoiceCreateEvent::AfkChannel(None),
        VoiceCreateEvent::TextChannel(None),
        VoiceCreateEvent::Completed(true),
        VoiceCreateEvent::Completed(true),
        VoiceCreateEvent::Completed(true),
    ] {
        s = s.next(e).0;
    }
    let (s, a) = s.next(VoiceCreateEvent::Completed(false));
    assert_eq!(a, VoiceCreateAction::RenameBack);
    assert_eq!(s.next(VoiceCreateEvent::Completed(true)).1, VoiceCreateAction::Finish(Err(VoiceCreateError::DuplicateFailed)));
    assert_eq!(s.next(VoiceCreateEvent::Completed(false)).1, VoiceCreateAction::Finish(Err(VoiceCreateError::RenameBackFailed)));
}

#[test]
fn voice_create_rename_failure() {
    let (s, _) = voice_create(500, "Room");
    let (s, _) = s.next(VoiceCreateEvent::AfkChannel(None));
    let (s, _) = s.next(VoiceCreateEvent::TextChannel(None));
    assert_eq!(
        s.next(VoiceCreateEvent::Completed(false)).1,
        VoiceCreateAction::Finish(Err(VoiceCreateError::RenameFailed(500)))
    );
}

#[test]
fn first_join_creates_pair() {
    let (s, a) = on_join(Some(1), 10);
    assert_eq!(a, JoinAction::RunVoiceCreate);
    assert_eq!(s.next(JoinEvent::Created(Ok(()))).1, JoinAction::Finish(Ok(())));
    assert_eq!(
        s.next(JoinEvent::Created(Err(VoiceCreateError::RenameFailed(500)))).1,
        JoinAction::Finish(Err(JoinError::Create(VoiceCreateError::RenameFailed(500))))
    );
    assert_eq!(on_join(None, 10).1, JoinAction::Finish(Err(JoinError::UsersUnknown)));
}

#[test]
fn later_join_is_announced_and_let_in() {
    let (s, a) = on_join(Some(3), 10);
    assert_eq!(a, JoinAction::FindTextChannel);
    assert_eq!(s.next(JoinEvent::TextChannel(None)).1, JoinAction::Finish(Ok(())));
    let (s, a) = s.next(JoinEvent::TextChannel(Some(600)));
    assert_eq!(a, JoinAction::AnnounceJoin { text_channel: 600, user: 10 });
    assert_eq!(
        s.next(JoinEvent::Announced(AnnounceOutcome::UserUnavailable)).1,
        JoinAction::Finish(Err(JoinError::UserUnavailable))
    );
    assert_eq!(
        s.next(JoinEvent::Announced(AnnounceOutcome::SendFailed)).1,
        JoinAction::Finish(Err(JoinError::AnnounceFailed))
    );
    assert_eq!(s.next(JoinEvent::Completed(true)).1, JoinAction::Finish(Err(JoinError::OutOfOrder)));
    let (s, a) = s.next(JoinEvent::Announced(AnnounceOutcome::Sent));
    assert_eq!(
        a,
        JoinAction::GrantTextAccess {
            text_channel: 600,
            overwrite: Overwrite { allow: 0x400, deny: 0, kind: OverwriteKind::Member(10) },
        }
    );
    assert_eq!(s.next(JoinEvent::Completed(true)).1, JoinAction::Finish(Ok(())));
    let (s, a) = s.next(JoinEvent::Completed(false));
    assert_eq!(a, JoinAction::ReportAccessFailure { text_channel: 600 });
    assert_eq!(s.next(JoinEvent::Completed(true)).1, JoinAction::Finish(Err(JoinError::AccessFailed)));
    assert_eq!(s.next(JoinEvent::Completed(false)).1, JoinAction::Finish(Err(JoinError::ReportFailed)));
}

#[test]
fn last_leave_destroys_pair() {
    let (s, a) = on_leave(Some(0), 500, 10);
    assert_eq!(a, LeaveAction::RunVoiceDestroy);
    assert_eq!(s.next(LeaveEvent::Destroyed(Ok(()))).1, LeaveAction::Finish(Ok(())));
    assert_eq!(on_leave(None, 500, 10).1, LeaveAction::Finish(Err(LeaveError::UsersUnknown(500))));
    let (s, a) = voice_destroy(500);
    assert_eq!(a, DestroyAction::FindTextChannel);
    assert_eq!(s.next(DestroyEvent::TextChannel(None)).1, DestroyAction::Finish(Err(DestroyError::TextChannelNotFound(500))));
    let (s, a) = s.next(DestroyEvent::TextChannel(Some(600)));
    assert_eq!(a, DestroyAction::DeleteChannel { channel_id: 600 });
    assert_eq!(s.next(DestroyEvent::Completed(true)).1, DestroyAction::Finish(Ok(())));
    assert_eq!(s.next(DestroyEvent::Completed(false)).1, DestroyAction::Finish(Err(DestroyError::DeleteFailed)));
}

#[test]
fn earlier_leave_is_announced() {
    let (s, a) = on_leave(Some(2), 500, 10);
    assert_eq!(a, LeaveAction::FindTextChannel);
    let (s, a) = s.next(LeaveEvent::TextChannel(Some(600)));
    assert_eq!(a, LeaveAction::RevokeTextAccess { text_channel: 600, user: 10 });
    let (s, a) = s.next(LeaveEvent::Completed(false));
    assert_eq!(a, LeaveAction::AnnounceLeave { text_channel: 600, user: 10 });
    assert_eq!(
        s.next(LeaveEvent::Announced(AnnounceOutcome::SendFailed)).1,
        LeaveAction::Finish(Err(LeaveError::AnnounceFailed))
    );
    assert_eq!(
        s.next(LeaveEvent::Announced(AnnounceOutcome::UserUnavailable)).1,
        LeaveAction::Finish(Err(LeaveError::UserUnavailable))
    );
    assert_eq!(s.next(LeaveEvent::Announced(AnnounceOutcome::Sent)).1, LeaveAction::Finish(Ok(())));
}

#[test]
fn announcements() {
    assert_eq!(display_name(Some("Nick".to_string()), "name".to_string()), "Nick");
    assert_eq!(display_name(None, "name".to_string()), "name");
    assert_eq!(join_leave_title("Nick", true), "Nick - joined");
    assert_eq!(join_leave_title("Nick", false), "Nick - left");
    let joined = announcement("Nick", "https://cdn/face.png".to_string(), true);
    let author = joined.author.as_ref().unwrap();
    assert_eq!(author.name, "Nick - joined");
    assert_eq!(author.icon_url.as_deref(), Some("https://cdn/face.png"));
    assert_eq!(author.url, None);
    assert_eq!(joined.description, None);
    assert!(joined.fields.is_empty());
    assert_eq!(joined.colour, (103, 58, 183));
    let left = announcement("name", "f".to_string(), false);
    assert_eq!(left.author.as_ref().unwrap().name, "name - left");
}

#[test]
fn access_failure_is_reported_in_red() {
    let report = access_failure_report("Http(UnsuccessfulRequest(..))".to_string());
    assert!(report.author.is_none());
    assert_eq!(report.description.as_deref(), Some("Http(UnsuccessfulRequest(..))"));
    assert!(report.fields.is_empty());
    assert_eq!(report.colour, (200, 50, 80));
}

#[test]
fn membership_error_messages() {
    assert_eq!(
        DestroyError::TextChannelNotFound(500).message(),
        "Could not find text channel for voice channel: 500"
    );
    assert_eq!(DestroyError::DeleteFailed.message(), "delete text channel");
    assert_eq!(JoinError::UsersUnknown.message().as_deref(), Some("Could not get number of connected users"));
    assert_eq!(
        JoinError::Create(VoiceCreateError::RenameFailed(500)).message().as_deref(),
        Some("Editting channel: 500")
    );
    assert_eq!(JoinError::Create(VoiceCreateError::DuplicateFailed).message(), None);
    assert_eq!(JoinError::UserUnavailable.message(), None);
    assert_eq!(JoinError::AnnounceFailed.message().as_deref(), Some("Join / leave message"));
    assert_eq!(JoinError::AccessFailed.message(), None);
    assert_eq!(JoinError::ReportFailed.message().as_deref(), Some("Join / leave message"));
    assert_eq!(
        LeaveError::UsersUnknown(500).message().as_deref(),
        Some("Could not get number of connected users for voice channel: 500")
    );
    assert_eq!(
        LeaveError::Destroy(DestroyError::DeleteFailed).message().as_deref(),
        Some("delete text channel")
    );
    assert_eq!(LeaveError::UserUnavailable.message(), None);
    assert_eq!(LeaveError::AnnounceFailed.message().as_deref(), Some("Join / leave message"));
}

#[test]
fn voice_create_error_messages() {
    assert_eq!(VoiceCreateError::RenameFailed(123).message().as_deref(), Some("Editting channel: 123"));
    assert_eq!(VoiceCreateError::TextChannelFailed.message().as_deref(), Some("Create text channel"));
    assert_eq!(
        VoiceCreateError::TextAccessFailed.message().as_deref(),
        Some("Add permissions to text channel")
    );
    assert_eq!(VoiceCreateError::NoticeFailed.message(), None);
    assert_eq!(VoiceCreateError::BotAccessFailed.message(), None);
}

#[test]
fn tag_hash_is_std_default_hash_of_the_serial() {
    for serial in [0u8, 1, 7, 200, 255] {
        let mut hasher = DefaultHasher::new();
        serial.hash(&mut hasher);
        assert_eq!(tag_hash(serial), hasher.finish(), "{}", serial);
    }
    let plan = VoiceCreatePlan::from_serial(77, &room(), 10, 3, 1000);
    let expected = VoiceCreatePlan::new(77, &room(), 10, tag_hash(3), 1000);
    assert_eq!(plan.tagged_name, expected.tagged_name);
    assert_eq!(plan.tag, format!("{:x}", tag_hash(3)).chars().take(4).collect::<String>());
}

#[test]
fn channels_that_are_not_guild_channels() {
    let (s, _) = handle_slash_command(Some("lock"));
    assert_eq!(s.next(SlashEvent::ChannelNotGuild).1, SlashAction::Finish(Err(SlashError::NotGuildChannel)));
    let (s, a) = Operation::Hide(true).apply(10, Some("Viav - &500&10&1024&0"));
    assert_eq!(a, ApplyAction::FetchVoiceChannel { channel_id: 500 });
    assert_eq!(
        s.next(ApplyEvent::VoiceChannelNotGuild).1,
        ApplyAction::Finish(Err(ApplyError::VoiceChannelNotGuild))
    );
    assert_eq!(s.next(ApplyEvent::VoiceChannel(None)).1, ApplyAction::Finish(Err(ApplyError::VoiceChannelUnavailable)));
}

#[test]
fn voice_state_updates() {
    let h = Handler;
    let moved = h.voice_state_update(
        Some(1),
        Some(VoiceStateInfo { channel: Some(5), user: 10 }),
        VoiceStateInfo { channel: Some(6), user: 10 },
    );
    assert_eq!(moved, vec![VoiceEvent::Leave { channel: 5, user: 10 }, VoiceEvent::Join { channel: 6, user: 10 }]);
    let joined = h.voice_state_update(Some(1), None, VoiceStateInfo { channel: Some(6), user: 10 });
    assert_eq!(joined, vec![VoiceEvent::Join { channel: 6, user: 10 }]);
    let left = h.voice_state_update(
        Some(1),
        Some(VoiceStateInfo { channel: Some(5), user: 10 }),
        VoiceStateInfo { channel: None, user: 10 },
    );
    assert_eq!(left, vec![VoiceEvent::Leave { channel: 5, user: 10 }]);
    let same = h.voice_state_update(
        Some(1),
        Some(VoiceStateInfo { channel: Some(5), user: 10 }),
        VoiceStateInfo { channel: Some(5), user: 10 },
    );
    assert!(same.is_empty());
    assert!(h.voice_state_update(None, None, VoiceStateInfo { channel: Some(6), user: 10 }).is_empty());
}

#[test]
fn channel_deletions() {
    let h = Handler;
    assert_eq!(h.channel_delete(ChannelKind::Text, 600, Some("Viav - &500&10&0&0")), DeleteLookup::Delete(500));
    assert_eq!(h.channel_delete(ChannelKind::Text, 600, Some("general chat")), DeleteLookup::Ignore);
    assert_eq!(h.channel_delete(ChannelKind::Text, 600, None), DeleteLookup::Ignore);
    assert_eq!(h.channel_delete(ChannelKind::Voice, 500, None), DeleteLookup::DeleteTextChannelOf(500));
    assert_eq!(h.channel_delete(ChannelKind::Other, 500, None), DeleteLookup::Ignore);
}

#[test]
fn slash_command_flow() {
    assert_eq!(handle_slash_command(None).1, SlashAction::Finish(Ok(())));
    let (s, a) = handle_slash_command(Some("lock"));
    assert_eq!(a, SlashAction::FetchChannel);
    assert_eq!(s.next(SlashEvent::Channel(false)).1, SlashAction::Finish(Err(SlashError::ChannelUnavailable)));
    let (s, a) = s.next(SlashEvent::Channel(true));
    assert_eq!(a, SlashAction::Apply(Operation::Lock(true)));
    assert_eq!(
        s.next(SlashEvent::Applied(Err(ApplyError::LockFailed))).1,
        SlashAction::Finish(Err(SlashError::Apply(ApplyError::LockFailed)))
    );
    let (s, a) = s.next(SlashEvent::Applied(Ok(Some(Operation::Lock(true)))));
    assert_eq!(a, SlashAction::Reply(Some(Operation::Lock(true))));
    assert_eq!(s.next(SlashEvent::Completed(true)), (SlashState::Finished, SlashAction::Finish(Ok(()))));
    assert_eq!(s.next(SlashEvent::Completed(false)).1, SlashAction::Finish(Err(SlashError::ReplyFailed)));
}

#[test]
fn unknown_slash_command_reported_after_channel() {
    let (s, a) = handle_slash_command(Some("dance"));
    assert_eq!(a, SlashAction::FetchChannel);
    assert_eq!(s.next(SlashEvent::Channel(true)).1, SlashAction::Finish(Err(SlashError::UnknownCommand)));
    assert_eq!(s.next(SlashEvent::Channel(false)).1, SlashAction::Finish(Err(SlashError::ChannelUnavailable)));
}

#[test]
fn unhide_restores_everyone_overwrite_of_new_pair() {
    let voice = room();
    let plan = VoiceCreatePlan::new(77, &voice, 10, 5, 1000);
    let (s, _) = Operation::Hide(false).apply(10, Some(plan.text_channel.topic.as_str()));
    let (_, a) = s.next(ApplyEvent::VoiceChannel(Some(77)));
    assert_eq!(a, ApplyAction::SetOverwrite { channel_id: 500, overwrite: voice.overwrites[1] });

    let mut bare = room();
    bare.overwrites.clear();
    let plan = VoiceCreatePlan::new(77, &bare, 10, 5, 1000);
    let (s, _) = Operation::Hide(false).apply(10, Some(plan.text_channel.topic.as_str()));
    let (_, a) = s.next(ApplyEvent::VoiceChannel(Some(77)));
    assert_eq!(
        a,
        ApplyAction::SetOverwrite {
            channel_id: 500,
            overwrite: Overwrite { allow: 0x400, deny: 0, kind: OverwriteKind::Role(77) },
        }
    );
}
