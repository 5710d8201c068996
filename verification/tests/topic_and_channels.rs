use viav::channels::{
    controls_owner, is_user_perms, number_of_connected_users, text_to_voice, voice_to_text,
    ChannelTopic, MASTER_USER,
};
use viav::text::{decimal_string, parse_u64, parse_u64_detailed, same_text, split, ParseIntKind};
use viav::topic::{TopicData, TopicError, TopicField};

fn chars(s: &str) -> Vec<char> {
    s.chars().collect()
}

#[test]
fn topic_to_string_writes_four_fields() {
    let t = TopicData { voice_channel: 123, owner: 456, allow: 1024, deny: 0 };
    assert_eq!(t.to_string(), "&123&456&1024&0");
    assert_eq!(t.channel_topic(), "Viav - &123&456&1024&0");
}

#[test]
fn topic_round_trip() {
    let t = TopicData {
        voice_channel: 684471911920566281,
        owner: 222554302793646083,
        allow: 0x400,
        deny: 0x10_0400,
    };
    assert_eq!(TopicData::from_str(&t.to_string()), Ok(t));
    assert_eq!(TopicData::from_str(&t.channel_topic()), Ok(t));
    assert_eq!(TopicData::try_from(Some(t.channel_topic().as_str())), Ok(t));
}

#[test]
fn topic_missing_fields() {
    assert_eq!(TopicData::from_str(""), Err(TopicError::Missing(TopicField::VoiceChannel)));
    assert_eq!(TopicData::from_str("Viav"), Err(TopicError::Missing(TopicField::VoiceChannel)));
    assert_eq!(TopicData::from_str("&1"), Err(TopicError::Missing(TopicField::Owner)));
    assert_eq!(TopicData::from_str("&1&2"), Err(TopicError::Missing(TopicField::Allow)));
    assert_eq!(TopicData::from_str("&1&2&3"), Err(TopicError::Missing(TopicField::Deny)));
    assert_eq!(TopicData::try_from(None), Err(TopicError::NoTopic));
}

#[test]
fn topic_missing_field_reported_before_bad_number() {
    assert_eq!(TopicData::from_str("&x&2&3"), Err(TopicError::Missing(TopicField::Deny)));
}

#[test]
fn topic_bad_numbers() {
    assert_eq!(
        TopicData::from_str("&x&2&3&4"),
        Err(TopicError::NotANumber(TopicField::VoiceChannel, ParseIntKind::InvalidDigit))
    );
    assert_eq!(
        TopicData::from_str("&1&&3&4"),
        Err(TopicError::NotANumber(TopicField::Owner, ParseIntKind::Empty))
    );
    assert_eq!(
        TopicData::from_str("&1&2&-3&4"),
        Err(TopicError::NotANumber(TopicField::Allow, ParseIntKind::InvalidDigit))
    );
    assert_eq!(
        TopicData::from_str("&1&2&3&4 "),
        Err(TopicError::NotANumber(TopicField::Deny, ParseIntKind::InvalidDigit))
    );
    assert_eq!(
        TopicData::from_str("&18446744073709551616&2&3&4"),
        Err(TopicError::NotANumber(TopicField::VoiceChannel, ParseIntKind::PosOverflow))
    );
}

#[test]
fn topic_extra_fields_are_ignored_and_plus_is_read() {
    assert_eq!(
        TopicData::from_str("x&+5&6&7&8&9"),
        Ok(TopicData { voice_channel: 5, owner: 6, allow: 7, deny: 8 })
    );
}

#[test]
fn topic_permission_bits_are_cut_to_known_flags() {
    let t = TopicData::from_str("&1&2&18446744073709551615&2199023255552").unwrap();
    assert_eq!(t.allow, 0x1ff_ffff_ffff);
    assert_eq!(t.deny, 0);
}

#[test]
fn topic_error_messages() {
    assert_eq!(TopicError::NoTopic.message(), "No topic in channel");
    assert_eq!(TopicError::Missing(TopicField::VoiceChannel).message(), "Voice Channel");
    assert_eq!(TopicError::Missing(TopicField::Owner).message(), "Owner");
    assert_eq!(TopicError::Missing(TopicField::Allow).message(), "Allow");
    assert_eq!(TopicError::Missing(TopicField::Deny).message(), "Deny");
    assert_eq!(
        TopicError::NotANumber(TopicField::VoiceChannel, ParseIntKind::InvalidDigit).message(),
        "invalid digit found in string"
    );
    assert_eq!(
        TopicError::NotANumber(TopicField::Owner, ParseIntKind::Empty).message(),
        "cannot parse integer from empty string"
    );
    assert_eq!(
        TopicError::NotANumber(TopicField::Deny, ParseIntKind::PosOverflow).message(),
        "number too large to fit in target type"
    );
}

#[test]
fn topic_error_messages_are_std_parse_errors() {
    for (s, f) in [("&x&2&3&4", TopicField::VoiceChannel), ("&1&&3&4", TopicField::Owner), ("&1&2&99999999999999999999&4", TopicField::Allow)] {
        let field_text = s.split('&').nth(match f {
            TopicField::VoiceChannel => 1,
            TopicField::Owner => 2,
            TopicField::Allow => 3,
            TopicField::Deny => 4,
        }).unwrap();
        let std_error = field_text.parse::<u64>().unwrap_err().to_string();
        assert_eq!(TopicData::from_str(s).unwrap_err().message(), std_error, "{}", s);
    }
}

#[test]
fn parse_u64_detailed_follows_std_error_kinds() {
    for s in ["0", "7", "+7", "18446744073709551615", "18446744073709551616", "", "+", "-", "-1", "1a", " 1", "++1"] {
        let expected = match s.parse::<u64>() {
            Ok(v) => Ok(v),
            Err(e) => Err(match e.kind() {
                std::num::IntErrorKind::Empty => ParseIntKind::Empty,
                std::num::IntErrorKind::PosOverflow => ParseIntKind::PosOverflow,
                _ => ParseIntKind::InvalidDigit,
            }),
        };
        assert_eq!(parse_u64_detailed(&chars(s)), expected, "{}", s);
    }
}

#[test]
fn parse_u64_follows_std() {
    for s in ["0", "7", "+7", "007", "18446744073709551615", "18446744073709551616", "", "+", "-", "-1", "1a", " 1", "++1"] {
        assert_eq!(parse_u64(&chars(s)), s.parse::<u64>().ok(), "{}", s);
    }
}

#[test]
fn decimal_string_matches_to_string() {
    for n in [0u64, 9, 10, 99, 100, 1234567890, u64::MAX] {
        assert_eq!(decimal_string(n), n.to_string());
    }
}

#[test]
fn split_matches_std() {
    for s in ["", "&", "a&b", "&a&&b&", "Viav - &1&2&3&4", "é&ü"] {
        let expected: Vec<Vec<char>> = s.split('&').map(|p| p.chars().collect()).collect();
        assert_eq!(split(s, '&'), expected, "{}", s);
    }
}

#[test]
fn same_text_compares_characters() {
    assert!(same_text("lock", "lock"));
    assert!(!same_text("lock", "locks"));
    assert!(!same_text("lock", "lcok"));
    assert!(same_text("", ""));
}

#[test]
fn text_to_voice_reads_second_field() {
    assert_eq!(text_to_voice(Some("Viav - &123&4&5&6")), Some(123));
    assert_eq!(text_to_voice(Some("x&77")), Some(77));
    assert_eq!(text_to_voice(Some("Viav - &0&4&5&6")), None);
    assert_eq!(text_to_voice(Some("no separators")), None);
    assert_eq!(text_to_voice(Some("&abc")), None);
    assert_eq!(text_to_voice(None), None);
}

fn channel(id: u64, topic: Option<&str>) -> ChannelTopic {
    ChannelTopic { id, topic: topic.map(|t| t.to_string()) }
}

#[test]
fn voice_to_text_finds_first_match() {
    let channels = vec![
        channel(1, None),
        channel(2, Some("Viav - &99&1&0&0")),
        channel(3, Some("Viav - &42&1&0&0")),
        channel(4, Some("Viav - &42&7&0&0")),
    ];
    assert_eq!(voice_to_text(&channels, 42), Some(3));
    assert_eq!(voice_to_text(&channels, 99), Some(2));
    assert_eq!(voice_to_text(&channels, 5), None);
    assert_eq!(voice_to_text(&vec![], 5), None);
}

#[test]
fn voice_to_text_matches_zero_id() {
    let channels = vec![channel(8, Some("&0&1"))];
    assert_eq!(voice_to_text(&channels, 0), Some(8));
}

#[test]
fn connected_users_are_counted() {
    let states = vec![Some(5), None, Some(6), Some(5), Some(5)];
    assert_eq!(number_of_connected_users(Some(&states), 5), Some(3));
    assert_eq!(number_of_connected_users(Some(&states), 6), Some(1));
    assert_eq!(number_of_connected_users(Some(&states), 7), Some(0));
    assert_eq!(number_of_connected_users(None, 5), None);
}

#[test]
fn user_permissions() {
    let t = TopicData { voice_channel: 1, owner: 10, allow: 0, deny: 0 };
    assert!(is_user_perms(10, &t, None));
    assert!(is_user_perms(MASTER_USER, &t, None));
    assert!(is_user_perms(11, &t, Some(0x10)));
    assert!(is_user_perms(11, &t, Some(0x1ff_ffff_ffff)));
    assert!(!is_user_perms(11, &t, Some(0x20)));
    assert!(!is_user_perms(11, &t, Some(0)));
    assert!(!is_user_perms(11, &t, None));
}

#[test]
fn controls_owner_reads_third_field() {
    assert_eq!(controls_owner(Some("Viav - &1&2&3&4")), Some(2));
    assert_eq!(controls_owner(Some("Viav - &1")), None);
    assert_eq!(controls_owner(Some("Viav - &1&x")), None);
    assert_eq!(controls_owner(None), None);
}
