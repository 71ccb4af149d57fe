use modlog::classify::{base_embed, classify, display_name};
use modlog::config::LogChannelTable;
use modlog::event::{
    AccentColour, CachedMessage, LogEvent, MemberInfo, UserInfo,
};
use modlog::route::{route, NoLogChannelSet};
use modlog::types::{ChannelId, GuildId, LogType, UserId};

fn user(id: u64, name: &str, bot: bool) -> UserInfo {
    UserInfo {
        id: UserId(id),
        name: name.to_string(),
        bot,
        nick: None,
        global_name: None,
        avatar_url: None,
        default_avatar_url: "https://cdn.example/default.png".to_string(),
        created_at: 1600000000,
    }
}

fn msg(author: UserInfo, channel: u64, guild: Option<u64>, content: &str, urls: &[&str]) -> CachedMessage {
    CachedMessage {
        author,
        channel_id: ChannelId(channel),
        guild_id: guild.map(GuildId),
        content: content.to_string(),
        attachment_urls: urls.iter().map(|s| s.to_string()).collect(),
        link: "https://chat.example/1/2/3".to_string(),
    }
}

#[test]
fn display_name_with_nickname() {
    let mut u = user(5, "alice", false);
    u.nick = Some("Ali".to_string());
    u.global_name = Some("Alice G".to_string());
    assert_eq!(display_name(&u), "@alice (Ali)");
}

#[test]
fn display_name_with_global_name_only() {
    let mut u = user(5, "alice", false);
    u.global_name = Some("Alice G".to_string());
    assert_eq!(display_name(&u), "@alice (Alice G)");
}

#[test]
fn display_name_bare() {
    assert_eq!(display_name(&user(5, "alice", false)), "@alice");
}

#[test]
fn base_embed_falls_back_to_default_avatar() {
    let u = user(5, "alice", false);
    let e = base_embed(&u);
    assert_eq!(e.author_icon_url, "https://cdn.example/default.png");
    let mut u2 = user(5, "alice", false);
    u2.avatar_url = Some("https://cdn.example/alice.png".to_string());
    let e2 = base_embed(&u2);
    assert_eq!(e2.author_icon_url, "https://cdn.example/alice.png");
}

#[test]
fn bot_authored_delete_is_suppressed() {
    let m = msg(user(5, "robot", true), 30, Some(1), "beep", &["https://u/a.png"]);
    let event = LogEvent::MessageDelete { guild_id: Some(GuildId(1)), cached: Some(m) };
    assert!(classify(&event, 1700000000).is_none());
}

#[test]
fn uncached_delete_is_suppressed() {
    let event = LogEvent::MessageDelete { guild_id: Some(GuildId(1)), cached: None };
    assert!(classify(&event, 1700000000).is_none());
}

#[test]
fn delete_outside_guild_is_suppressed() {
    let m = msg(user(5, "alice", false), 30, None, "hello", &[]);
    let event = LogEvent::MessageDelete { guild_id: None, cached: Some(m) };
    assert!(classify(&event, 1700000000).is_none());
}

#[test]
fn deleted_message_scenario_delivers_to_chat_channel() {
    let mut table = LogChannelTable::new();
    table.set_channel(GuildId(1), LogType::Chat, Some(ChannelId(7)));
    let m = msg(user(5, "alice", false), 30, Some(1), "hello", &[]);
    let event = LogEvent::MessageDelete { guild_id: Some(GuildId(1)), cached: Some(m) };
    let c = classify(&event, 1700000000).expect("a human-authored cached delete is loggable");
    assert_eq!(c.log_type, LogType::Chat);
    assert_eq!(c.guild_id, GuildId(1));
    let plan = route(&table, c).expect("chat is configured");
    assert_eq!(plan.channel, ChannelId(7));
    assert_eq!(plan.draft.embed.colour, AccentColour::Red);
    assert_eq!(
        plan.draft.embed.description,
        "A message by <@5> (**alice**) was deleted in <#30>."
    );
    assert_eq!(plan.draft.embed.fields.len(), 2);
    assert_eq!(plan.draft.embed.fields[0].name, "Content");
    assert_eq!(plan.draft.embed.fields[0].value, "hello");
    assert!(!plan.draft.embed.fields[0].inline);
    assert_eq!(plan.draft.embed.fields[1].name, "Timestamp");
    assert_eq!(plan.draft.embed.fields[1].value, "<t:1700000000>");
    assert!(plan.draft.followups.is_empty());
}

#[test]
fn deleted_empty_message_shows_placeholder() {
    let m = msg(user(5, "alice", false), 30, Some(1), "", &[]);
    let event = LogEvent::MessageDelete { guild_id: Some(GuildId(1)), cached: Some(m) };
    let c = classify(&event, 1700000000).unwrap();
    assert_eq!(c.draft.embed.fields[0].value, "None");
}

#[test]
fn deleted_message_with_attachments_gets_count_and_followup() {
    let urls = ["https://u/a.png", "https://u/b.png"];
    let m = msg(user(5, "alice", false), 30, Some(1), "pics", &urls);
    let event = LogEvent::MessageDelete { guild_id: Some(GuildId(1)), cached: Some(m) };
    let c = classify(&event, 1700000000).unwrap();
    assert_eq!(c.draft.embed.fields.len(), 3);
    assert_eq!(c.draft.embed.fields[2].name, "No. Attachments");
    assert_eq!(c.draft.embed.fields[2].value, "2");
    assert_eq!(c.draft.followups.len(), 1);
    assert_eq!(c.draft.followups[0].content, None);
    assert_eq!(c.draft.followups[0].attachment_urls, urls.map(String::from).to_vec());
}

#[test]
fn edit_changing_content_only_has_no_followups() {
    let old = msg(user(5, "alice", false), 30, Some(1), "first", &[]);
    let new = msg(user(5, "alice", false), 30, Some(1), "second", &[]);
    let event = LogEvent::MessageUpdate { old: Some(old), new: Some(new) };
    let c = classify(&event, 1700000000).expect("content changed");
    assert_eq!(c.log_type, LogType::Chat);
    assert_eq!(c.draft.embed.colour, AccentColour::FadedPurple);
    assert_eq!(
        c.draft.embed.description,
        "<@5> (**alice**) updated their message in <#30>.\n [Jump to message](https://chat.example/1/2/3)"
    );
    assert_eq!(c.draft.embed.fields.len(), 3);
    assert_eq!(c.draft.embed.fields[0].name, "New");
    assert_eq!(c.draft.embed.fields[0].value, "second");
    assert_eq!(c.draft.embed.fields[1].name, "Previous");
    assert_eq!(c.draft.embed.fields[1].value, "first");
    assert_eq!(c.draft.embed.fields[2].name, "Timestamp");
    assert!(c.draft.followups.is_empty());
}

#[test]
fn edit_adding_one_attachment_gets_one_followup() {
    let old = msg(user(5, "alice", false), 30, Some(1), "same", &[]);
    let new = msg(user(5, "alice", false), 30, Some(1), "same", &["https://u/new.png"]);
    let event = LogEvent::MessageUpdate { old: Some(old), new: Some(new) };
    let c = classify(&event, 1700000000).expect("attachment set changed");
    assert!(c.draft.embed.description.ends_with(
        "\n\n Message content hasn't changed. Check followup message(s) for attachment changes."
    ));
    assert_eq!(c.draft.embed.fields.len(), 2);
    assert_eq!(c.draft.embed.fields[0].name, "Timestamp");
    assert_eq!(c.draft.embed.fields[1].name, "Attachments");
    assert_eq!(c.draft.embed.fields[1].value, "**Removed**: 0 | **Added**: 1");
    assert_eq!(c.draft.followups.len(), 1);
    assert_eq!(c.draft.followups[0].content.as_deref(), Some("Added 1 attachment:"));
    assert_eq!(c.draft.followups[0].attachment_urls, vec!["https://u/new.png".to_string()]);
}

#[test]
fn edit_removing_attachments_gets_removed_followup() {
    let old = msg(user(5, "alice", false), 30, Some(1), "same", &["https://u/a.png", "https://u/b.png"]);
    let new = msg(user(5, "alice", false), 30, Some(1), "same", &[]);
    let event = LogEvent::MessageUpdate { old: Some(old), new: Some(new) };
    let c = classify(&event, 1700000000).unwrap();
    assert_eq!(c.draft.followups.len(), 1);
    assert_eq!(c.draft.followups[0].content.as_deref(), Some("Removed 2 attachments:"));
    assert_eq!(c.draft.embed.fields[1].value, "**Removed**: 2 | **Added**: 0");
}

#[test]
fn edit_changing_nothing_is_suppressed() {
    let old = msg(user(5, "alice", false), 30, Some(1), "same", &["https://u/a.png"]);
    let new = msg(user(5, "alice", false), 30, Some(1), "same", &["https://u/a.png"]);
    let event = LogEvent::MessageUpdate { old: Some(old), new: Some(new) };
    assert!(classify(&event, 1700000000).is_none());
}

#[test]
fn edit_by_bot_is_suppressed() {
    let old = msg(user(5, "robot", true), 30, Some(1), "a", &[]);
    let new = msg(user(5, "robot", true), 30, Some(1), "b", &[]);
    let event = LogEvent::MessageUpdate { old: Some(old), new: Some(new) };
    assert!(classify(&event, 1700000000).is_none());
}

#[test]
fn edit_without_old_snapshot_is_suppressed() {
    let new = msg(user(5, "alice", false), 30, Some(1), "b", &[]);
    let event = LogEvent::MessageUpdate { old: None, new: Some(new) };
    assert!(classify(&event, 1700000000).is_none());
}

#[test]
fn member_join_reports_both_timestamps() {
    let member = MemberInfo {
        user: user(8, "bob", false),
        guild_id: GuildId(4),
        joined_at: Some(1700000100),
    };
    let event = LogEvent::MemberAdd { member };
    let c = classify(&event, 1700000200).expect("join with a join time is loggable");
    assert_eq!(c.log_type, LogType::Member);
    assert_eq!(c.guild_id, GuildId(4));
    assert_eq!(c.draft.embed.colour, AccentColour::DarkGreen);
    assert_eq!(c.draft.embed.description, "<@8> (bob) joined.");
    assert_eq!(c.draft.embed.fields.len(), 2);
    assert_eq!(c.draft.embed.fields[0].value, "<t:1700000100:R>");
    assert_eq!(c.draft.embed.fields[1].value, "<t:1600000000:R>");
    assert!(c.draft.followups.is_empty());
}

#[test]
fn member_leave_without_snapshot_is_suppressed() {
    let event = LogEvent::MemberRemove {
        guild_id: GuildId(4),
        user: user(8, "bob", false),
        member: None,
    };
    assert!(classify(&event, 1700000200).is_none());
}

#[test]
fn member_leave_reports_left_at_processing_time() {
    let member = MemberInfo {
        user: user(8, "bob", false),
        guild_id: GuildId(4),
        joined_at: Some(1700000100),
    };
    let event = LogEvent::MemberRemove {
        guild_id: GuildId(4),
        user: user(8, "bob", false),
        member: Some(member),
    };
    let c = classify(&event, 1700000300).unwrap();
    assert_eq!(c.draft.embed.colour, AccentColour::DarkRed);
    assert_eq!(c.draft.embed.description, "<@8> (bob) left.");
    assert_eq!(c.draft.embed.fields.len(), 3);
    assert_eq!(c.draft.embed.fields[2].name, "Left At");
    assert_eq!(c.draft.embed.fields[2].value, "<t:1700000300:R>");
}

#[test]
fn member_profile_update_is_suppressed() {
    let event = LogEvent::MemberUpdate { old_available: true };
    assert!(classify(&event, 1700000000).is_none());
}

#[test]
fn unhandled_events_are_suppressed() {
    assert!(classify(&LogEvent::Other, 1700000000).is_none());
}

#[test]
fn routing_after_set_and_after_unset() {
    let mut table = LogChannelTable::new();
    table.set_channel(GuildId(1), LogType::Chat, Some(ChannelId(42)));
    let make_event = || {
        let m = msg(user(5, "alice", false), 30, Some(1), "hello", &[]);
        LogEvent::MessageDelete { guild_id: Some(GuildId(1)), cached: Some(m) }
    };
    let c = classify(&make_event(), 1700000000).unwrap();
    let plan = route(&table, c).expect("configured");
    assert_eq!(plan.channel, ChannelId(42));

    table.set_channel(GuildId(1), LogType::Chat, None);
    let c = classify(&make_event(), 1700000000).unwrap();
    let err = match route(&table, c) {
        Ok(_) => panic!("routing must fail after the channel is unset"),
        Err(e) => e,
    };
    assert_eq!(err, NoLogChannelSet { log_type: LogType::Chat, guild_id: GuildId(1) });
    assert_eq!(err.to_string(), "No Chat Logs channel set for guild 1");
}
