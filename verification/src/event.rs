use vstd::prelude::*;
use crate::types::{ChannelId, GuildId, LogType, UserId};

verus! {

/// A user as the classifier sees one: plain values read off the platform's
/// user object by the caller before the event enters the pipeline.
pub struct UserInfo {
    pub id: UserId,
    /// Account username.
    pub name: String,
    /// Whether the account is an automated/bot account.
    pub bot: bool,
    /// Guild nickname, when the event carried member data holding one.
    pub nick: Option<String>,
    /// Account-wide display name, when the user set one.
    pub global_name: Option<String>,
    /// URL of the avatar the user uploaded, when there is one.
    pub avatar_url: Option<String>,
    /// Fallback avatar URL every account has.
    pub default_avatar_url: String,
    /// Account creation time, seconds since the epoch.
    pub created_at: u64,
}

/// A message snapshot as the local cache holds it.
pub struct CachedMessage {
    pub author: UserInfo,
    pub channel_id: ChannelId,
    pub guild_id: Option<GuildId>,
    pub content: String,
    /// URLs of the message's attachments, in attachment order.
    pub attachment_urls: Vec<String>,
    /// Permalink to the message.
    pub link: String,
}

/// A guild-member snapshot.
pub struct MemberInfo {
    pub user: UserInfo,
    pub guild_id: GuildId,
    /// When the member joined, seconds since the epoch, when known.
    pub joined_at: Option<u64>,
}

/// One inbound gateway event, as plain values. Snapshots are `None` where
/// the local cache had nothing for the event.
pub enum LogEvent {
    MessageDelete { guild_id: Option<GuildId>, cached: Option<CachedMessage> },
    MessageUpdate { old: Option<CachedMessage>, new: Option<CachedMessage> },
    MemberAdd { member: MemberInfo },
    MemberRemove { guild_id: GuildId, user: UserInfo, member: Option<MemberInfo> },
    /// Classified but intentionally never notified.
    MemberUpdate { old_available: bool },
    /// Any event kind the pipeline does not log.
    Other,
}

/// Accent colour of a notification embed, one per event kind.
#[derive(Clone, Copy, PartialEq, Eq, Structural, Debug)]
pub enum AccentColour {
    Red,
    FadedPurple,
    DarkGreen,
    DarkRed,
}

/// One name/value field of an embed, with its inline flag.
pub struct EmbedField {
    pub name: String,
    pub value: String,
    pub inline: bool,
}

/// The primary message payload: author line, accent colour, descriptive
/// text and fields. The platform's builder renders it outside the library.
pub struct EmbedModel {
    pub author_name: String,
    pub author_icon_url: String,
    pub colour: AccentColour,
    pub description: String,
    pub fields: Vec<EmbedField>,
}

/// A follow-up payload: an optional line of text plus attachment URLs
/// whose bytes are refetched and attached at delivery time. It is sent
/// referencing the primary message, with mention pings suppressed.
pub struct FollowupDraft {
    pub content: Option<String>,
    pub attachment_urls: Vec<String>,
}

/// An in-memory, not-yet-sent notification: the primary payload and its
/// follow-ups in sending order.
pub struct NotificationDraft {
    pub embed: EmbedModel,
    pub followups: Vec<FollowupDraft>,
}

/// A classified event: the draft plus the routing key it is delivered by.
pub struct Classified {
    pub draft: NotificationDraft,
    pub log_type: LogType,
    pub guild_id: GuildId,
}

} // verus!
