use vstd::prelude::*;

verus! {

/// Platform-assigned identifier of a guild (a server/workspace grouping).
/// Identifiers are opaque: nothing is assumed of them beyond equality and
/// a stable decimal rendering.
#[derive(Clone, Copy, PartialEq, Eq, Structural, Debug, Hash)]
pub struct GuildId(pub u64);

/// Platform-assigned identifier of a text channel.
#[derive(Clone, Copy, PartialEq, Eq, Structural, Debug, Hash)]
pub struct ChannelId(pub u64);

/// Platform-assigned identifier of a user account.
#[derive(Clone, Copy, PartialEq, Eq, Structural, Debug, Hash)]
pub struct UserId(pub u64);

/// The classification bucket a loggable event is filed under. Each guild
/// routes each category to its own destination channel (or to none).
#[derive(Clone, Copy, PartialEq, Eq, Structural, Debug)]
pub enum LogType {
    Member,
    Chat,
    Server,
}

/// Column name of the configuration row field that stores the destination
/// for this category.
pub open spec fn spec_column_name(t: LogType) -> Seq<char> {
    match t {
        LogType::Member => "member_logs"@,
        LogType::Chat => "chat_logs"@,
        LogType::Server => "server_logs"@,
    }
}

/// Human-readable name of the category.
pub open spec fn spec_log_type_name(t: LogType) -> Seq<char> {
    match t {
        LogType::Member => "Member Logs"@,
        LogType::Chat => "Chat Logs"@,
        LogType::Server => "Server Logs"@,
    }
}

impl LogType {
    pub fn as_column_name(&self) -> (r: &str)
        ensures
            r@ == spec_column_name(*self),
    {
        match self {
            LogType::Member => "member_logs",
            LogType::Chat => "chat_logs",
            LogType::Server => "server_logs",
        }
    }

    pub fn to_string(&self) -> (r: String)
        ensures
            r@ == spec_log_type_name(*self),
    {
        let s: &str = match self {
            LogType::Member => "Member Logs",
            LogType::Chat => "Chat Logs",
            LogType::Server => "Server Logs",
        };
        s.to_owned()
    }
}

} // verus!
