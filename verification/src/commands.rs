use vstd::prelude::*;
use vstd::string::StringExecFns;
use crate::config::{
    spec_insert_default, spec_row, spec_set, LogChannelTable, LogChannels,
};
use crate::text::{spec_decimal, u64_to_string};
use crate::types::{spec_log_type_name, ChannelId, GuildId, LogType};

verus! {

/// How one configured destination is listed: a channel mention, or the
/// word "None" when the category is unset.
pub open spec fn spec_channel_entry(c: Option<ChannelId>) -> Seq<char> {
    match c {
        Some(id) => "<#"@ + spec_decimal(id.0 as nat) + ">"@,
        None => "None"@,
    }
}

fn channel_entry(c: Option<ChannelId>) -> (r: String)
    ensures
        r@ == spec_channel_entry(c),
{
    match c {
        Some(id) => {
            let mut s = "<#".to_owned();
            s.append(u64_to_string(id.0).as_str());
            s.append(">");
            s
        },
        None => "None".to_owned(),
    }
}

/// The reply of the `set` command: what was unset, or where the category
/// now goes.
pub open spec fn spec_set_reply(t: LogType, c: Option<ChannelId>) -> Seq<char> {
    match c {
        None => "Unset "@ + spec_log_type_name(t),
        Some(id) => spec_log_type_name(t) + " will now be sent to <#"@ + spec_decimal(id.0 as nat)
            + ">"@,
    }
}

/// The reply of the `list` command: every category's destination for the
/// guild, one line each.
pub open spec fn spec_list_reply(guild_name: Seq<char>, row: LogChannels) -> Seq<char> {
    "Log channels for "@ + guild_name + "\nMember logs: "@ + spec_channel_entry(row.member_logs)
        + "\nChat logs: "@ + spec_channel_entry(row.chat_logs) + "\nServer logs: "@
        + spec_channel_entry(row.server_logs)
}

/// The guild-scoped `set` command: upserts the one field of the invoking
/// guild's row that belongs to the category (lazily creating the row), and
/// returns the reply text. Passing no channel unsets the category.
pub fn set_command(
    table: &mut LogChannelTable,
    guild_id: GuildId,
    log_type: LogType,
    channel: Option<ChannelId>,
) -> (r: String)
    requires
        old(table).well_formed(),
    ensures
        final(table).well_formed(),
        final(table).rows@ == spec_set(old(table).rows@, guild_id, log_type, channel),
        r@ == spec_set_reply(log_type, channel),
{
    table.set_channel(guild_id, log_type, channel);
    match channel {
        None => {
            let mut s = "Unset ".to_owned();
            s.append(log_type.to_string().as_str());
            s
        },
        Some(id) => {
            let mut s = log_type.to_string();
            s.append(" will now be sent to <#");
            s.append(u64_to_string(id.0).as_str());
            s.append(">");
            s
        },
    }
}

/// The guild-scoped `list` command: reads the invoking guild's row,
/// lazily creating an all-unset one when absent, and renders all three
/// category mappings. The guild's display name is supplied by the caller.
pub fn list_command(table: &mut LogChannelTable, guild_id: GuildId, guild_name: &str) -> (r:
    String)
    requires
        old(table).well_formed(),
    ensures
        final(table).well_formed(),
        final(table).rows@ == spec_insert_default(old(table).rows@, guild_id),
        r@ == spec_list_reply(guild_name@, spec_row(final(table).rows@, guild_id)),
{
    let row = table.get_or_create(guild_id);
    let mut s = "Log channels for ".to_owned();
    s.append(guild_name);
    s.append("\nMember logs: ");
    s.append(channel_entry(row.member_logs()).as_str());
    s.append("\nChat logs: ");
    s.append(channel_entry(row.chat_logs()).as_str());
    s.append("\nServer logs: ");
    s.append(channel_entry(row.server_logs()).as_str());
    s
}

} // verus!
