use vstd::prelude::*;
use vstd::string::StringExecFns;
use crate::config::{spec_fetch, LogChannelTable};
use crate::event::{Classified, NotificationDraft};
use crate::text::{spec_decimal, u64_to_string};
use crate::types::{spec_log_type_name, ChannelId, GuildId, LogType};

verus! {

/// Typed routing failure: the guild has no destination channel configured
/// for the category. It is reported upward, never retried; the event's
/// notification is simply lost.
#[derive(Clone, Copy, PartialEq, Eq, Structural, Debug)]
pub struct NoLogChannelSet {
    pub log_type: LogType,
    pub guild_id: GuildId,
}

pub open spec fn spec_no_channel_message(e: NoLogChannelSet) -> Seq<char> {
    "No "@ + spec_log_type_name(e.log_type) + " channel set for guild "@ + spec_decimal(
        e.guild_id.0 as nat,
    )
}

impl NoLogChannelSet {
    /// Human-readable rendering for the error sink.
    pub fn to_string(&self) -> (r: String)
        ensures
            r@ == spec_no_channel_message(*self),
    {
        let mut s = "No ".to_owned();
        s.append(self.log_type.to_string().as_str());
        s.append(" channel set for guild ");
        s.append(u64_to_string(self.guild_id.0).as_str());
        s
    }
}

/// Everything the delivery step needs: the destination channel, the
/// primary payload, and the follow-ups in sending order. Follow-ups are
/// sent after the primary, each referencing it, and a failure on any of
/// them abandons the rest.
pub struct DeliveryPlan {
    pub channel: ChannelId,
    pub draft: NotificationDraft,
}

/// Resolves a classified event to its destination. When the guild has a
/// channel configured for the category, the plan sends the draft there
/// unchanged; otherwise the typed no-destination failure is returned
/// instead of anything being sent.
pub fn route(table: &LogChannelTable, c: Classified) -> (r: Result<DeliveryPlan, NoLogChannelSet>)
    requires
        table.well_formed(),
    ensures
        match spec_fetch(table.rows@, c.guild_id, c.log_type) {
            Some(ch) => r matches Ok(p) && p.channel == ch && p.draft == c.draft,
            None => r matches Err(e) && e == (NoLogChannelSet {
                log_type: c.log_type,
                guild_id: c.guild_id,
            }),
        },
{
    let channel = c.log_type.fetch_channel(table, c.guild_id);
    match channel {
        Some(ch) => Ok(DeliveryPlan { channel: ch, draft: c.draft }),
        None => Err(NoLogChannelSet { log_type: c.log_type, guild_id: c.guild_id }),
    }
}

} // verus!
