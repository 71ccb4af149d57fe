use vstd::prelude::*;
use vstd::string::StringExecFns;
use crate::diff::{asymmetric_diff, distinct_strs, spec_added, spec_removed, str_set};
use crate::event::{
    AccentColour, CachedMessage, Classified, EmbedField, EmbedModel, FollowupDraft, LogEvent,
    MemberInfo, NotificationDraft, UserInfo,
};
use crate::text::{
    clone_strings, pluralize, relative_tag, spec_decimal, spec_relative_tag, spec_timestamp_tag,
    timestamp_tag, u64_to_string,
};
use crate::types::{GuildId, LogType};

verus! {

/// The nickname shown beside the username: the guild nickname when there
/// is one, else the account-wide display name.
pub open spec fn spec_effective_nick(u: UserInfo) -> Option<String> {
    if u.nick is Some {
        u.nick
    } else {
        u.global_name
    }
}

/// "@{username}", with " ({nickname})" appended when a nickname or
/// account-wide display name exists.
pub open spec fn spec_display_name(u: UserInfo) -> Seq<char> {
    match spec_effective_nick(u) {
        Some(n) => "@"@ + u.name@ + " ("@ + n@ + ")"@,
        None => "@"@ + u.name@,
    }
}

/// The user's avatar URL, falling back to the default avatar.
pub open spec fn spec_icon_url(u: UserInfo) -> Seq<char> {
    match u.avatar_url {
        Some(a) => a@,
        None => u.default_avatar_url@,
    }
}

/// Computes the name shown for a user in a notification's author line.
pub fn display_name(user: &UserInfo) -> (r: String)
    ensures
        r@ == spec_display_name(*user),
{
    let mut name = "@".to_owned();
    name.append(user.name.as_str());
    let nick: Option<&String> = match &user.nick {
        Some(n) => Some(n),
        None => match &user.global_name {
            Some(g) => Some(g),
            None => None,
        },
    };
    match nick {
        Some(n) => {
            name.append(" (");
            name.append(n.as_str());
            name.append(")");
        },
        None => {},
    }
    name
}

/// The embed every notification starts from: the author line for the user
/// the event is about, with nothing else filled in yet.
pub fn base_embed(user: &UserInfo) -> (r: EmbedModel)
    ensures
        r.author_name@ == spec_display_name(*user),
        r.author_icon_url@ == spec_icon_url(*user),
        r.colour == AccentColour::Red,
        r.description@ == Seq::<char>::empty(),
        r.fields@.len() == 0,
{
    let icon = match &user.avatar_url {
        Some(a) => a.clone(),
        None => user.default_avatar_url.clone(),
    };
    EmbedModel {
        author_name: display_name(user),
        author_icon_url: icon,
        colour: AccentColour::Red,
        description: String::new(),
        fields: Vec::new(),
    }
}

/// The content shown for a deleted message: verbatim, or the literal
/// placeholder when the original content was empty.
pub open spec fn spec_shown_content(content: String) -> Seq<char> {
    if content@.len() == 0 {
        "None"@
    } else {
        content@
    }
}

pub open spec fn spec_delete_description(m: CachedMessage) -> Seq<char> {
    "A message by <@"@ + spec_decimal(m.author.id.0 as nat) + "> (**"@ + m.author.name@
        + "**) was deleted in <#"@ + spec_decimal(m.channel_id.0 as nat) + ">."@
}

pub open spec fn spec_field(f: EmbedField, name: Seq<char>, value: Seq<char>, inline: bool) -> bool {
    f.name@ == name && f.value@ == value && f.inline == inline
}

/// What the notification for a deleted message holds.
pub open spec fn spec_delete_classified(c: Classified, m: CachedMessage, g: GuildId, now: u64) -> bool {
    &&& c.log_type == LogType::Chat
    &&& c.guild_id == g
    &&& c.draft.embed.colour == AccentColour::Red
    &&& c.draft.embed.author_name@ == spec_display_name(m.author)
    &&& c.draft.embed.author_icon_url@ == spec_icon_url(m.author)
    &&& c.draft.embed.description@ == spec_delete_description(m)
    &&& spec_field(c.draft.embed.fields@[0], "Content"@, spec_shown_content(m.content), false)
    &&& spec_field(c.draft.embed.fields@[1], "Timestamp"@, spec_timestamp_tag(now as nat), true)
    &&& if m.attachment_urls@.len() == 0 {
        c.draft.embed.fields@.len() == 2 && c.draft.followups@.len() == 0
    } else {
        &&& c.draft.embed.fields@.len() == 3
        &&& spec_field(
            c.draft.embed.fields@[2],
            "No. Attachments"@,
            spec_decimal(m.attachment_urls@.len()),
            true,
        )
        &&& c.draft.followups@.len() == 1
        &&& c.draft.followups@[0].content is None
        &&& c.draft.followups@[0].attachment_urls@ == m.attachment_urls@
    }
}

fn classify_delete(g: GuildId, m: &CachedMessage, now: u64) -> (r: Classified)
    requires
        !m.author.bot,
    ensures
        spec_delete_classified(r, *m, g, now),
{
    let mut embed = base_embed(&m.author);
    let mut d = "A message by <@".to_owned();
    d.append(u64_to_string(m.author.id.0).as_str());
    d.append("> (**");
    d.append(m.author.name.as_str());
    d.append("**) was deleted in <#");
    d.append(u64_to_string(m.channel_id.0).as_str());
    d.append(">.");
    embed.description = d;

    let content_shown = if m.content.as_str().is_empty() {
        "None".to_owned()
    } else {
        m.content.clone()
    };
    let mut fields: Vec<EmbedField> = Vec::new();
    fields.push(EmbedField { name: "Content".to_owned(), value: content_shown, inline: false });
    fields.push(
        EmbedField { name: "Timestamp".to_owned(), value: timestamp_tag(now), inline: true },
    );
    let mut followups: Vec<FollowupDraft> = Vec::new();
    if m.attachment_urls.len() > 0 {
        fields.push(
            EmbedField {
                name: "No. Attachments".to_owned(),
                value: u64_to_string(m.attachment_urls.len() as u64),
                inline: true,
            },
        );
        followups.push(
            FollowupDraft { content: None, attachment_urls: clone_strings(&m.attachment_urls) },
        );
    }
    embed.fields = fields;
    Classified {
        draft: NotificationDraft { embed, followups },
        log_type: LogType::Chat,
        guild_id: g,
    }
}

pub open spec fn spec_update_base_description(newm: CachedMessage) -> Seq<char> {
    "<@"@ + spec_decimal(newm.author.id.0 as nat) + "> (**"@ + newm.author.name@
        + "**) updated their message in <#"@ + spec_decimal(newm.channel_id.0 as nat)
        + ">.\n [Jump to message]("@ + newm.link@ + ")"@
}

pub open spec fn spec_update_description(newm: CachedMessage, content_changed: bool) -> Seq<char> {
    if content_changed {
        spec_update_base_description(newm)
    } else {
        spec_update_base_description(newm)
            + "\n\n Message content hasn't changed. Check followup message(s) for attachment changes."@
    }
}

/// "Added {n} attachment(s):" — the line of the follow-up carrying added files.
pub open spec fn spec_added_line(n: nat) -> Seq<char> {
    "Added "@ + spec_decimal(n) + " "@ + (if n == 1 {
        "attachment"@
    } else {
        "attachments"@
    }) + ":"@
}

/// "Removed {n} attachment(s):" — the line of the follow-up carrying removed files.
pub open spec fn spec_removed_line(n: nat) -> Seq<char> {
    "Removed "@ + spec_decimal(n) + " "@ + (if n == 1 {
        "attachment"@
    } else {
        "attachments"@
    }) + ":"@
}

/// The inline field summarising how many attachments changed.
pub open spec fn spec_attachments_line(removed: nat, added: nat) -> Seq<char> {
    "**Removed**: "@ + spec_decimal(removed) + " | **Added**: "@ + spec_decimal(added)
}

/// An edit is suppressed entirely when neither the text nor the attachment
/// set changed.
pub open spec fn spec_update_suppressed(oldm: CachedMessage, newm: CachedMessage) -> bool {
    oldm.content@ == newm.content@ && str_set(oldm.attachment_urls@) == str_set(
        newm.attachment_urls@,
    )
}

/// What the notification for an edited message holds.
pub open spec fn spec_update_classified(
    c: Classified,
    oldm: CachedMessage,
    newm: CachedMessage,
    g: GuildId,
    now: u64,
) -> bool {
    let changed = oldm.content@ != newm.content@;
    let could = oldm.attachment_urls@.len() > 0 || newm.attachment_urls@.len() > 0;
    let addset = spec_added(oldm.attachment_urls@, newm.attachment_urls@);
    let remset = spec_removed(oldm.attachment_urls@, newm.attachment_urls@);
    let fields = c.draft.embed.fields@;
    &&& c.log_type == LogType::Chat
    &&& c.guild_id == g
    &&& c.draft.embed.colour == AccentColour::FadedPurple
    &&& c.draft.embed.author_name@ == spec_display_name(oldm.author)
    &&& c.draft.embed.author_icon_url@ == spec_icon_url(oldm.author)
    &&& c.draft.embed.description@ == spec_update_description(newm, changed)
    &&& if changed {
        &&& spec_field(fields[0], "New"@, newm.content@, false)
        &&& spec_field(fields[1], "Previous"@, oldm.content@, false)
        &&& spec_field(fields[2], "Timestamp"@, spec_timestamp_tag(now as nat), true)
        &&& if could {
            fields.len() == 4 && spec_field(
                fields[3],
                "Attachments"@,
                spec_attachments_line(remset.len(), addset.len()),
                true,
            )
        } else {
            fields.len() == 3
        }
    } else {
        &&& spec_field(fields[0], "Timestamp"@, spec_timestamp_tag(now as nat), true)
        &&& if could {
            fields.len() == 2 && spec_field(
                fields[1],
                "Attachments"@,
                spec_attachments_line(remset.len(), addset.len()),
                true,
            )
        } else {
            fields.len() == 1
        }
    }
    &&& c.draft.followups@.len() == (if addset.len() > 0 {
        1int
    } else {
        0int
    }) + (if remset.len() > 0 {
        1int
    } else {
        0int
    })
    &&& addset.len() > 0 ==> {
        let f = c.draft.followups@[0];
        &&& f.content matches Some(s) && s@ == spec_added_line(addset.len())
        &&& str_set(f.attachment_urls@) == addset
        &&& distinct_strs(f.attachment_urls@)
        &&& f.attachment_urls@.len() == addset.len()
    }
    &&& remset.len() > 0 ==> {
        let f = c.draft.followups@[if addset.len() > 0 {
            1int
        } else {
            0int
        }];
        &&& f.content matches Some(s) && s@ == spec_removed_line(remset.len())
        &&& str_set(f.attachment_urls@) == remset
        &&& distinct_strs(f.attachment_urls@)
        &&& f.attachment_urls@.len() == remset.len()
    }
}

fn classify_update(oldm: &CachedMessage, newm: &CachedMessage, g: GuildId, now: u64) -> (r: Option<
    Classified,
>)
    requires
        !oldm.author.bot,
    ensures
        r is None <==> spec_update_suppressed(*oldm, *newm),
        r matches Some(c) ==> spec_update_classified(c, *oldm, *newm, g, now),
{
    let content_changed = !oldm.content.eq(&newm.content);
    let could = oldm.attachment_urls.len() > 0 || newm.attachment_urls.len() > 0;
    let d = asymmetric_diff(
        clone_strings(&oldm.attachment_urls),
        clone_strings(&newm.attachment_urls),
    );
    let ghost ourls = oldm.attachment_urls@;
    let ghost nurls = newm.attachment_urls@;

    if !content_changed && d.added.len() == 0 && d.removed.len() == 0 {
        proof {
            assert(str_set(d.added@) =~= Set::<Seq<char>>::empty());
            assert(str_set(d.removed@) =~= Set::<Seq<char>>::empty());
            assert forall|s: Seq<char>|
                str_set(ourls).contains(s) == str_set(nurls).contains(s) by {
                if str_set(nurls).contains(s) && !str_set(ourls).contains(s) {
                    assert(spec_added(ourls, nurls).contains(s));
                }
                if str_set(ourls).contains(s) && !str_set(nurls).contains(s) {
                    assert(spec_removed(ourls, nurls).contains(s));
                }
            }
            assert(str_set(ourls) =~= str_set(nurls));
        }
        return None;
    }
    proof {
        if !content_changed {
            if d.added@.len() > 0 {
                assert(str_set(d.added@).contains(d.added@[0]@));
            } else {
                assert(str_set(d.removed@).contains(d.removed@[0]@));
            }
            assert(str_set(ourls) != str_set(nurls));
        }
    }

    let mut embed = base_embed(&oldm.author);
    embed.colour = AccentColour::FadedPurple;
    let mut desc = "<@".to_owned();
    desc.append(u64_to_string(newm.author.id.0).as_str());
    desc.append("> (**");
    desc.append(newm.author.name.as_str());
    desc.append("**) updated their message in <#");
    desc.append(u64_to_string(newm.channel_id.0).as_str());
    desc.append(">.\n [Jump to message](");
    desc.append(newm.link.as_str());
    desc.append(")");
    if !content_changed {
        desc.append(
            "\n\n Message content hasn't changed. Check followup message(s) for attachment changes.",
        );
    }
    embed.description = desc;

    let mut fields: Vec<EmbedField> = Vec::new();
    if content_changed {
        fields.push(EmbedField { name: "New".to_owned(), value: newm.content.clone(), inline: false });
        fields.push(
            EmbedField { name: "Previous".to_owned(), value: oldm.content.clone(), inline: false },
        );
    }
    fields.push(
        EmbedField { name: "Timestamp".to_owned(), value: timestamp_tag(now), inline: true },
    );
    if could {
        let mut line = "**Removed**: ".to_owned();
        line.append(u64_to_string(d.removed.len() as u64).as_str());
        line.append(" | **Added**: ");
        line.append(u64_to_string(d.added.len() as u64).as_str());
        fields.push(EmbedField { name: "Attachments".to_owned(), value: line, inline: true });
    }
    embed.fields = fields;

    let mut followups: Vec<FollowupDraft> = Vec::new();
    if d.added.len() > 0 {
        let mut line = "Added ".to_owned();
        line.append(u64_to_string(d.added.len() as u64).as_str());
        line.append(" ");
        line.append(pluralize("attachment", "attachments", d.added.len()));
        line.append(":");
        followups.push(FollowupDraft { content: Some(line), attachment_urls: d.added });
    }
    if d.removed.len() > 0 {
        let mut line = "Removed ".to_owned();
        line.append(u64_to_string(d.removed.len() as u64).as_str());
        line.append(" ");
        line.append(pluralize("attachment", "attachments", d.removed.len()));
        line.append(":");
        followups.push(FollowupDraft { content: Some(line), attachment_urls: d.removed });
    }

    Some(
        Classified {
            draft: NotificationDraft { embed, followups },
            log_type: LogType::Chat,
            guild_id: g,
        },
    )
}

pub open spec fn spec_join_description(u: UserInfo) -> Seq<char> {
    "<@"@ + spec_decimal(u.id.0 as nat) + "> ("@ + u.name@ + ") joined."@
}

pub open spec fn spec_leave_description(u: UserInfo) -> Seq<char> {
    "<@"@ + spec_decimal(u.id.0 as nat) + "> ("@ + u.name@ + ") left."@
}

/// What the notification for a member joining holds; `joined` is the join
/// time the event carried.
pub open spec fn spec_join_classified(c: Classified, m: MemberInfo, joined: u64) -> bool {
    &&& c.log_type == LogType::Member
    &&& c.guild_id == m.guild_id
    &&& c.draft.embed.colour == AccentColour::DarkGreen
    &&& c.draft.embed.author_name@ == spec_display_name(m.user)
    &&& c.draft.embed.author_icon_url@ == spec_icon_url(m.user)
    &&& c.draft.embed.description@ == spec_join_description(m.user)
    &&& c.draft.embed.fields@.len() == 2
    &&& spec_field(c.draft.embed.fields@[0], "Joined At"@, spec_relative_tag(joined as nat), true)
    &&& spec_field(
        c.draft.embed.fields@[1],
        "Created At"@,
        spec_relative_tag(m.user.created_at as nat),
        true,
    )
    &&& c.draft.followups@.len() == 0
}

fn classify_member_add(m: &MemberInfo, joined: u64) -> (r: Classified)
    requires
        m.joined_at == Some(joined),
    ensures
        spec_join_classified(r, *m, joined),
{
    let mut embed = base_embed(&m.user);
    embed.colour = AccentColour::DarkGreen;
    let mut desc = "<@".to_owned();
    desc.append(u64_to_string(m.user.id.0).as_str());
    desc.append("> (");
    desc.append(m.user.name.as_str());
    desc.append(") joined.");
    embed.description = desc;
    let mut fields: Vec<EmbedField> = Vec::new();
    fields.push(
        EmbedField { name: "Joined At".to_owned(), value: relative_tag(joined), inline: true },
    );
    fields.push(
        EmbedField {
            name: "Created At".to_owned(),
            value: relative_tag(m.user.created_at),
            inline: true,
        },
    );
    embed.fields = fields;
    Classified {
        draft: NotificationDraft { embed, followups: Vec::new() },
        log_type: LogType::Member,
        guild_id: m.guild_id,
    }
}

/// What the notification for a member leaving holds; `joined` is the
/// cached join time, `now` the processing time the leave is stamped with.
pub open spec fn spec_leave_classified(
    c: Classified,
    u: UserInfo,
    g: GuildId,
    joined: u64,
    now: u64,
) -> bool {
    &&& c.log_type == LogType::Member
    &&& c.guild_id == g
    &&& c.draft.embed.colour == AccentColour::DarkRed
    &&& c.draft.embed.author_name@ == spec_display_name(u)
    &&& c.draft.embed.author_icon_url@ == spec_icon_url(u)
    &&& c.draft.embed.description@ == spec_leave_description(u)
    &&& c.draft.embed.fields@.len() == 3
    &&& spec_field(c.draft.embed.fields@[0], "Joined At"@, spec_relative_tag(joined as nat), true)
    &&& spec_field(
        c.draft.embed.fields@[1],
        "Created At"@,
        spec_relative_tag(u.created_at as nat),
        true,
    )
    &&& spec_field(c.draft.embed.fields@[2], "Left At"@, spec_relative_tag(now as nat), true)
    &&& c.draft.followups@.len() == 0
}

fn classify_member_remove(g: GuildId, user: &UserInfo, joined: u64, now: u64) -> (r: Classified)
    ensures
        spec_leave_classified(r, *user, g, joined, now),
{
    let mut embed = base_embed(user);
    embed.colour = AccentColour::DarkRed;
    let mut desc = "<@".to_owned();
    desc.append(u64_to_string(user.id.0).as_str());
    desc.append("> (");
    desc.append(user.name.as_str());
    desc.append(") left.");
    embed.description = desc;
    let mut fields: Vec<EmbedField> = Vec::new();
    fields.push(
        EmbedField { name: "Joined At".to_owned(), value: relative_tag(joined), inline: true },
    );
    fields.push(
        EmbedField {
            name: "Created At".to_owned(),
            value: relative_tag(user.created_at),
            inline: true,
        },
    );
    fields.push(EmbedField { name: "Left At".to_owned(), value: relative_tag(now), inline: true });
    embed.fields = fields;
    Classified {
        draft: NotificationDraft { embed, followups: Vec::new() },
        log_type: LogType::Member,
        guild_id: g,
    }
}

/// Inspects one gateway event and decides whether it is loggable; when it
/// is, produces the notification draft and its routing key. `now` is the
/// processing time, seconds since the epoch, supplied by the caller.
///
/// Suppressed (no draft): automated authors, snapshots the cache lacked,
/// edits that changed neither text nor attachment set, member-profile
/// updates, and every event kind outside the decision table.
pub fn classify(event: &LogEvent, now: u64) -> (r: Option<Classified>)
    ensures
        match *event {
            LogEvent::MessageDelete { guild_id, cached } => match (guild_id, cached) {
                (Some(g), Some(m)) => if m.author.bot {
                    r is None
                } else {
                    r matches Some(c) && spec_delete_classified(c, m, g, now)
                },
                _ => r is None,
            },
            LogEvent::MessageUpdate { old, new } => match (old, new) {
                (Some(o), Some(n)) => if o.author.bot || o.guild_id is None {
                    r is None
                } else {
                    &&& (r is None <==> spec_update_suppressed(o, n))
                    &&& (r matches Some(c) ==> spec_update_classified(
                        c,
                        o,
                        n,
                        o.guild_id->0,
                        now,
                    ))
                },
                _ => r is None,
            },
            LogEvent::MemberAdd { member } => match member.joined_at {
                Some(j) => r matches Some(c) && spec_join_classified(c, member, j),
                None => r is None,
            },
            LogEvent::MemberRemove { guild_id, user, member } => match member {
                Some(mi) => match mi.joined_at {
                    Some(j) => r matches Some(c) && spec_leave_classified(c, user, guild_id, j, now),
                    None => r is None,
                },
                None => r is None,
            },
            LogEvent::MemberUpdate { .. } => r is None,
            LogEvent::Other => r is None,
        },
{
    match event {
        LogEvent::MessageDelete { guild_id, cached } => match (guild_id, cached) {
            (Some(g), Some(m)) => {
                if m.author.bot {
                    None
                } else {
                    Some(classify_delete(*g, m, now))
                }
            },
            _ => None,
        },
        LogEvent::MessageUpdate { old, new } => match (old, new) {
            (Some(o), Some(n)) => {
                if o.author.bot {
                    None
                } else {
                    match o.guild_id {
                        Some(g) => classify_update(o, n, g, now),
                        None => None,
                    }
                }
            },
            _ => None,
        },
        LogEvent::MemberAdd { member } => match member.joined_at {
            Some(j) => Some(classify_member_add(member, j)),
            None => None,
        },
        LogEvent::MemberRemove { guild_id, user, member } => match member {
            Some(mi) => match mi.joined_at {
                Some(j) => Some(classify_member_remove(*guild_id, user, j, now)),
                None => None,
            },
            None => None,
        },
        LogEvent::MemberUpdate { .. } => None,
        LogEvent::Other => None,
    }
}

} // verus!
