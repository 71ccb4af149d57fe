use vstd::prelude::*;
use crate::types::{ChannelId, GuildId, LogType};

verus! {

/// One per-guild configuration row: which channel each log category is
/// delivered to, each unset until an administrator sets it.
#[derive(Clone, Copy)]
pub struct LogChannels {
    pub guild_id: GuildId,
    pub member_logs: Option<ChannelId>,
    pub chat_logs: Option<ChannelId>,
    pub server_logs: Option<ChannelId>,
}

/// A freshly created row: all three destinations unset.
pub open spec fn spec_new_row(g: GuildId) -> LogChannels {
    LogChannels { guild_id: g, member_logs: None, chat_logs: None, server_logs: None }
}

/// The destination this row holds for a category.
pub open spec fn spec_channel_for(row: LogChannels, t: LogType) -> Option<ChannelId> {
    match t {
        LogType::Member => row.member_logs,
        LogType::Chat => row.chat_logs,
        LogType::Server => row.server_logs,
    }
}

/// The row with one category's destination replaced.
pub open spec fn spec_row_with(row: LogChannels, t: LogType, c: Option<ChannelId>) -> LogChannels {
    match t {
        LogType::Member => LogChannels { member_logs: c, ..row },
        LogType::Chat => LogChannels { chat_logs: c, ..row },
        LogType::Server => LogChannels { server_logs: c, ..row },
    }
}

impl LogChannels {
    pub fn new(guild_id: GuildId) -> (r: Self)
        ensures
            r == spec_new_row(guild_id),
    {
        Self { guild_id, member_logs: None, chat_logs: None, server_logs: None }
    }

    pub fn guild_id(&self) -> (r: GuildId)
        ensures
            r == self.guild_id,
    {
        self.guild_id
    }

    pub fn member_logs(&self) -> (r: Option<ChannelId>)
        ensures
            r == self.member_logs,
    {
        self.member_logs
    }

    pub fn chat_logs(&self) -> (r: Option<ChannelId>)
        ensures
            r == self.chat_logs,
    {
        self.chat_logs
    }

    pub fn server_logs(&self) -> (r: Option<ChannelId>)
        ensures
            r == self.server_logs,
    {
        self.server_logs
    }

    /// The destination this row holds for a category.
    pub fn channel_for(&self, t: LogType) -> (r: Option<ChannelId>)
        ensures
            r == spec_channel_for(*self, t),
    {
        match t {
            LogType::Member => self.member_logs,
            LogType::Chat => self.chat_logs,
            LogType::Server => self.server_logs,
        }
    }
}

/// Whether some row of the table belongs to guild `g`.
pub open spec fn spec_has_row(tab: Seq<LogChannels>, g: GuildId) -> bool {
    exists|i: int| 0 <= i < tab.len() && (#[trigger] tab[i]).guild_id == g
}

/// The row of guild `g` (meaningful only when one exists and rows are
/// keyed uniquely).
pub open spec fn spec_row(tab: Seq<LogChannels>, g: GuildId) -> LogChannels
    recommends
        spec_has_row(tab, g),
{
    tab[choose|i: int| 0 <= i < tab.len() && (#[trigger] tab[i]).guild_id == g]
}

/// At most one row per guild.
pub open spec fn spec_table_wf(tab: Seq<LogChannels>) -> bool {
    forall|i: int, j: int|
        0 <= i < j < tab.len() ==> (#[trigger] tab[i]).guild_id != (#[trigger] tab[j]).guild_id
}

/// Exactly one row of the table belongs to guild `g`.
pub open spec fn spec_exactly_one_row(tab: Seq<LogChannels>, g: GuildId) -> bool {
    exists|i: int|
        {
            &&& 0 <= i < tab.len()
            &&& (#[trigger] tab[i]).guild_id == g
            &&& forall|j: int| 0 <= j < tab.len() && (#[trigger] tab[j]).guild_id == g ==> j == i
        }
}

/// In a well-keyed table, any row that carries guild `g` is the row of `g`.
pub proof fn lemma_row_at(tab: Seq<LogChannels>, g: GuildId, i: int)
    requires
        spec_table_wf(tab),
        0 <= i < tab.len(),
        tab[i].guild_id == g,
    ensures
        spec_has_row(tab, g),
        spec_exactly_one_row(tab, g),
        spec_row(tab, g) == tab[i],
{
    let j = choose|j: int| 0 <= j < tab.len() && (#[trigger] tab[j]).guild_id == g;
    if i != j {
        assert(false);
    }
    assert forall|k: int| 0 <= k < tab.len() && (#[trigger] tab[k]).guild_id == g implies k == i by {
        if k != i {
            assert(false);
        }
    }
}

/// The lazy-row-creation step: appends an all-unset row for `g` when the
/// table has none, and leaves the table unchanged when it already has one.
pub open spec fn spec_insert_default(tab: Seq<LogChannels>, g: GuildId) -> Seq<LogChannels> {
    if spec_has_row(tab, g) {
        tab
    } else {
        tab.push(spec_new_row(g))
    }
}

/// The upsert step of the `set` command: the row of `g` (lazily created)
/// gets one category's destination replaced; every other row is untouched.
pub open spec fn spec_set(
    tab: Seq<LogChannels>,
    g: GuildId,
    t: LogType,
    c: Option<ChannelId>,
) -> Seq<LogChannels> {
    if spec_has_row(tab, g) {
        let i = choose|i: int| 0 <= i < tab.len() && (#[trigger] tab[i]).guild_id == g;
        tab.update(i, spec_row_with(tab[i], t, c))
    } else {
        tab.push(spec_row_with(spec_new_row(g), t, c))
    }
}

/// The destination a guild has configured for a category: the field of its
/// row, or nothing when the guild has no row at all.
pub open spec fn spec_fetch(tab: Seq<LogChannels>, g: GuildId, t: LogType) -> Option<ChannelId> {
    if spec_has_row(tab, g) {
        spec_channel_for(spec_row(tab, g), t)
    } else {
        None
    }
}

/// In-memory model of the persistent per-guild configuration table: one
/// row per guild, looked up by guild identifier. The persistence layer
/// that loads and stores it lives outside the library.
pub struct LogChannelTable {
    pub rows: Vec<LogChannels>,
}

impl LogChannelTable {
    /// Rows are keyed uniquely by guild.
    pub open spec fn well_formed(&self) -> bool {
        spec_table_wf(self.rows@)
    }

    pub fn new() -> (r: Self)
        ensures
            r.rows@.len() == 0,
            r.well_formed(),
    {
        Self { rows: Vec::new() }
    }

    /// Index of the row of guild `g`, when the table has one.
    fn find_row(&self, g: GuildId) -> (r: Option<usize>)
        ensures
            match r {
                Some(i) => i < self.rows@.len() && self.rows@[i as int].guild_id == g,
                None => !spec_has_row(self.rows@, g),
            },
    {
        let mut i: usize = 0;
        while i < self.rows.len()
            invariant
                0 <= i <= self.rows@.len(),
                forall|k: int| 0 <= k < i ==> (#[trigger] self.rows@[k]).guild_id != g,
            decreases self.rows@.len() - i,
        {
            if self.rows[i].guild_id == g {
                return Some(i);
            }
            i += 1;
        }
        None
    }

    /// Decides whether the rows are keyed uniquely, so that callers outside
    /// the library can test it before using operations specified only for
    /// well-keyed tables.
    pub fn check_well_formed(&self) -> (r: bool)
        ensures
            r == self.well_formed(),
    {
        let mut i: usize = 0;
        while i < self.rows.len()
            invariant
                0 <= i <= self.rows@.len(),
                forall|a: int, b: int|
                    0 <= a < b < self.rows@.len() && a < i ==> (#[trigger] self.rows@[a]).guild_id
                        != (#[trigger] self.rows@[b]).guild_id,
            decreases self.rows@.len() - i,
        {
            let mut j: usize = i + 1;
            while j < self.rows.len()
                invariant
                    0 <= i < j <= self.rows@.len(),
                    forall|b: int|
                        i < b < j ==> (#[trigger] self.rows@[b]).guild_id != self.rows@[i as int].guild_id,
                decreases self.rows@.len() - j,
            {
                if self.rows[i].guild_id == self.rows[j].guild_id {
                    return false;
                }
                j += 1;
            }
            i += 1;
        }
        true
    }

    /// Idempotent lazy row creation: after the call the guild has exactly
    /// one row; a first call appends an all-unset row, any further call
    /// leaves the table as it is.
    pub fn insert_default(&mut self, g: GuildId)
        requires
            old(self).well_formed(),
        ensures
            final(self).well_formed(),
            final(self).rows@ == spec_insert_default(old(self).rows@, g),
            spec_exactly_one_row(final(self).rows@, g),
            !spec_has_row(old(self).rows@, g) ==> spec_row(final(self).rows@, g)
                == spec_new_row(g),
            spec_has_row(old(self).rows@, g) ==> final(self).rows@ == old(self).rows@,
    {
        let found = self.find_row(g);
        match found {
            Some(i) => {
                proof {
                    lemma_row_at(self.rows@, g, i as int);
                }
            },
            None => {
                let ghost pre = self.rows@;
                self.rows.push(LogChannels::new(g));
                proof {
                    assert forall|i: int, j: int|
                        0 <= i < j < self.rows@.len() implies (#[trigger] self.rows@[i]).guild_id
                        != (#[trigger] self.rows@[j]).guild_id by {
                        if j < pre.len() {
                        } else {
                            assert(self.rows@[i] == pre[i]);
                        }
                    }
                    lemma_row_at(self.rows@, g, pre.len() as int);
                }
            },
        }
    }

    /// The upsert behind the `set` command: lazily creates the guild's row,
    /// then replaces the one field belonging to the category. Unsetting is
    /// permitted by passing no channel.
    pub fn set_channel(&mut self, g: GuildId, t: LogType, c: Option<ChannelId>)
        requires
            old(self).well_formed(),
        ensures
            final(self).well_formed(),
            final(self).rows@ == spec_set(old(self).rows@, g, t, c),
            spec_fetch(final(self).rows@, g, t) == c,
    {
        let ghost pre = self.rows@;
        let found = self.find_row(g);
        match found {
            Some(i) => {
                proof {
                    lemma_row_at(pre, g, i as int);
                }
                let row = self.rows[i];
                let updated = match t {
                    LogType::Member => LogChannels { member_logs: c, ..row },
                    LogType::Chat => LogChannels { chat_logs: c, ..row },
                    LogType::Server => LogChannels { server_logs: c, ..row },
                };
                self.rows.set(i, updated);
                proof {
                    let w = choose|w: int| 0 <= w < pre.len() && (#[trigger] pre[w]).guild_id == g;
                    assert(w == i);
                    assert forall|a: int, b: int|
                        0 <= a < b < self.rows@.len() implies (#[trigger] self.rows@[a]).guild_id
                        != (#[trigger] self.rows@[b]).guild_id by {
                        assert(pre[a].guild_id != pre[b].guild_id);
                    }
                    lemma_row_at(self.rows@, g, i as int);
                }
            },
            None => {
                let row = LogChannels::new(g);
                let updated = match t {
                    LogType::Member => LogChannels { member_logs: c, ..row },
                    LogType::Chat => LogChannels { chat_logs: c, ..row },
                    LogType::Server => LogChannels { server_logs: c, ..row },
                };
                self.rows.push(updated);
                proof {
                    assert forall|a: int, b: int|
                        0 <= a < b < self.rows@.len() implies (#[trigger] self.rows@[a]).guild_id
                        != (#[trigger] self.rows@[b]).guild_id by {
                        if b < pre.len() {
                        } else {
                            assert(self.rows@[a] == pre[a]);
                        }
                    }
                    lemma_row_at(self.rows@, g, pre.len() as int);
                }
            },
        }
    }

    /// The read behind the `list` command: the guild's row, lazily created
    /// all-unset when absent.
    pub fn get_or_create(&mut self, g: GuildId) -> (r: LogChannels)
        requires
            old(self).well_formed(),
        ensures
            final(self).well_formed(),
            final(self).rows@ == spec_insert_default(old(self).rows@, g),
            r == spec_row(final(self).rows@, g),
            r.guild_id == g,
    {
        self.insert_default(g);
        let found = self.find_row(g);
        match found {
            Some(i) => {
                proof {
                    lemma_row_at(self.rows@, g, i as int);
                }
                self.rows[i]
            },
            None => {
                proof {
                    assert(false);
                }
                LogChannels::new(g)
            },
        }
    }
}

impl LogType {
    /// The destination a guild has configured for this category.
    pub fn fetch_channel(&self, table: &LogChannelTable, guild_id: GuildId) -> (r: Option<
        ChannelId,
    >)
        requires
            table.well_formed(),
        ensures
            r == spec_fetch(table.rows@, guild_id, *self),
    {
        let found = table.find_row(guild_id);
        match found {
            Some(i) => {
                proof {
                    lemma_row_at(table.rows@, guild_id, i as int);
                }
                table.rows[i].channel_for(*self)
            },
            None => None,
        }
    }
}

/// Creating a guild's row twice leaves exactly what one creation leaves:
/// one row for the guild, all destinations unset if never explicitly set.
pub proof fn lemma_insert_default_idempotent(tab: Seq<LogChannels>, g: GuildId)
    requires
        spec_table_wf(tab),
    ensures
        spec_insert_default(spec_insert_default(tab, g), g) == spec_insert_default(tab, g),
        !spec_has_row(tab, g) ==> spec_row(spec_insert_default(tab, g), g) == spec_new_row(g),
{
    if !spec_has_row(tab, g) {
        let t2 = tab.push(spec_new_row(g));
        assert(t2[tab.len() as int].guild_id == g);
        assert(spec_has_row(t2, g));
        assert forall|i: int, j: int|
            0 <= i < j < t2.len() implies (#[trigger] t2[i]).guild_id != (#[trigger] t2[j]).guild_id by {
            if j < tab.len() {
            } else {
                assert(t2[i] == tab[i]);
            }
        }
        lemma_row_at(t2, g, tab.len() as int);
    }
}

/// Setting a destination routes the category there: after
/// `set(guild, category, c)` the fetch for that guild and category yields
/// exactly `c` — a channel when one was set, nothing after unsetting.
pub proof fn lemma_set_then_fetch(
    tab: Seq<LogChannels>,
    g: GuildId,
    t: LogType,
    c: Option<ChannelId>,
)
    requires
        spec_table_wf(tab),
    ensures
        spec_table_wf(spec_set(tab, g, t, c)),
        spec_fetch(spec_set(tab, g, t, c), g, t) == c,
{
    let out = spec_set(tab, g, t, c);
    if spec_has_row(tab, g) {
        let i = choose|i: int| 0 <= i < tab.len() && (#[trigger] tab[i]).guild_id == g;
        assert(out == tab.update(i, spec_row_with(tab[i], t, c)));
        assert forall|a: int, b: int|
            0 <= a < b < out.len() implies (#[trigger] out[a]).guild_id
            != (#[trigger] out[b]).guild_id by {
            assert(tab[a].guild_id != tab[b].guild_id);
        }
        lemma_row_at(out, g, i);
    } else {
        assert forall|a: int, b: int|
            0 <= a < b < out.len() implies (#[trigger] out[a]).guild_id
            != (#[trigger] out[b]).guild_id by {
            if b < tab.len() {
            } else {
                assert(out[a] == tab[a]);
            }
        }
        lemma_row_at(out, g, tab.len() as int);
    }
}

/// Setting one category for one guild touches nothing else: every other
/// guild's destinations, and the guild's other categories, fetch as before.
pub proof fn lemma_set_preserves_others(
    tab: Seq<LogChannels>,
    g: GuildId,
    t: LogType,
    c: Option<ChannelId>,
    g2: GuildId,
    t2: LogType,
)
    requires
        spec_table_wf(tab),
        g2 != g || t2 != t,
    ensures
        spec_fetch(spec_set(tab, g, t, c), g2, t2) == spec_fetch(tab, g2, t2),
{
    let out = spec_set(tab, g, t, c);
    lemma_set_then_fetch(tab, g, t, c);
    if spec_has_row(tab, g) {
        let i = choose|i: int| 0 <= i < tab.len() && (#[trigger] tab[i]).guild_id == g;
        assert(out == tab.update(i, spec_row_with(tab[i], t, c)));
        if g2 == g {
            lemma_row_at(out, g, i);
            lemma_row_at(tab, g, i);
        } else {
            if spec_has_row(tab, g2) {
                let j = choose|j: int| 0 <= j < tab.len() && (#[trigger] tab[j]).guild_id == g2;
                assert(out[j] == tab[j]);
                lemma_row_at(out, g2, j);
                lemma_row_at(tab, g2, j);
            } else {
                if spec_has_row(out, g2) {
                    let k = choose|k: int| 0 <= k < out.len() && (#[trigger] out[k]).guild_id == g2;
                    assert(tab[k].guild_id == g2);
                    assert(false);
                }
            }
        }
    } else {
        assert(out == tab.push(spec_row_with(spec_new_row(g), t, c)));
        if g2 == g {
            lemma_row_at(out, g, tab.len() as int);
        } else {
            if spec_has_row(tab, g2) {
                let j = choose|j: int| 0 <= j < tab.len() && (#[trigger] tab[j]).guild_id == g2;
                assert(out[j] == tab[j]);
                lemma_row_at(out, g2, j);
                lemma_row_at(tab, g2, j);
            } else {
                if spec_has_row(out, g2) {
                    let k = choose|k: int| 0 <= k < out.len() && (#[trigger] out[k]).guild_id == g2;
                    if k < tab.len() {
                        assert(tab[k].guild_id == g2);
                    }
                    assert(false);
                }
            }
        }
    }
}

} // verus!
