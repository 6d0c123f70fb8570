use crate::cache::ChannelCache;
use crate::errors::Error;
use crate::ids::{ChannelId, GuildId, GuildStatus, MessageId, MessageRef, MessageStamp};
use crate::purge::{lemma_kept_no_ignore, PurgeDecision, PurgeProtocol, MAX_PURGE_ATTEMPTS};
use vstd::prelude::*;
use vstd::std_specs::iter::IteratorSpec;
use vstd::string::StringExecFns;

verus! {

broadcast use vstd::string::axiom_spec_iter, vstd::string::next_postcondition;

/// A channel qualifies for setup only while it holds at most this many
/// messages; this bounds the cost of setup and of later purges.
pub const MAX_SETUP_MESSAGES: usize = 50;

/// How many messages the setup check fetches: one more than the bound, so
/// that an over-full channel is detected.
pub const SETUP_FETCH_LIMIT: u64 = 51;

/// Seconds in the seven-day window: setup rejects channels holding any
/// message older than this.
pub const WEEK_SECONDS: u64 = 604800;

/// Does an entry name `channel` as the guild's verification channel?
pub open spec fn channel_matches(entry: Option<(ChannelId, MessageId)>, channel: ChannelId) -> bool {
    match entry {
        Some(p) => p.0 == channel,
        None => false,
    }
}

/// What `is_verification_channel` answers once the cache holds the guild.
pub open spec fn is_verification_channel_spec(
    cache: Map<u64, Option<(ChannelId, MessageId)>>,
    guild: GuildId,
    channel: ChannelId,
) -> bool {
    cache.contains_key(guild.0) && channel_matches(cache[guild.0], channel)
}

/// The oldest timestamp the setup check still accepts, given the current
/// time in seconds: seven days back, clamped at zero.
pub open spec fn age_cutoff(now: u64) -> u64 {
    if now >= WEEK_SECONDS {
        (now - WEEK_SECONDS) as u64
    } else {
        0
    }
}

/// Every listed message is newer than the seven-day cutoff.
pub open spec fn messages_fresh(messages: Seq<MessageStamp>, now: u64) -> bool {
    forall|i: int| 0 <= i < messages.len() ==> messages[i].timestamp > age_cutoff(now)
}

/// The setup preconditions: not too many messages, none of them too old.
pub open spec fn setup_check_ok(messages: Seq<MessageStamp>, now: u64) -> bool {
    messages.len() <= MAX_SETUP_MESSAGES && messages_fresh(messages, now)
}

/// Does the text contain a line break?
pub open spec fn contains_newline(s: Seq<char>) -> bool {
    exists|i: int| 0 <= i < s.len() && s[i] == '\n'
}

/// The view of an optional intro text, absent text reading as empty.
pub open spec fn intro_text_view(intro: Option<Seq<char>>) -> Seq<char> {
    match intro {
        Some(s) => s,
        None => Seq::empty(),
    }
}

/// What separates the custom intro from the standard instructions: a blank
/// line if the intro itself spans lines, a space otherwise, and nothing at
/// all when there is no intro.
pub open spec fn intro_spacing(intro: Option<Seq<char>>) -> Seq<char> {
    match intro {
        Some(s) => if contains_newline(s) {
            "\n\n"@
        } else {
            " "@
        },
        None => ""@,
    }
}

/// The full text of the anchor message, composed from the optional per-guild
/// intro and the global place id.
pub open spec fn intro_message_text(intro: Option<Seq<char>>, place_id: Seq<char>) -> Seq<char> {
    "@everyone\n"@ + intro_text_view(intro) + intro_spacing(intro)
        + "To verify your Roblox account with your Discord account, please follow the following instructions:\n• Visit the verification place at <https://roblox.com/--place?id="@
        + place_id
        + "> as the account you want to verify as.\n• Enter the command displayed in the oval box there into this channel.\n• Your roles will be set according to your Roblox account. If they are not, please contact the server admins."@
}

/// Scan a text for a line break.
fn has_newline(s: &str) -> (b: bool)
    ensures
        b == contains_newline(s@),
{
    let mut it = s.chars();
    let ghost mut seen: int = 0;
    loop
        invariant
            0 <= seen <= s@.len(),
            it.remaining() == s@.skip(seen),
            forall|j: int| 0 <= j < seen ==> s@[j] != '\n',
        decreases s@.len() - seen,
    {
        match it.next() {
            Some(c) => {
                proof {
                    assert(s@.skip(seen)[0] == s@[seen]);
                    assert(s@.skip(seen).drop_first() =~= s@.skip(seen + 1));
                }
                if c == '\n' {
                    return true;
                }
                proof {
                    seen = seen + 1;
                }
            },
            None => {
                proof {
                    assert(s@.skip(seen).len() == 0);
                }
                return false;
            },
        }
    }
}

/// Compose the anchor message for a verification channel.
///
/// The per-guild intro is optional; the global place id is required, and its
/// absence is a configuration error of validation class: nothing is sent and
/// nothing is persisted in that case.
pub fn intro_message(intro: Option<String>, place_id: Option<String>) -> (r: Result<String, Error>)
    ensures
        place_id is Some ==> r is Ok && r->Ok_0@ == intro_message_text(
            intro.deep_view(),
            place_id->0@,
        ),
        place_id is None ==> r is Err && r->Err_0 is Validation
            && r->Err_0->Validation_message@ == "No place ID set. Please ask the bot owner to fix this."@,
{
    match place_id {
        Some(place) => {
            let mut text = String::new();
            text.append("@everyone\n");
            match &intro {
                Some(s) => {
                    text.append(s.as_str());
                    if has_newline(s.as_str()) {
                        text.append("\n\n");
                    } else {
                        text.append(" ");
                    }
                },
                None => {},
            }
            text.append(
                "To verify your Roblox account with your Discord account, please follow the following instructions:\n• Visit the verification place at <https://roblox.com/--place?id=",
            );
            text.append(place.as_str());
            text.append(
                "> as the account you want to verify as.\n• Enter the command displayed in the oval box there into this channel.\n• Your roles will be set according to your Roblox account. If they are not, please contact the server admins.",
            );
            proof {
                reveal_strlit("");
                assert(""@ =~= Seq::<char>::empty());
                assert(text@ =~= intro_message_text(intro.deep_view(), place@));
            }
            Ok(text)
        },
        None => Err(
            Error::Validation {
                message: "No place ID set. Please ask the bot owner to fix this.".to_owned(),
            },
        ),
    }
}

/// Run the setup preconditions over the fetched messages.
fn run_setup_check(messages: &Vec<MessageStamp>, now: u64) -> (r: Result<(), Error>)
    ensures
        r is Ok <==> setup_check_ok(messages@, now),
        r is Err ==> r->Err_0 is Validation,
        messages@.len() > MAX_SETUP_MESSAGES ==> r is Err
            && r->Err_0->Validation_message@ == "Cannot create verification channel in channels containing more than 50 messages."@,
        messages@.len() <= MAX_SETUP_MESSAGES && !messages_fresh(messages@, now) ==> r is Err
            && r->Err_0->Validation_message@ == "Cannot create verification channel in channels containing messages older than 1 week. Please manually delete any such messages."@,
{
    if messages.len() > MAX_SETUP_MESSAGES {
        return Err(
            Error::Validation {
                message: "Cannot create verification channel in channels containing more than 50 messages.".to_owned(),
            },
        );
    }
    let cutoff: u64 = if now >= WEEK_SECONDS {
        now - WEEK_SECONDS
    } else {
        0
    };
    let mut i: usize = 0;
    while i < messages.len()
        invariant
            0 <= i <= messages@.len(),
            cutoff == age_cutoff(now),
            messages@.len() <= MAX_SETUP_MESSAGES,
            forall|j: int| 0 <= j < i ==> messages@[j].timestamp > age_cutoff(now),
        decreases messages@.len() - i,
    {
        if messages[i].timestamp <= cutoff {
            return Err(
                Error::Validation {
                    message: "Cannot create verification channel in channels containing messages older than 1 week. Please manually delete any such messages.".to_owned(),
                },
            );
        }
        i = i + 1;
    }
    Ok(())
}

/// What a guild scan asks the caller to do for one guild.
#[derive(Clone, Copy, PartialEq, Eq, Structural, Debug)]
pub enum PurgeScan {
    /// The cache has no entry for the guild: load its record from the store,
    /// record the answer with `note_loaded`, and ask again.
    NeedLoad,
    /// The guild has no verification channel configured; nothing to do.
    Nothing,
    /// Run the purge protocol on this channel, keeping the anchor message.
    Purge { channel: ChannelId, keep: MessageId },
}

/// Orchestrates the cache, the persistent store, and the purge protocol for
/// the per-guild verification channels.
///
/// The manager owns the cache.  The store, the configuration store, and the
/// messaging service stay outside: where an operation needs them, it either
/// takes their answers as arguments (`note_loaded`, `setup_check`) or hands
/// back an explicit request ([`PurgeScan`], [`SetupSession`]) for the caller
/// to perform.
pub struct VerificationChannelManager {
    channel_cache: ChannelCache,
}

impl View for VerificationChannelManager {
    type V = Map<u64, Option<(ChannelId, MessageId)>>;

    closed spec fn view(&self) -> Map<u64, Option<(ChannelId, MessageId)>> {
        self.channel_cache@
    }
}

impl VerificationChannelManager {
    /// A manager with an empty cache: every guild's first read is a miss.
    pub fn new() -> (r: VerificationChannelManager)
        ensures
            r@ == Map::<u64, Option<(ChannelId, MessageId)>>::empty(),
    {
        VerificationChannelManager { channel_cache: ChannelCache::new() }
    }

    /// Record the result of a successful store load for a guild.  A failed
    /// load must not be recorded: the next read then retries it.
    pub fn note_loaded(&mut self, guild: GuildId, record: Option<(ChannelId, MessageId)>)
        ensures
            final(self)@ == old(self)@.insert(guild.0, record),
    {
        self.channel_cache.write(guild, record);
    }

    /// Is `channel` the guild's verification channel?  `None` is a cache
    /// miss: load the guild's record from the store, record it with
    /// `note_loaded`, and ask again.
    pub fn is_verification_channel(&self, guild: GuildId, channel: ChannelId) -> (r: Option<bool>)
        ensures
            self@.contains_key(guild.0) ==> r == Some(
                is_verification_channel_spec(self@, guild, channel),
            ),
            !self@.contains_key(guild.0) ==> r is None,
    {
        match self.channel_cache.read(guild) {
            Some(entry) => match entry {
                Some(p) => Some(p.0 == channel),
                None => Some(false),
            },
            None => None,
        }
    }

    /// Should this message be deleted to keep the verification channel free
    /// of content?  `Some(true)` iff the message's channel is the guild's
    /// verification channel; the caller then deletes it, treating a deletion
    /// failure as benign.  `None` is a cache miss, as in
    /// `is_verification_channel`.
    pub fn check_verification_channel_msg(&self, guild: GuildId, message: MessageRef) -> (r: Option<
        bool,
    >)
        ensures
            self@.contains_key(guild.0) ==> r == Some(
                is_verification_channel_spec(self@, guild, message.channel),
            ),
            !self@.contains_key(guild.0) ==> r is None,
    {
        self.is_verification_channel(guild, message.channel)
    }

    /// Record a verification channel and its anchor message for a guild.
    ///
    /// Call this only once the record is durable in the store: the store
    /// write precedes the cache write, so the cache never reflects state
    /// that is not yet persisted.
    pub fn set_verification_channel(
        &mut self,
        guild: GuildId,
        channel: ChannelId,
        message: MessageId,
    )
        ensures
            final(self)@ == old(self)@.insert(guild.0, Some((channel, message))),
    {
        self.channel_cache.write(guild, Some((channel, message)));
    }

    /// What a scan of one guild's verification channel must do: purge the
    /// channel while keeping the anchor message, if the guild has one.
    pub fn delete_old_messages(&self, guild: GuildId) -> (r: PurgeScan)
        ensures
            !self@.contains_key(guild.0) ==> r is NeedLoad,
            self@.contains_key(guild.0) && self@[guild.0] is None ==> r is Nothing,
            self@.contains_key(guild.0) && self@[guild.0] is Some ==> r == (PurgeScan::Purge {
                channel: (self@[guild.0]->0).0,
                keep: (self@[guild.0]->0).1,
            }),
    {
        match self.channel_cache.read(guild) {
            Some(entry) => match entry {
                Some(p) => PurgeScan::Purge { channel: p.0, keep: p.1 },
                None => PurgeScan::Nothing,
            },
            None => PurgeScan::NeedLoad,
        }
    }

    /// On a guild becoming available, scan its verification channel to
    /// remove anything posted while the bot was offline.  The caller runs
    /// the purge and suppresses validation-class failures with `cmd_ok`, so
    /// one misconfigured guild does not block the others; transient and
    /// load errors propagate.
    pub fn check_guild_create(&self, guild: GuildId) -> (r: PurgeScan)
        ensures
            !self@.contains_key(guild.0) ==> r is NeedLoad,
            self@.contains_key(guild.0) && self@[guild.0] is None ==> r is Nothing,
            self@.contains_key(guild.0) && self@[guild.0] is Some ==> r == (PurgeScan::Purge {
                channel: (self@[guild.0]->0).0,
                keep: (self@[guild.0]->0).1,
            }),
    {
        self.delete_old_messages(guild)
    }

    /// The guilds a ready notification reports as available, in order; each
    /// of them is then scanned as in `check_guild_create`.
    pub fn check_verification_channels_ready(&self, statuses: &Vec<GuildStatus>) -> (r: Vec<
        GuildId,
    >)
        ensures
            r@ == available_guilds(statuses@),
    {
        let mut guilds: Vec<GuildId> = Vec::new();
        let mut i: usize = 0;
        while i < statuses.len()
            invariant
                0 <= i <= statuses@.len(),
                guilds@ == available_guilds(statuses@.take(i as int)),
            decreases statuses@.len() - i,
        {
            proof {
                assert(statuses@.take(i + 1 as int).drop_last() =~= statuses@.take(i as int));
                assert(statuses@.take(i + 1 as int).last() == statuses@[i as int]);
            }
            match statuses[i] {
                GuildStatus::OnlineGuild { guild } => guilds.push(guild),
                GuildStatus::OnlinePartialGuild { guild } => guilds.push(guild),
                GuildStatus::Offline { .. } => {},
            }
            i = i + 1;
        }
        proof {
            assert(statuses@.take(statuses@.len() as int) =~= statuses@);
        }
        guilds
    }

    /// The setup preconditions, checked before any mutation: the channel
    /// holds at most [`MAX_SETUP_MESSAGES`] messages (the caller fetches up
    /// to [`SETUP_FETCH_LIMIT`] so an over-full channel shows), and none of
    /// them is older than seven days.  Pure reads; a failure mutates
    /// nothing.
    pub fn setup_check(&self, _guild: GuildId, messages: &Vec<MessageStamp>, now: u64) -> (r:
        Result<(), Error>)
        ensures
            r is Ok <==> setup_check_ok(messages@, now),
            r is Err ==> r->Err_0 is Validation,
            messages@.len() > MAX_SETUP_MESSAGES ==> r is Err
                && r->Err_0->Validation_message@ == "Cannot create verification channel in channels containing more than 50 messages."@,
            messages@.len() <= MAX_SETUP_MESSAGES && !messages_fresh(messages@, now) ==> r is Err
                && r->Err_0->Validation_message@ == "Cannot create verification channel in channels containing messages older than 1 week. Please manually delete any such messages."@,
    {
        run_setup_check(messages, now)
    }

    /// Begin setting `channel` up as the verification channel of `guild`.
    ///
    /// The returned session walks the setup protocol: validate the fetched
    /// messages, purge the channel, compose the anchor text, send it,
    /// persist the record, and only then update the cache.
    pub fn setup(&self, guild: GuildId, channel: ChannelId) -> (s: SetupSession)
        ensures
            s.guild == guild,
            s.channel == channel,
            s.phase is CheckingRecent,
            s.purge.tries == 0,
            s.anchor is None,
    {
        SetupSession {
            guild,
            channel,
            purge: PurgeProtocol::new(),
            anchor: None,
            phase: SetupPhase::CheckingRecent,
        }
    }

    /// Maintenance hook: reclaim memory held by the cache.  No correctness
    /// effect; the contents stay as they are.
    pub fn on_cleanup_tick(&mut self)
        ensures
            final(self)@ == old(self)@,
    {
        self.channel_cache.shrink_to_fit();
    }

    /// On leaving a guild, evict its cache entry only; the persisted record
    /// stays for a possible future rejoin.  The guild's next read is then a
    /// fresh store load, never a stale value.
    pub fn on_guild_remove(&mut self, guild: GuildId)
        ensures
            final(self)@ == old(self)@.remove(guild.0),
    {
        self.channel_cache.remove(guild);
    }
}

/// The guild identifiers of the statuses reported available (fully or
/// partially online), in reported order.
pub open spec fn available_guilds(statuses: Seq<GuildStatus>) -> Seq<GuildId>
    decreases statuses.len(),
{
    if statuses.len() == 0 {
        Seq::empty()
    } else {
        available_guilds(statuses.drop_last()) + match statuses.last() {
            GuildStatus::OnlineGuild { guild } => seq![guild],
            GuildStatus::OnlinePartialGuild { guild } => seq![guild],
            GuildStatus::Offline { .. } => Seq::empty(),
        }
    }
}

/// Where a setup session stands.
#[derive(Clone, Copy, PartialEq, Eq, Structural, Debug)]
pub enum SetupPhase {
    /// Waiting for the recent messages of the channel, to validate it.
    CheckingRecent,
    /// Validation passed; the purge protocol is running, excluding nothing.
    Purging,
    /// The channel is empty; waiting for the configured intro and place id.
    ComposingIntro,
    /// The anchor text is composed; waiting for it to be sent.
    Sending,
    /// The anchor is sent; waiting for the store write to become durable.
    Persisting,
    /// The setup succeeded and the cache reflects the persisted record.
    Done,
    /// The setup failed; nothing was persisted and the cache is untouched.
    Failed,
}

/// One run of the setup protocol for a (guild, channel) pair.
///
/// The session only decides; the caller performs the external work and
/// reports each outcome back, in this order: `recent_messages`, then
/// `purge_page` until it finishes, then `configure`, `sent`, `persisted`.
/// Each step's precondition pins the order, so the store write always
/// precedes the cache write, and a missing place id fails the session after
/// the purge but before anything is sent or persisted.
pub struct SetupSession {
    /// The guild being set up.
    pub guild: GuildId,
    /// The channel to become the guild's verification channel.
    pub channel: ChannelId,
    /// The purge of the channel's existing messages.
    pub purge: PurgeProtocol,
    /// The anchor message's id, once it has been sent.
    pub anchor: Option<MessageId>,
    /// Where the session stands.
    pub phase: SetupPhase,
}

impl SetupSession {
    /// Validate the channel against the fetched messages and the current
    /// time, before any mutation.  On rejection the session fails with a
    /// validation-class error and no side effect has occurred.
    pub fn recent_messages(&mut self, messages: &Vec<MessageStamp>, now: u64) -> (r: Result<
        (),
        Error,
    >)
        requires
            old(self).phase is CheckingRecent,
        ensures
            final(self).guild == old(self).guild,
            final(self).channel == old(self).channel,
            final(self).purge == old(self).purge,
            final(self).anchor == old(self).anchor,
            r is Ok <==> setup_check_ok(messages@, now),
            r is Ok ==> final(self).phase is Purging,
            r is Err ==> final(self).phase is Failed && r->Err_0 is Validation,
    {
        match run_setup_check(messages, now) {
            Ok(()) => {
                self.phase = SetupPhase::Purging;
                Ok(())
            },
            Err(e) => {
                self.phase = SetupPhase::Failed;
                Err(e)
            },
        }
    }

    /// Feed the purge one listed page.  Setup purges with nothing excluded:
    /// the anchor message does not exist yet.  An empty page completes the
    /// purge and moves the session on; reaching the attempt bound performs
    /// the last delete and fails the session.
    pub fn purge_page(&mut self, listed: &Vec<MessageId>) -> (d: PurgeDecision)
        requires
            old(self).phase is Purging,
            old(self).purge.tries < MAX_PURGE_ATTEMPTS,
        ensures
            final(self).guild == old(self).guild,
            final(self).channel == old(self).channel,
            final(self).anchor == old(self).anchor,
            listed@.len() == 0 ==> {
                &&& d is Finished
                &&& final(self).phase is ComposingIntro
                &&& final(self).purge == old(self).purge
            },
            listed@.len() > 0 ==> {
                &&& final(self).purge.tries == old(self).purge.tries + 1
                &&& old(self).purge.tries + 1 < MAX_PURGE_ATTEMPTS ==> d is DeleteAndContinue
                    && d->DeleteAndContinue_ids@ == listed@ && final(self).phase is Purging
                &&& old(self).purge.tries + 1 == MAX_PURGE_ATTEMPTS ==> d is DeleteAndFail
                    && d->DeleteAndFail_ids@ == listed@ && d->DeleteAndFail_error is Transient
                    && final(self).phase is Failed
                    && d->DeleteAndFail_error->Transient_message@ == "Could not delete all messages in 5 tries."@
            },
    {
        proof {
            lemma_kept_no_ignore(listed@);
        }
        let d = self.purge.on_page(listed, None);
        match &d {
            PurgeDecision::Finished => {
                self.phase = SetupPhase::ComposingIntro;
            },
            PurgeDecision::DeleteAndContinue { .. } => {},
            PurgeDecision::DeleteAndFail { .. } => {
                self.phase = SetupPhase::Failed;
            },
        }
        d
    }

    /// Compose the anchor text from the configured per-guild intro and the
    /// global place id.  Without a place id the session fails with a
    /// configuration error of validation class: the purge has already run,
    /// but nothing is sent, and neither the store nor the cache is touched.
    pub fn configure(&mut self, intro: Option<String>, place_id: Option<String>) -> (r: Result<
        String,
        Error,
    >)
        requires
            old(self).phase is ComposingIntro,
        ensures
            final(self).guild == old(self).guild,
            final(self).channel == old(self).channel,
            final(self).purge == old(self).purge,
            final(self).anchor == old(self).anchor,
            place_id is Some ==> r is Ok && r->Ok_0@ == intro_message_text(
                intro.deep_view(),
                place_id->0@,
            ) && final(self).phase is Sending,
            place_id is None ==> r is Err && r->Err_0 is Validation && final(self).phase is Failed
                && r->Err_0->Validation_message@ == "No place ID set. Please ask the bot owner to fix this."@,
    {
        match intro_message(intro, place_id) {
            Ok(text) => {
                self.phase = SetupPhase::Sending;
                Ok(text)
            },
            Err(e) => {
                self.phase = SetupPhase::Failed;
                Err(e)
            },
        }
    }

    /// Note that the anchor message has been sent and which id it got.  The
    /// caller must now persist (guild, channel, anchor) to the store.
    pub fn sent(&mut self, message: MessageId)
        requires
            old(self).phase is Sending,
        ensures
            final(self).guild == old(self).guild,
            final(self).channel == old(self).channel,
            final(self).purge == old(self).purge,
            final(self).anchor == Some(message),
            final(self).phase is Persisting,
    {
        self.anchor = Some(message);
        self.phase = SetupPhase::Persisting;
    }

    /// Note that the store write is durable, and only now update the cache,
    /// so the cache never reflects state not yet persisted.
    pub fn persisted(&mut self, manager: &mut VerificationChannelManager)
        requires
            old(self).phase is Persisting,
            old(self).anchor is Some,
        ensures
            final(self).guild == old(self).guild,
            final(self).channel == old(self).channel,
            final(self).purge == old(self).purge,
            final(self).anchor == old(self).anchor,
            final(self).phase is Done,
            final(manager)@ == old(manager)@.insert(
                old(self).guild.0,
                Some((old(self).channel, old(self).anchor->0)),
            ),
    {
        let anchor = self.anchor.unwrap();
        manager.set_verification_channel(self.guild, self.channel, anchor);
        self.phase = SetupPhase::Done;
    }
}

/// Once a load's result has been recorded for a guild, that key is a hit:
/// every later read returns the recorded value and triggers no further
/// load.
pub proof fn lemma_load_recorded_once(
    cache: Map<u64, Option<(ChannelId, MessageId)>>,
    guild: GuildId,
    record: Option<(ChannelId, MessageId)>,
)
    ensures
        cache.insert(guild.0, record).contains_key(guild.0),
        cache.insert(guild.0, record)[guild.0] == record,
{
}

/// After a setup of `channel` for `guild` completes, the manager answers
/// that `channel` is the guild's verification channel.
pub proof fn lemma_setup_establishes_channel(
    cache: Map<u64, Option<(ChannelId, MessageId)>>,
    guild: GuildId,
    channel: ChannelId,
    anchor: MessageId,
)
    ensures
        is_verification_channel_spec(
            cache.insert(guild.0, Some((channel, anchor))),
            guild,
            channel,
        ),
{
}

/// Evicting a guild leaves no cache entry behind: the guild's next read is
/// a miss and performs a fresh store load rather than returning a stale
/// value.
pub proof fn lemma_remove_evicts(cache: Map<u64, Option<(ChannelId, MessageId)>>, guild: GuildId)
    ensures
        !cache.remove(guild.0).contains_key(guild.0),
{
}

} // verus!
