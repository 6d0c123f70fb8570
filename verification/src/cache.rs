use crate::ids::{ChannelId, GuildId, MessageId};
use std::collections::HashMap;
use vstd::prelude::*;

verus! {

broadcast use vstd::std_specs::hash::group_hash_axioms;

/// The guild channel cache: a lazily populated mapping from guild identifier
/// to that guild's verification-channel record.
///
/// A present value of `None` means the store was consulted and the guild has
/// no verification channel configured; an absent key means the store has not
/// been consulted yet (a miss), so the caller must load the record from the
/// store and record the answer with [`ChannelCache::write`].  A failed load
/// is simply not recorded, so the next read retries it.
pub struct ChannelCache {
    entries: HashMap<u64, Option<(ChannelId, MessageId)>>,
}

impl View for ChannelCache {
    type V = Map<u64, Option<(ChannelId, MessageId)>>;

    closed spec fn view(&self) -> Map<u64, Option<(ChannelId, MessageId)>> {
        self.entries@
    }
}

impl ChannelCache {
    /// An empty cache: every key is a miss.
    pub fn new() -> (r: ChannelCache)
        ensures
            r@ == Map::<u64, Option<(ChannelId, MessageId)>>::empty(),
    {
        ChannelCache { entries: HashMap::new() }
    }

    /// Look a guild up.  `None` is a miss: the caller must load the record
    /// from the store; on success it records the answer with `write`, and on
    /// failure it records nothing, so the next read retries the load.
    pub fn read(&self, guild: GuildId) -> (r: Option<Option<(ChannelId, MessageId)>>)
        ensures
            self@.contains_key(guild.0) ==> r == Some(self@[guild.0]),
            !self@.contains_key(guild.0) ==> r is None,
    {
        match self.entries.get(&guild.0) {
            Some(v) => Some(*v),
            None => None,
        }
    }

    /// Atomically replace the value cached for a guild.
    pub fn write(&mut self, guild: GuildId, value: Option<(ChannelId, MessageId)>)
        ensures
            final(self)@ == old(self)@.insert(guild.0, value),
    {
        self.entries.insert(guild.0, value);
    }

    /// Evict the entry for a guild entirely, so the next read is a miss and
    /// performs a fresh store load.
    pub fn remove(&mut self, guild: GuildId)
        ensures
            final(self)@ == old(self)@.remove(guild.0),
    {
        self.entries.remove(&guild.0);
    }

    /// Reclaim memory held by the container without touching its contents.
    ///
    /// Relies on `std::collections::HashMap::shrink_to_fit`: it drops excess
    /// capacity and keeps every entry.
    #[verifier::external_body]
    pub fn shrink_to_fit(&mut self)
        ensures
            final(self)@ == old(self)@,
    {
        self.entries.shrink_to_fit();
    }
}

} // verus!
