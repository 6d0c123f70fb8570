use sylph_verifier::ids::{ChannelId, GuildId, MessageId};
use sylph_verifier::verification_channel::{PurgeScan, VerificationChannelManager};

// A tiny stand-in for the persistent store, counting how often it is read.
struct FakeStore {
    records: Vec<(u64, Option<(ChannelId, MessageId)>)>,
    loads: usize,
}

impl FakeStore {
    fn get(&mut self, guild: GuildId) -> Option<(ChannelId, MessageId)> {
        self.loads += 1;
        for (g, r) in &self.records {
            if *g == guild.0 {
                return *r;
            }
        }
        None
    }
}

// Read through the cache as the event loop would: on a miss, load from the
// store once and record the answer.
fn scan_through(
    mgr: &mut VerificationChannelManager,
    store: &mut FakeStore,
    guild: GuildId,
) -> PurgeScan {
    match mgr.delete_old_messages(guild) {
        PurgeScan::NeedLoad => {
            let record = store.get(guild);
            mgr.note_loaded(guild, record);
            mgr.delete_old_messages(guild)
        }
        hit => hit,
    }
}

#[test]
fn first_read_loads_once() {
    let mut mgr = VerificationChannelManager::new();
    let mut store = FakeStore {
        records: vec![(1, Some((ChannelId(10), MessageId(99))))],
        loads: 0,
    };
    let guild = GuildId(1);
    assert!(matches!(mgr.delete_old_messages(guild), PurgeScan::NeedLoad));
    let first = scan_through(&mut mgr, &mut store, guild);
    assert_eq!(
        first,
        PurgeScan::Purge {
            channel: ChannelId(10),
            keep: MessageId(99)
        }
    );
    assert_eq!(store.loads, 1);
    // Later reads for the same key hit the recorded value: no further load.
    for _ in 0..5 {
        let again = scan_through(&mut mgr, &mut store, guild);
        assert_eq!(again, first);
    }
    assert_eq!(store.loads, 1);
}

#[test]
fn guild_without_channel_is_cached_too() {
    let mut mgr = VerificationChannelManager::new();
    let mut store = FakeStore {
        records: vec![],
        loads: 0,
    };
    let guild = GuildId(7);
    assert_eq!(
        scan_through(&mut mgr, &mut store, guild),
        PurgeScan::Nothing
    );
    assert_eq!(
        scan_through(&mut mgr, &mut store, guild),
        PurgeScan::Nothing
    );
    assert_eq!(store.loads, 1);
}

#[test]
fn failed_load_is_not_cached() {
    let mut mgr = VerificationChannelManager::new();
    let guild = GuildId(3);
    // A load that fails records nothing, so the next read retries it.
    assert!(matches!(mgr.delete_old_messages(guild), PurgeScan::NeedLoad));
    assert!(matches!(mgr.delete_old_messages(guild), PurgeScan::NeedLoad));
}

#[test]
fn remove_evicts_and_forces_fresh_load() {
    let mut mgr = VerificationChannelManager::new();
    let mut store = FakeStore {
        records: vec![(1, Some((ChannelId(10), MessageId(99))))],
        loads: 0,
    };
    let guild = GuildId(1);
    scan_through(&mut mgr, &mut store, guild);
    assert_eq!(store.loads, 1);

    mgr.on_guild_remove(guild);
    // The store changed while the guild was away; the next read must see the
    // fresh record, not a stale cached one.
    store.records = vec![(1, Some((ChannelId(20), MessageId(5))))];
    let after = scan_through(&mut mgr, &mut store, guild);
    assert_eq!(store.loads, 2);
    assert_eq!(
        after,
        PurgeScan::Purge {
            channel: ChannelId(20),
            keep: MessageId(5)
        }
    );
}

#[test]
fn cleanup_tick_keeps_entries() {
    let mut mgr = VerificationChannelManager::new();
    let guild = GuildId(4);
    mgr.note_loaded(guild, Some((ChannelId(40), MessageId(41))));
    mgr.on_cleanup_tick();
    assert_eq!(
        mgr.delete_old_messages(guild),
        PurgeScan::Purge {
            channel: ChannelId(40),
            keep: MessageId(41)
        }
    );
}
