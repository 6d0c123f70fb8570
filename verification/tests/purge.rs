use sylph_verifier::errors::Error;
use sylph_verifier::ids::MessageId;
use sylph_verifier::purge::{PurgeDecision, PurgeProtocol};

// A channel as the messaging service would list it: newest first, at most
// 100 per page.
fn page_of(channel: &[MessageId]) -> Vec<MessageId> {
    channel.iter().take(100).copied().collect()
}

// Drive the protocol against an in-memory channel, performing each decision,
// until it finishes or gives up.  Returns (delete rounds run, failure).
fn run_purge(
    channel: &mut Vec<MessageId>,
    ignore: Option<MessageId>,
    mut inject: impl FnMut(&mut Vec<MessageId>),
) -> (u64, Option<Error>) {
    let mut protocol = PurgeProtocol::new();
    let mut rounds: u64 = 0;
    loop {
        let page = page_of(channel);
        match protocol.on_page(&page, ignore) {
            PurgeDecision::Finished => return (rounds, None),
            PurgeDecision::DeleteAndContinue { ids } => {
                rounds += 1;
                channel.retain(|m| !ids.contains(m));
                inject(channel);
            }
            PurgeDecision::DeleteAndFail { ids, error } => {
                rounds += 1;
                channel.retain(|m| !ids.contains(m));
                return (rounds, Some(error));
            }
        }
    }
}

fn fresh_channel(n: u64) -> Vec<MessageId> {
    (0..n).map(MessageId).collect()
}

#[test]
fn purge_empty_channel() {
    let mut channel = fresh_channel(0);
    let (rounds, err) = run_purge(&mut channel, None, |_| {});
    assert_eq!(rounds, 0);
    assert!(err.is_none());
    assert!(channel.is_empty());
}

#[test]
fn purge_one_message() {
    let mut channel = fresh_channel(1);
    let (rounds, err) = run_purge(&mut channel, None, |_| {});
    assert_eq!(rounds, 1);
    assert!(err.is_none());
    assert!(channel.is_empty());
}

#[test]
fn purge_exactly_one_page() {
    let mut channel = fresh_channel(100);
    let (rounds, err) = run_purge(&mut channel, None, |_| {});
    assert_eq!(rounds, 1);
    assert!(err.is_none());
    assert!(channel.is_empty());
}

#[test]
fn purge_paginates_over_250_messages() {
    let mut channel = fresh_channel(250);
    let (rounds, err) = run_purge(&mut channel, None, |_| {});
    assert_eq!(rounds, 3);
    assert!(err.is_none());
    assert!(channel.is_empty());
}

#[test]
fn purge_keeps_the_excluded_message() {
    let anchor = MessageId(1);
    let mut channel = fresh_channel(3);
    let (rounds, err) = run_purge(&mut channel, Some(anchor), |_| {});
    assert_eq!(rounds, 1);
    assert!(err.is_none());
    assert_eq!(channel, vec![anchor]);
}

#[test]
fn purge_of_only_the_excluded_message_is_a_noop() {
    let anchor = MessageId(0);
    let mut channel = fresh_channel(1);
    let (rounds, err) = run_purge(&mut channel, Some(anchor), |_| {});
    assert_eq!(rounds, 0);
    assert!(err.is_none());
    assert_eq!(channel, vec![anchor]);
}

#[test]
fn purge_gives_up_after_exactly_five_rounds() {
    let mut next_id: u64 = 1000;
    let mut channel = fresh_channel(10);
    let (rounds, err) = run_purge(&mut channel, None, |channel| {
        // Messages keep arriving faster than they are removed.
        for _ in 0..3 {
            channel.push(MessageId(next_id));
            next_id += 1;
        }
    });
    assert_eq!(rounds, 5);
    match err {
        Some(Error::Transient { message }) => {
            assert_eq!(message, "Could not delete all messages in 5 tries.");
        }
        other => panic!("expected a transient error, got {:?}", other),
    }
}
