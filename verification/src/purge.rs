use crate::errors::Error;
use crate::ids::MessageId;
use vstd::prelude::*;

verus! {

/// How many delete rounds the purge protocol performs before giving up.
/// This bounds runaway behaviour (messages arriving faster than they can be
/// deleted); it is a safety valve, not a throughput guarantee.
pub const MAX_PURGE_ATTEMPTS: u64 = 5;

/// How many messages one listing request may return at most.
pub const PURGE_PAGE_LIMIT: u64 = 100;

/// The messages of a listed page that the purge must delete: the page in
/// its listed order, with the excluded id dropped.
pub open spec fn kept(listed: Seq<MessageId>, ignore: Option<MessageId>) -> Seq<MessageId>
    decreases listed.len(),
{
    if listed.len() == 0 {
        Seq::empty()
    } else {
        kept(listed.drop_last(), ignore) + if Some(listed.last()) == ignore {
            Seq::empty()
        } else {
            seq![listed.last()]
        }
    }
}

/// With nothing excluded, the purge deletes the whole page as listed.
pub proof fn lemma_kept_no_ignore(listed: Seq<MessageId>)
    ensures
        kept(listed, None) == listed,
    decreases listed.len(),
{
    if listed.len() == 0 {
        assert(kept(listed, None) =~= listed);
    } else {
        lemma_kept_no_ignore(listed.drop_last());
        assert(kept(listed, None) =~= listed);
    }
}

/// The excluded id is never deleted, and everything else on the page is.
pub proof fn lemma_kept_excludes(listed: Seq<MessageId>, ignore: MessageId)
    ensures
        forall|i: int|
            0 <= i < kept(listed, Some(ignore)).len() ==> kept(listed, Some(ignore))[i] != ignore,
        forall|m: MessageId|
            listed.contains(m) && m != ignore ==> kept(listed, Some(ignore)).contains(m),
    decreases listed.len(),
{
    if listed.len() > 0 {
        lemma_kept_excludes(listed.drop_last(), ignore);
        let k = kept(listed, Some(ignore));
        let kp = kept(listed.drop_last(), Some(ignore));
        assert forall|m: MessageId| listed.contains(m) && m != ignore implies k.contains(m) by {
            let i = choose|i: int| 0 <= i < listed.len() && listed[i] == m;
            if i < listed.len() - 1 {
                assert(listed.drop_last()[i] == m);
                assert(listed.drop_last().contains(m));
                let j = choose|j: int| 0 <= j < kp.len() && kp[j] == m;
                assert(k[j] == m);
            } else {
                assert(listed.last() == m);
                assert(k[k.len() - 1] == m);
            }
        }
    }
}

/// What the caller must do with a page the purge protocol has looked at.
pub enum PurgeDecision {
    /// Nothing but the excluded message is left: the purge succeeded.
    Finished,
    /// Bulk-delete these messages, then list the channel again and hand the
    /// next page back to the protocol.
    DeleteAndContinue { ids: Vec<MessageId> },
    /// Bulk-delete these messages, then give the operation up with the
    /// carried error: the attempt bound has been reached.
    DeleteAndFail { ids: Vec<MessageId>, error: Error },
}

/// The bounded-retry purge of a channel: deletes all messages except an
/// optional excluded one, through a paginated listing interface.
///
/// The protocol only decides; the caller performs the external work.  It
/// repeatedly lists up to [`PURGE_PAGE_LIMIT`] of the most recent messages
/// and feeds each page to [`PurgeProtocol::on_page`], following the decision
/// it gets back, until the decision is `Finished` or `DeleteAndFail`.
pub struct PurgeProtocol {
    /// Delete rounds performed so far; never exceeds [`MAX_PURGE_ATTEMPTS`].
    pub tries: u64,
}

impl PurgeProtocol {
    /// Start a purge: no delete round has run yet.
    pub fn new() -> (r: PurgeProtocol)
        ensures
            r.tries == 0,
    {
        PurgeProtocol { tries: 0 }
    }

    /// Decide what to do with one listed page.
    ///
    /// The page minus the excluded id is what remains to delete.  An empty
    /// remainder ends the purge successfully.  Otherwise the remainder is
    /// deleted and the attempt counter grows; the round that reaches the
    /// attempt bound is still performed, but the protocol fails right after
    /// it instead of listing again.
    pub fn on_page(&mut self, listed: &Vec<MessageId>, ignore: Option<MessageId>) -> (d:
        PurgeDecision)
        requires
            old(self).tries < MAX_PURGE_ATTEMPTS,
        ensures
            kept(listed@, ignore).len() == 0 ==> {
                &&& d is Finished
                &&& final(self).tries == old(self).tries
            },
            kept(listed@, ignore).len() > 0 ==> {
                &&& final(self).tries == old(self).tries + 1
                &&& old(self).tries + 1 < MAX_PURGE_ATTEMPTS ==> d is DeleteAndContinue
                    && d->DeleteAndContinue_ids@ == kept(listed@, ignore)
                &&& old(self).tries + 1 == MAX_PURGE_ATTEMPTS ==> d is DeleteAndFail
                    && d->DeleteAndFail_ids@ == kept(listed@, ignore)
                    && d->DeleteAndFail_error is Transient
                    && d->DeleteAndFail_error->Transient_message@ == "Could not delete all messages in 5 tries."@
            },
    {
        let mut ids: Vec<MessageId> = Vec::new();
        let mut i: usize = 0;
        while i < listed.len()
            invariant
                0 <= i <= listed@.len(),
                ids@ == kept(listed@.take(i as int), ignore),
            decreases listed@.len() - i,
        {
            let m = listed[i];
            let keep = match ignore {
                Some(ig) => m != ig,
                None => true,
            };
            proof {
                assert(listed@.take(i + 1 as int).drop_last() =~= listed@.take(i as int));
                assert(listed@.take(i + 1 as int).last() == listed@[i as int]);
            }
            if keep {
                ids.push(m);
            }
            i = i + 1;
        }
        proof {
            assert(listed@.take(listed@.len() as int) =~= listed@);
        }
        if ids.len() == 0 {
            PurgeDecision::Finished
        } else {
            self.tries = self.tries + 1;
            if self.tries < MAX_PURGE_ATTEMPTS {
                PurgeDecision::DeleteAndContinue { ids }
            } else {
                PurgeDecision::DeleteAndFail {
                    ids,
                    error: Error::Transient {
                        message: "Could not delete all messages in 5 tries.".to_owned(),
                    },
                }
            }
        }
    }
}

} // verus!
