//! What holds of every registry and every live update.

use vstd::prelude::*;
use crate::contract::{admits, is_zero};
use crate::registry::{recipient_ids, IndexerSubscriber};

verus! {

/// Once every registered subscriber has dropped its receiving end, one live
/// update that each of them follows removes them all: every send fails, and
/// the failed ids are what `remove_subscribers` takes out.
pub proof fn lemma_no_leak<S>(m: Map<usize, IndexerSubscriber<S>>, contract: Seq<u8>)
    requires
        forall|id: usize| #[trigger] m.contains_key(id) ==> admits(m[id].contract_address@, contract),
    ensures
        recipient_ids(m, contract) == m.dom(),
        m.remove_keys(recipient_ids(m, contract)).dom() == Set::<usize>::empty(),
{
    assert(recipient_ids(m, contract) =~= m.dom());
    assert(m.remove_keys(recipient_ids(m, contract)).dom() =~= Set::<usize>::empty());
}

/// A subscriber with a filter other than the wildcard receives only updates
/// for the contract it follows.
pub proof fn lemma_filter_soundness<S>(
    m: Map<usize, IndexerSubscriber<S>>,
    contract: Seq<u8>,
    id: usize,
)
    requires
        recipient_ids(m, contract).contains(id),
        !is_zero(m[id].contract_address@),
    ensures
        m.contains_key(id),
        m[id].contract_address@ == contract,
{
}

/// Every registered subscriber that follows the update's contract, or
/// follows every contract, receives the update.
pub proof fn lemma_filter_completeness<S>(
    m: Map<usize, IndexerSubscriber<S>>,
    contract: Seq<u8>,
    id: usize,
)
    requires
        m.contains_key(id),
        is_zero(m[id].contract_address@) || m[id].contract_address@ == contract,
    ensures
        recipient_ids(m, contract).contains(id),
{
}

/// A subscriber receives no live update before it is registered, and
/// `register` takes a subscription only once its priming messages are all
/// queued: whatever update comes while it is being primed passes it by.
pub proof fn lemma_snapshot_before_live<S>(
    m: Map<usize, IndexerSubscriber<S>>,
    contract: Seq<u8>,
    id: usize,
)
    requires
        !m.contains_key(id),
    ensures
        !recipient_ids(m, contract).contains(id),
{
}

/// The kind of a message in a subscriber's stream.
pub enum Delivery {
    /// A message of its priming snapshot.
    Priming,
    /// A live update.
    Live,
}

/// No priming message follows a live update.
pub open spec fn snapshot_first(s: Seq<Delivery>) -> bool {
    forall|i: int, j: int| 0 <= i < j < s.len() && #[trigger] s[i] is Live ==> #[trigger] s[j] is Live
}

/// The stream of a subscriber that is being primed holds priming messages
/// only; it may take more, and once registered it takes live updates: at
/// every step no priming message follows a live one.
pub proof fn lemma_stream_order(primed: Seq<Delivery>, more: Seq<Delivery>, live: nat)
    requires
        forall|i: int| 0 <= i < primed.len() ==> #[trigger] primed[i] is Priming,
        forall|i: int| 0 <= i < more.len() ==> #[trigger] more[i] is Priming,
    ensures
        snapshot_first(primed + more + Seq::new(live, |i: int| Delivery::Live)),
{
    let s = primed + more + Seq::new(live, |i: int| Delivery::Live);
    assert forall|i: int, j: int| 0 <= i < j < s.len() && #[trigger] s[i] is Live implies #[trigger] s[j] is Live by {
        if i < primed.len() {
            assert(s[i] == primed[i]);
        } else if i < primed.len() + more.len() {
            assert(s[i] == more[i - primed.len()]);
        }
        assert(j >= primed.len() + more.len());
    }
}

} // verus!
