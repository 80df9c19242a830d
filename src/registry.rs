use std::collections::HashMap;
use rand::Rng;
use vstd::prelude::*;
use crate::contract::{admits, felt_from_str, has_hex_prefix, ContractId, ParseError};
use crate::progress::{carries, priming_responses, response_for, IndexerResponse, ProgressRecord};

verus! {

broadcast use vstd::std_specs::hash::group_hash_axioms;

/// Relies on rand's `thread_rng().gen::<usize>()`: a value drawn uniformly
/// from the whole range of `usize`. Nothing is promised of which one.
#[verifier::external_body]
fn random_id() -> (r: usize) {
    rand::thread_rng().gen::<usize>()
}

/// A registered subscriber: its filter and the sending end of its channel.
pub struct IndexerSubscriber<S> {
    /// The contract the subscriber follows; zero follows every contract.
    pub contract_address: ContractId,
    /// Where its messages go.
    pub sender: S,
}

/// The ids of the subscribers of `m` that receive an update for `contract`.
pub open spec fn recipient_ids<S>(m: Map<usize, IndexerSubscriber<S>>, contract: Seq<u8>) -> Set<
    usize,
> {
    Set::new(|id: usize| m.contains_key(id) && admits(m[id].contract_address@, contract))
}

/// One live update's delivery: the message and the subscribers it goes to.
pub struct FanOut {
    pub response: IndexerResponse,
    pub recipients: Vec<usize>,
}

/// A subscriber on its way in: its filter, its sender, the priming messages
/// it is owed in order, and how many of them are queued on its channel.
pub struct Subscription<S> {
    contract_address: ContractId,
    sender: S,
    priming: Vec<IndexerResponse>,
    queued: usize,
}

impl<S> Subscription<S> {
    /// The contract it follows.
    pub closed spec fn filter(&self) -> ContractId {
        self.contract_address
    }

    /// Where its messages go.
    pub closed spec fn destination(&self) -> S {
        self.sender
    }

    /// The priming messages it is owed, in order.
    pub closed spec fn owed(&self) -> Seq<IndexerResponse> {
        self.priming@
    }

    /// How many of them are queued.
    pub closed spec fn queued(&self) -> nat {
        self.queued as nat
    }

    /// At most every owed message is queued.
    pub closed spec fn wf(&self) -> bool {
        self.queued <= self.priming@.len()
    }

    /// Every owed message is queued.
    pub open spec fn primed(&self) -> bool {
        self.queued() == self.owed().len()
    }

    /// A subscriber that follows `contract_address`, owed one priming
    /// message per stored row, in order, none of them queued yet. Each
    /// message names the filter itself as 32 bytes.
    pub fn new(contract_address: ContractId, sender: S, rows: &Vec<ProgressRecord>) -> (r: Subscription<S>)
        ensures
            r.wf(),
            r.filter() == contract_address,
            r.destination() == sender,
            r.queued() == 0,
            r.owed().len() == rows@.len(),
            forall|i: int| 0 <= i < rows@.len() ==> carries(#[trigger] r.owed()[i], rows@[i], contract_address@),
            forall|i: int| 0 <= i < rows@.len() ==> (#[trigger] r.owed()[i]).contract_address@.len() == 32,
    {
        let priming = priming_responses(&contract_address, rows);
        Subscription { contract_address, sender, priming, queued: 0 }
    }

    /// The next priming message to queue, if any is left.
    pub fn next_priming(&self) -> (r: Option<&IndexerResponse>)
        requires
            self.wf(),
        ensures
            r is None <==> self.primed(),
            r is Some ==> *r->Some_0 == self.owed()[self.queued() as int],
    {
        if self.queued < self.priming.len() {
            Some(&self.priming[self.queued])
        } else {
            None
        }
    }

    /// Records that the next priming message is queued.
    pub fn mark_queued(&mut self)
        requires
            old(self).wf(),
            !old(self).primed(),
        ensures
            final(self).wf(),
            final(self).queued() == old(self).queued() + 1,
            final(self).owed() == old(self).owed(),
            final(self).filter() == old(self).filter(),
            final(self).destination() == old(self).destination(),
    {
        let owed = self.priming.len();
        assert(self.queued < owed);
        self.queued = self.queued + 1;
    }

    /// Whether every owed message is queued.
    pub fn is_primed(&self) -> (r: bool)
        requires
            self.wf(),
        ensures
            r == self.primed(),
    {
        self.queued == self.priming.len()
    }

    /// Where its messages go.
    pub fn sender(&self) -> (r: &S)
        ensures
            *r == self.destination(),
    {
        &self.sender
    }
}

/// The registry of live subscribers, keyed by subscription id.
pub struct IndexerManager<S> {
    subscribers: HashMap<usize, IndexerSubscriber<S>>,
}

impl<S> View for IndexerManager<S> {
    type V = Map<usize, IndexerSubscriber<S>>;

    closed spec fn view(&self) -> Map<usize, IndexerSubscriber<S>> {
        self.subscribers@
    }
}

impl<S> IndexerManager<S> {
    /// An empty registry.
    pub fn new() -> (r: IndexerManager<S>)
        ensures
            r@ == Map::<usize, IndexerSubscriber<S>>::empty(),
            r@.dom().finite(),
    {
        IndexerManager { subscribers: HashMap::new() }
    }

    /// The number of registered subscribers.
    pub fn len(&self) -> (r: usize)
        ensures
            r == self@.len(),
            self@.dom().finite(),
    {
        self.subscribers.len()
    }

    /// Whether `id` is registered.
    pub fn contains(&self, id: usize) -> (r: bool)
        ensures
            r == self@.contains_key(id),
    {
        self.subscribers.contains_key(&id)
    }

    /// The sending end registered under `id`, if any.
    pub fn sender(&self, id: usize) -> (r: Option<&S>)
        ensures
            match r {
                Some(s) => self@.contains_key(id) && *s == self@[id].sender,
                None => !self@.contains_key(id),
            },
    {
        match self.subscribers.get(&id) {
            Some(sub) => Some(&sub.sender),
            None => None,
        }
    }

    /// Registers `sub` under `id` if `id` is free; leaves the registry as it
    /// was and returns `sub` if `id` is taken.
    pub fn insert_subscriber(&mut self, id: usize, sub: IndexerSubscriber<S>) -> (r: Option<
        IndexerSubscriber<S>,
    >)
        ensures
            final(self)@.dom().finite(),
            !old(self)@.contains_key(id) ==> final(self)@.len() == old(self)@.len() + 1,
            old(self)@.contains_key(id) ==> final(self)@ == old(self)@ && r == Some(sub),
            !old(self)@.contains_key(id) ==> final(self)@ == old(self)@.insert(id, sub) && r is None,
    {
        if self.subscribers.contains_key(&id) {
            Some(sub)
        } else {
            self.subscribers.insert(id, sub);
            None
        }
    }

    /// Registers a subscriber that follows `contract_address` under a fresh
    /// random id, and returns that id. On the unlikely draw of an id that is
    /// taken, nothing is registered, and the taken id and the subscriber come
    /// back; on an empty registry this cannot happen.
    pub fn add_subscriber(&mut self, contract_address: ContractId, sender: S) -> (r: Result<
        usize,
        (usize, IndexerSubscriber<S>),
    >)
        ensures
            final(self)@.dom().finite(),
            old(self)@.dom() == Set::<usize>::empty() ==> r is Ok,
            match r {
                Ok(id) => !old(self)@.contains_key(id) && final(self)@ == old(self)@.insert(
                    id,
                    (IndexerSubscriber { contract_address, sender }),
                ) && final(self)@.len() == old(self)@.len() + 1,
                Err((id, sub)) => old(self)@.contains_key(id) && final(self)@ == old(self)@
                    && sub == (IndexerSubscriber { contract_address, sender }),
            },
    {
        let id = random_id();
        match self.insert_subscriber(id, IndexerSubscriber { contract_address, sender }) {
            None => Ok(id),
            Some(sub) => {
                assert(old(self)@.dom().contains(id));
                Err((id, sub))
            },
        }
    }

    /// Registers a subscriber once its whole priming snapshot is queued, so
    /// that no live update can reach it first. On the unlikely draw of a
    /// taken id, nothing is registered and the subscription comes back as it
    /// was; on an empty registry this cannot happen.
    pub fn register(&mut self, sub: Subscription<S>) -> (r: Result<usize, (usize, Subscription<S>)>)
        requires
            sub.wf(),
            sub.primed(),
        ensures
            final(self)@.dom().finite(),
            old(self)@.dom() == Set::<usize>::empty() ==> r is Ok,
            match r {
                Ok(id) => !old(self)@.contains_key(id) && final(self)@ == old(self)@.insert(
                    id,
                    (IndexerSubscriber { contract_address: sub.filter(), sender: sub.destination() }),
                ) && final(self)@.len() == old(self)@.len() + 1,
                Err((id, back)) => old(self)@.contains_key(id) && final(self)@ == old(self)@
                    && back == sub,
            },
    {
        let Subscription { contract_address, sender, priming, queued } = sub;
        match self.add_subscriber(contract_address, sender) {
            Ok(id) => Ok(id),
            Err((id, back)) => Err((id, Subscription { contract_address, sender: back.sender, priming, queued })),
        }
    }

    /// Unregisters `id`; nothing happens if it is not registered.
    pub fn remove_subscriber(&mut self, id: usize)
        ensures
            final(self)@ == old(self)@.remove(id),
            final(self)@.dom().finite(),
    {
        self.subscribers.remove(&id);
    }

    /// Unregisters every id of `ids`.
    pub fn remove_subscribers(&mut self, ids: &Vec<usize>)
        ensures
            final(self)@ == old(self)@.remove_keys(ids@.to_set()),
            final(self)@.dom().finite(),
    {
        let ghost start = self@;
        for i in 0..ids.len()
            invariant
                self@ == start.remove_keys(ids@.subrange(0, i as int).to_set()),
        {
            self.remove_subscriber(ids[i]);
            assert(ids@.subrange(0, i + 1).to_set() =~= ids@.subrange(0, i as int).to_set().insert(
                ids@[i as int],
            )) by {
                assert(ids@.subrange(0, i + 1) =~= ids@.subrange(0, i as int).push(ids@[i as int]));
                ids@.subrange(0, i as int).lemma_push_to_set_commute(ids@[i as int]);
            }
            assert(self@ =~= start.remove_keys(ids@.subrange(0, i + 1).to_set()));
        }
        assert(ids@.subrange(0, ids@.len() as int) =~= ids@);
    }

    /// The ids of the subscribers that receive an update for `contract`:
    /// those that follow it and those that follow every contract, each once.
    pub fn recipients(&self, contract: &ContractId) -> (r: Vec<usize>)
        ensures
            r@.to_set() == recipient_ids(self@, contract@),
            r@.no_duplicates(),
    {
        let mut out: Vec<usize> = Vec::new();
        let ghost mut seen: Set<usize> = Set::empty();
        for id in it: self.subscribers.keys()
            invariant
                it.seq().unref().to_set() == self@.dom(),
                it.seq().unref().no_duplicates(),
                seen == it.seq().unref().subrange(0, it.index() as int).to_set(),
                it.index() == it.seq().len() ==> seen == self@.dom(),
                out@.no_duplicates(),
                forall|k: usize|
                    #[trigger] out@.contains(k) <==> (seen.contains(k) && self@.contains_key(k)
                        && admits(self@[k].contract_address@, contract@)),
        {
            let ghost keys = it.seq().unref();
            let ghost i = it.index();
            assert(keys[i] == *id);
            assert(keys.contains(*id));
            assert(!seen.contains(*id)) by {
                if seen.contains(*id) {
                    let pre = keys.subrange(0, i as int);
                    assert(pre.contains(*id));
                    let j = choose|j: int| 0 <= j < pre.len() && pre[j] == *id;
                    assert(keys[j] == keys[i as int]);
                }
            }
            let sub = self.subscribers.get(id).unwrap();
            assert(*sub == self@[*id]);
            let ghost before = out@;
            assert(!before.contains(*id));
            if sub.contract_address.admits(contract) {
                out.push(*id);
                assert(out@ =~= before.push(*id));
                assert forall|k: usize| #[trigger] out@.contains(k) <==> (before.contains(k) || k
                    == *id) by {
                    if before.contains(k) {
                        let j = choose|j: int| 0 <= j < before.len() && before[j] == k;
                        assert(out@[j] == k);
                    }
                    if k == *id {
                        assert(out@[before.len() as int] == k);
                    }
                    if out@.contains(k) {
                        let j = choose|j: int| 0 <= j < out@.len() && out@[j] == k;
                        if j < before.len() {
                            assert(before[j] == k);
                        }
                    }
                }
            }
            proof {
                assert(keys.subrange(0, i + 1) =~= keys.subrange(0, i as int).push(keys[i as int]));
                keys.subrange(0, i as int).lemma_push_to_set_commute(keys[i as int]);
                assert(keys.subrange(0, keys.len() as int) =~= keys);
                seen = seen.insert(*id);
            }
        }
        assert(out@.to_set() =~= recipient_ids(self@, contract@));
        out
    }

    /// The delivery of `update` once its contract has been read as
    /// `contract`: a response naming `contract`, for every subscriber that
    /// follows it or follows every contract.
    pub fn plan_delivery(&self, update: &ProgressRecord, contract: &ContractId) -> (r: FanOut)
        ensures
            carries(r.response, *update, contract@),
            r.response.contract_address@.len() == 32,
            r.recipients@.to_set() == recipient_ids(self@, contract@),
            r.recipients@.no_duplicates(),
    {
        FanOut { response: response_for(update, contract), recipients: self.recipients(contract) }
    }

    /// The delivery of a live update: its contract is read from its
    /// `0x`-prefixed hexadecimal text; an update whose contract cannot be read
    /// goes to nobody.
    pub fn plan_update(&self, update: &ProgressRecord) -> (r: Result<FanOut, ParseError>)
        ensures
            !has_hex_prefix(update.contract_address@) ==> r == Err::<FanOut, ParseError>(
                ParseError::InvalidFelt,
            ),
            has_hex_prefix(update.contract_address@) ==> match felt_from_str(
                update.contract_address@,
            ) {
                Some(c) => r is Ok && carries(r->Ok_0.response, *update, c)
                    && r->Ok_0.response.contract_address@.len() == 32
                    && r->Ok_0.recipients@.to_set() == recipient_ids(self@, c)
                    && r->Ok_0.recipients@.no_duplicates(),
                None => r == Err::<FanOut, ParseError>(ParseError::InvalidFelt),
            },
    {
        match ContractId::parse(update.contract_address.as_str()) {
            Ok(contract) => Ok(self.plan_delivery(update, &contract)),
            Err(e) => Err(e),
        }
    }
}

} // verus!
