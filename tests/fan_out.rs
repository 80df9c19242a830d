use indexer_feed::contract::{ContractId, ParseError};
use indexer_feed::progress::{priming_query, priming_responses, response_for, PrimingQuery, ProgressRecord};
use indexer_feed::registry::{IndexerManager, Subscription};

fn record(head: i64, tps: f64, ts: i64, address: &str) -> ProgressRecord {
    ProgressRecord {
        head,
        tps_bits: tps.to_bits(),
        last_block_timestamp: ts,
        contract_address: address.to_string(),
    }
}

fn id_of(last: u8) -> ContractId {
    let mut b = [0u8; 32];
    b[31] = last;
    ContractId::from_bytes_be(b)
}

fn wire_of(last: u8) -> Vec<u8> {
    let mut b = vec![0u8; 32];
    b[31] = last;
    b
}

#[test]
fn wildcard_snapshot_on_empty_store() {
    let zero = ContractId::zero();
    assert!(matches!(priming_query(&zero), PrimingQuery::All));
    let priming = priming_responses(&zero, &Vec::new());
    assert!(priming.is_empty());

    let mut subs: IndexerManager<u32> = IndexerManager::new();
    let id = subs.add_subscriber(zero, 7).ok().unwrap();
    let plan = subs.plan_update(&record(10, 1.5, 1700000000, "0x1")).unwrap();
    assert_eq!(plan.recipients, vec![id]);
    assert_eq!(plan.response.head, 10);
    assert_eq!(f64::from_bits(plan.response.tps_bits), 1.5);
    assert_eq!(plan.response.last_block_timestamp, 1700000000);
    assert_eq!(plan.response.contract_address, wire_of(1));
}

#[test]
fn filtered_subscribe_priming() {
    let filter = id_of(1);
    let rows = vec![record(5, 2.0, 1700000100, "0x1")];
    let priming = priming_responses(&filter, &rows);
    assert_eq!(priming.len(), 1);
    assert_eq!(priming[0].head, 5);
    assert_eq!(f64::from_bits(priming[0].tps_bits), 2.0);
    assert_eq!(priming[0].last_block_timestamp, 1700000100);
    assert_eq!(priming[0].contract_address, wire_of(1));

    let mut subs: IndexerManager<u32> = IndexerManager::new();
    let id = subs.add_subscriber(filter, 1).ok().unwrap();
    let other = subs.plan_update(&record(6, 0.0, 1, "0x2")).unwrap();
    assert!(other.recipients.is_empty());
    let own = subs.plan_update(&record(6, 0.0, 1, "0x1")).unwrap();
    assert_eq!(own.recipients, vec![id]);
}

#[test]
fn wildcard_priming_carries_zero_address() {
    let zero = ContractId::zero();
    let rows = vec![record(1, 0.0, 1, "0x1"), record(2, 0.0, 2, "0x2")];
    let priming = priming_responses(&zero, &rows);
    assert_eq!(priming.len(), 2);
    assert_eq!(priming[0].head, 1);
    assert_eq!(priming[1].head, 2);
    assert_eq!(priming[0].contract_address, vec![0u8; 32]);
    assert_eq!(priming[1].contract_address, vec![0u8; 32]);
}

#[test]
fn cleanup_on_consumer_drop() {
    let mut subs: IndexerManager<u32> = IndexerManager::new();
    subs.add_subscriber(ContractId::zero(), 1).ok().unwrap();
    assert_eq!(subs.len(), 1);
    let plan = subs.plan_update(&record(1, 0.0, 1, "0x3")).unwrap();
    // every send fails: the receiver is gone
    subs.remove_subscribers(&plan.recipients);
    assert_eq!(subs.len(), 0);
}

#[test]
fn no_leak_after_many_drops() {
    let mut subs: IndexerManager<u32> = IndexerManager::new();
    for i in 0..20u32 {
        subs.add_subscriber(ContractId::zero(), i).ok().unwrap();
    }
    assert_eq!(subs.len(), 20);
    let plan = subs.plan_update(&record(1, 0.0, 1, "0x9")).unwrap();
    assert_eq!(plan.recipients.len(), 20);
    subs.remove_subscribers(&plan.recipients);
    assert_eq!(subs.len(), 0);
}

#[test]
fn two_subscribers_one_disconnects() {
    let mut subs: IndexerManager<u32> = IndexerManager::new();
    let s1 = subs.add_subscriber(id_of(1), 1).ok().unwrap();
    let s2 = subs.add_subscriber(id_of(1), 2).ok().unwrap();
    let plan = subs.plan_update(&record(3, 0.0, 3, "0x1")).unwrap();
    let mut got = plan.recipients.clone();
    got.sort();
    let mut want = vec![s1, s2];
    want.sort();
    assert_eq!(got, want);
    subs.remove_subscribers(&vec![s1]);
    assert!(!subs.contains(s1));
    assert!(subs.contains(s2));
    assert_eq!(subs.sender(s2), Some(&2));
    assert_eq!(subs.sender(s1), None);
}

#[test]
fn malformed_broker_event() {
    let mut subs: IndexerManager<u32> = IndexerManager::new();
    let id = subs.add_subscriber(ContractId::zero(), 1).ok().unwrap();
    assert_eq!(subs.plan_update(&record(1, 0.0, 1, "not-hex")).err(), Some(ParseError::InvalidFelt));
    let plan = subs.plan_update(&record(2, 0.0, 2, "0x1")).unwrap();
    assert_eq!(plan.recipients, vec![id]);
}

#[test]
fn filter_soundness_and_completeness() {
    let mut subs: IndexerManager<u32> = IndexerManager::new();
    let a = subs.add_subscriber(id_of(1), 1).ok().unwrap();
    let b = subs.add_subscriber(id_of(2), 2).ok().unwrap();
    let w = subs.add_subscriber(ContractId::zero(), 3).ok().unwrap();
    let mut got = subs.recipients(&id_of(2));
    got.sort();
    let mut want = vec![b, w];
    want.sort();
    assert_eq!(got, want);
    assert!(!got.contains(&a));
}

#[test]
fn unregistered_subscriber_gets_no_live_update() {
    let mut subs: IndexerManager<u32> = IndexerManager::new();
    assert!(subs.recipients(&id_of(1)).is_empty());
    let id = subs.add_subscriber(ContractId::zero(), 1).ok().unwrap();
    assert_eq!(subs.recipients(&id_of(1)), vec![id]);
}

#[test]
fn insert_refuses_taken_id() {
    let mut subs: IndexerManager<u32> = IndexerManager::new();
    let sub = indexer_feed::registry::IndexerSubscriber { contract_address: id_of(1), sender: 1u32 };
    assert!(subs.insert_subscriber(42, sub).is_none());
    let again = indexer_feed::registry::IndexerSubscriber { contract_address: id_of(2), sender: 2u32 };
    let back = subs.insert_subscriber(42, again).unwrap();
    assert_eq!(back.sender, 2);
    assert_eq!(subs.len(), 1);
    assert_eq!(subs.sender(42), Some(&1));
}

#[test]
fn remove_is_idempotent() {
    let mut subs: IndexerManager<u32> = IndexerManager::new();
    let id = subs.add_subscriber(ContractId::zero(), 1).ok().unwrap();
    subs.remove_subscriber(id);
    subs.remove_subscriber(id);
    assert_eq!(subs.len(), 0);
}

#[test]
fn wire_filter_forms() {
    assert!(ContractId::from_wire(&[]).unwrap().is_zero());
    assert!(ContractId::from_wire(&[0u8; 32]).unwrap().is_zero());
    let id = ContractId::from_wire(&wire_of(5)).unwrap();
    assert!(id.same_as(&id_of(5)));
    assert_eq!(ContractId::from_wire(&[1u8, 2, 3]).err(), Some(ParseError::InvalidLength));
    assert_eq!(ContractId::from_wire(&[0u8; 33]).err(), Some(ParseError::InvalidLength));
}

#[test]
fn address_is_32_bytes_on_wire() {
    assert_eq!(id_of(1).to_wire().len(), 32);
    assert_eq!(ContractId::zero().to_wire(), vec![0u8; 32]);
    let r = response_for(&record(1, 0.0, 1, "0x1"), &id_of(0xab));
    assert_eq!(r.contract_address, wire_of(0xab));
}

#[test]
fn parse_hex_and_decimal() {
    assert!(ContractId::parse("0x1").unwrap().same_as(&id_of(1)));
    assert!(ContractId::parse("0xff").unwrap().same_as(&id_of(255)));
    assert!(ContractId::parse("0x00000000000000000000000000000000000000000000000000000000000000ab")
        .unwrap()
        .same_as(&id_of(0xab)));
    assert!(ContractId::parse("0x0").unwrap().is_zero());
    assert_eq!(ContractId::parse("not-hex").err(), Some(ParseError::InvalidFelt));
    assert_eq!(ContractId::parse("0xzz").err(), Some(ParseError::InvalidFelt));
}

#[test]
fn priming_query_by_hex_key() {
    match priming_query(&id_of(0x1f)) {
        PrimingQuery::ByAddress { key } => assert_eq!(key, "0x1f"),
        PrimingQuery::All => panic!("expected a keyed read"),
    }
    assert_eq!(id_of(1).to_hex(), "0x1");
}

#[test]
fn admits_rule() {
    assert!(ContractId::zero().admits(&id_of(9)));
    assert!(id_of(9).admits(&id_of(9)));
    assert!(!id_of(8).admits(&id_of(9)));
}

#[test]
fn decimal_text_is_no_address() {
    assert_eq!(ContractId::parse("255").err(), Some(ParseError::InvalidFelt));
    assert_eq!(ContractId::parse("").err(), Some(ParseError::InvalidFelt));
    assert_eq!(ContractId::parse("0").err(), Some(ParseError::InvalidFelt));
    let two_to_256 =
        "115792089237316195423570985008687907853269984665640564039457584007913129639936";
    assert_eq!(ContractId::parse(two_to_256).err(), Some(ParseError::InvalidFelt));
    let mut subs: IndexerManager<u32> = IndexerManager::new();
    subs.add_subscriber(ContractId::zero(), 1).ok().unwrap();
    assert_eq!(subs.plan_update(&record(1, 0.0, 1, two_to_256)).err(), Some(ParseError::InvalidFelt));
}

#[test]
fn subscribe_on_empty_registry_succeeds() {
    let mut subs: IndexerManager<u32> = IndexerManager::new();
    assert_eq!(subs.len(), 0);
    let id = subs.add_subscriber(ContractId::zero(), 9).ok().unwrap();
    assert_eq!(subs.len(), 1);
    assert_eq!(subs.sender(id), Some(&9));
    assert!(subs.recipients(&id_of(4)).contains(&id));
}

#[test]
fn subscription_primes_then_registers() {
    let rows = vec![record(1, 0.5, 10, "0x1"), record(2, 0.25, 20, "0x2")];
    let mut pending = Subscription::new(ContractId::zero(), 5u32, &rows);
    assert!(!pending.is_primed());
    let mut seen = Vec::new();
    while let Some(r) = pending.next_priming() {
        assert_eq!(r.contract_address, vec![0u8; 32]);
        seen.push(r.head);
        pending.mark_queued();
    }
    assert_eq!(seen, vec![1, 2]);
    assert!(pending.is_primed());
    assert_eq!(*pending.sender(), 5);

    let mut subs: IndexerManager<u32> = IndexerManager::new();
    // still being primed: not a recipient of live updates
    assert!(subs.recipients(&id_of(1)).is_empty());
    let id = subs.register(pending).ok().unwrap();
    assert_eq!(subs.len(), 1);
    assert_eq!(subs.recipients(&id_of(1)), vec![id]);
}

#[test]
fn subscription_on_empty_store_is_primed_at_once() {
    let pending = Subscription::new(id_of(3), 1u32, &Vec::new());
    assert!(pending.next_priming().is_none());
    assert!(pending.is_primed());
    let mut subs: IndexerManager<u32> = IndexerManager::new();
    let id = subs.register(pending).ok().unwrap();
    assert_eq!(subs.recipients(&id_of(3)), vec![id]);
    assert!(subs.recipients(&id_of(4)).is_empty());
}
