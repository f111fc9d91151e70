use multitoken::pair_map::PairMap;
use multitoken::{
    apply_batch, ApprovalStore, BalanceLedger, CollectionRegistry, Error, Event, Next,
};

#[test]
fn next_identifier_is_the_successor() {
    assert_eq!(0u64.next(), 1);
    assert_eq!(41u64.next(), 42);
    assert_eq!((u64::MAX - 1).next(), u64::MAX);
}

#[test]
fn pair_map_keeps_pairs_apart() {
    let mut map: PairMap<u8> = PairMap::new();
    assert_eq!(map.get(1, 2), None);
    map.insert(1, 2, 10);
    map.insert(2, 1, 20);
    map.insert(0, u64::MAX, 30);
    map.insert(u64::MAX, 0, 40);
    map.insert(1, 0, 50);
    assert_eq!(map.get(1, 2), Some(&10));
    assert_eq!(map.get(2, 1), Some(&20));
    assert_eq!(map.get(0, u64::MAX), Some(&30));
    assert_eq!(map.get(u64::MAX, 0), Some(&40));
    assert_eq!(map.get(1, 0), Some(&50));
    assert_eq!(map.get(0, 0), None);
    assert_eq!(map.get(0, 1), None);
    map.insert(1, 2, 11);
    assert_eq!(map.get(1, 2), Some(&11));
    assert_eq!(map.get(2, 1), Some(&20));
}

#[test]
fn pair_map_from_entries_lets_the_later_entry_count() {
    let map = PairMap::from_entries(&vec![(1, 2, 'a'), (3, 4, 'b'), (1, 2, 'c')]);
    assert_eq!(map.get(1, 2), Some(&'c'));
    assert_eq!(map.get(3, 4), Some(&'b'));
    assert_eq!(map.get(2, 1), None);
}

#[test]
fn registry_hands_out_the_counter() {
    let mut registry = CollectionRegistry::new();
    assert_eq!(registry.next_id(), 0);
    assert_eq!(registry.owner_of(0), None);
    assert_eq!(registry.create(5), 0);
    assert_eq!(registry.create(6), 1);
    assert_eq!(registry.create(5), 2);
    assert_eq!(registry.next_id(), 3);
    assert_eq!(registry.owner_of(0), Some(5));
    assert_eq!(registry.owner_of(1), Some(6));
    assert_eq!(registry.owner_of(2), Some(5));
    assert_eq!(registry.owner_of(3), None);
    assert_eq!(registry.all(), vec![(0, 5), (1, 6), (2, 5)]);
}

#[test]
fn registry_restores_the_collections_below_the_counter() {
    let registry = CollectionRegistry::restore(3, &vec![(1, 1), (0, 2), (2, 3), (1, 4)]);
    assert!(registry.is_some());
    let mut registry = registry.unwrap();
    assert_eq!(registry.next_id(), 3);
    assert_eq!(registry.owner_of(0), Some(2));
    assert_eq!(registry.owner_of(1), Some(4));
    assert_eq!(registry.owner_of(2), Some(3));
    assert_eq!(registry.all(), vec![(0, 2), (1, 4), (2, 3)]);
    assert_eq!(registry.create(9), 3);
    assert_eq!(registry.all(), vec![(0, 2), (1, 4), (2, 3), (3, 9)]);
    assert!(CollectionRegistry::restore(7, &vec![(3, 2), (7, 1)]).is_none());
    assert!(CollectionRegistry::restore(2, &vec![(0, 2), (0, 3)]).is_none());
    assert!(CollectionRegistry::restore(2, &vec![(0, 2), (1, 3), (2, 4)]).is_none());
    assert!(CollectionRegistry::restore(0, &vec![]).is_some());
}

#[test]
fn approval_store_upserts() {
    let mut store = ApprovalStore::new();
    assert!(!store.is_approved(1, 2));
    assert_eq!(store.set_approval(1, 2, true), Ok(()));
    assert!(store.is_approved(1, 2));
    assert!(!store.is_approved(2, 1));
    assert_eq!(store.set_approval(1, 2, true), Ok(()));
    assert!(store.is_approved(1, 2));
    assert_eq!(store.set_approval(1, 2, false), Ok(()));
    assert!(!store.is_approved(1, 2));
    assert_eq!(store.set_approval(3, 3, true), Err(Error::InvalidOperator));
    assert_eq!(store.set_approval(3, 3, false), Err(Error::InvalidOperator));
    assert!(!store.is_approved(3, 3));
    let restored = ApprovalStore::restore(&vec![(1, 2, true), (2, 1, true), (1, 2, false)]);
    assert!(!restored.is_approved(1, 2));
    assert!(restored.is_approved(2, 1));
}

#[test]
fn balance_ledger_debits_and_credits() {
    let mut ledger = BalanceLedger::new();
    assert_eq!(ledger.get(0, 1), 0);
    assert_eq!(ledger.entry(0, 1), None);
    assert_eq!(ledger.debit(0, 1, 0), Err(Error::CollectionDoesNotExist));
    assert_eq!(ledger.debit(0, 1, 5), Err(Error::CollectionDoesNotExist));
    ledger.credit(0, 1, 10);
    assert_eq!(ledger.get(0, 1), 10);
    assert_eq!(ledger.entry(0, 1), Some(10));
    assert_eq!(ledger.debit(0, 1, 11), Err(Error::InsufficientBalance));
    assert_eq!(ledger.get(0, 1), 10);
    assert_eq!(ledger.debit(0, 1, 4), Ok(()));
    assert_eq!(ledger.get(0, 1), 6);
    // A credit sets the entry, it does not add to it.
    ledger.credit(0, 1, 3);
    assert_eq!(ledger.get(0, 1), 3);
    assert_eq!(ledger.debit(0, 1, 3), Ok(()));
    assert_eq!(ledger.entry(0, 1), Some(0));
    assert_eq!(ledger.debit(0, 1, 0), Ok(()));
    assert_eq!(ledger.debit(0, 1, 1), Err(Error::InsufficientBalance));
    ledger.credit(1, 1, u128::MAX);
    assert_eq!(ledger.debit(1, 1, u128::MAX - 1), Ok(()));
    assert_eq!(ledger.get(1, 1), 1);
    let restored = BalanceLedger::restore(&vec![(0, 1, 5), (1, 0, 6), (0, 1, 7)]);
    assert_eq!(restored.get(0, 1), 7);
    assert_eq!(restored.get(1, 0), 6);
    assert_eq!(restored.entry(1, 1), None);
}

#[test]
fn engine_applies_positions_in_order() {
    let mut ledger = BalanceLedger::new();
    ledger.credit(0, 7, 10);
    ledger.credit(1, 7, 5);
    ledger.credit(2, 7, 8);
    assert_eq!(
        apply_batch(&mut ledger, 3, Some(7), Some(9), vec![0, 1, 2], vec![4, 6, 1]),
        Err(Error::InsufficientBalance)
    );
    assert_eq!(ledger.get(0, 7), 6);
    assert_eq!(ledger.get(0, 9), 4);
    assert_eq!(ledger.get(1, 7), 5);
    assert_eq!(ledger.entry(1, 9), None);
    assert_eq!(ledger.get(2, 7), 8);
    assert_eq!(ledger.entry(2, 9), None);
    // The same collection twice: the second debit sees what the first left.
    assert_eq!(
        apply_batch(&mut ledger, 3, Some(7), Some(9), vec![0, 0], vec![5, 1]),
        Ok(Event::TransferBatch {
            operator: 3,
            from: Some(7),
            to: Some(9),
            ids: vec![0, 0],
            values: vec![5, 1],
        })
    );
    assert_eq!(ledger.get(0, 7), 0);
    assert_eq!(ledger.get(0, 9), 1);
    assert_eq!(
        apply_batch(&mut ledger, 3, Some(7), None, vec![0, 5], vec![0, 1]),
        Err(Error::CollectionDoesNotExist)
    );
}

#[test]
fn engine_moves_within_one_account() {
    // Debited and credited in one step, the account ends with the amount moved.
    let mut ledger = BalanceLedger::new();
    ledger.credit(0, 7, 10);
    assert_eq!(
        apply_batch(&mut ledger, 7, Some(7), Some(7), vec![0], vec![4]),
        Ok(Event::TransferSingle { operator: 7, from: Some(7), to: Some(7), id: 0, value: 4 })
    );
    assert_eq!(ledger.get(0, 7), 4);
}

#[test]
fn engine_without_ends_only_describes() {
    let mut ledger = BalanceLedger::new();
    assert_eq!(
        apply_batch(&mut ledger, 1, None, None, vec![3, 4], vec![1, 2]),
        Ok(Event::TransferBatch {
            operator: 1,
            from: None,
            to: None,
            ids: vec![3, 4],
            values: vec![1, 2],
        })
    );
    assert_eq!(ledger.entry(3, 1), None);
    assert_eq!(ledger.entry(4, 1), None);
    assert_eq!(
        apply_batch(&mut ledger, 1, None, None, vec![3], vec![1]),
        Ok(Event::TransferSingle { operator: 1, from: None, to: None, id: 3, value: 1 })
    );
    assert_eq!(
        apply_batch(&mut ledger, 1, None, None, vec![], vec![]),
        Ok(Event::TransferBatch { operator: 1, from: None, to: None, ids: vec![], values: vec![] })
    );
    assert_eq!(
        apply_batch(&mut ledger, 1, None, Some(2), vec![3], vec![]),
        Err(Error::InvalidArrayLength)
    );
    assert_eq!(ledger.entry(3, 2), None);
}

#[test]
fn engine_mints_without_a_debit() {
    let mut ledger = BalanceLedger::new();
    assert_eq!(
        apply_batch(&mut ledger, 1, None, Some(2), vec![0, 1], vec![5, 6]),
        Ok(Event::TransferBatch {
            operator: 1,
            from: None,
            to: Some(2),
            ids: vec![0, 1],
            values: vec![5, 6],
        })
    );
    assert_eq!(ledger.get(0, 2), 5);
    assert_eq!(ledger.get(1, 2), 6);
}
