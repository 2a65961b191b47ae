use asset_tokens::error::ContractError;
use asset_tokens::ledger::Ledger;
use asset_tokens::store::{page_size, Item, RecordStore, DEFAULT_LIMIT, MAX_LIMIT};

fn id(n: u32) -> String {
    format!("rec-{:04}", n)
}

fn filled(count: u32) -> RecordStore<u32> {
    let mut store = RecordStore::new();
    let mut n = count;
    while n > 0 {
        n -= 1;
        store.save(id(n), n);
    }
    store
}

fn ids(page: &Vec<(&String, &u32)>) -> Vec<String> {
    page.iter().map(|entry| entry.0.clone()).collect()
}

#[test]
fn item_starts_empty() {
    let item: Item<u32> = Item::new();
    assert!(!item.is_set());
    assert_eq!(item.load(), Err(ContractError::NotInitialized));
}

#[test]
fn item_save_overwrites() {
    let mut item = Item::new();
    item.save(1u32);
    assert!(item.is_set());
    assert_eq!(item.load(), Ok(&1));
    item.save(2);
    assert_eq!(item.load(), Ok(&2));
    item.save(2);
    assert_eq!(item.load(), Ok(&2));
}

#[test]
fn save_then_load_round_trip() {
    let mut store = RecordStore::new();
    store.save("b".to_string(), "second".to_string());
    store.save("a".to_string(), "first".to_string());
    assert_eq!(store.load(&"a".to_string()), Ok(&"first".to_string()));
    assert_eq!(store.load(&"b".to_string()), Ok(&"second".to_string()));
    assert_eq!(store.len(), 2);
    assert!(store.contains(&"a".to_string()));
}

#[test]
fn load_of_missing_id_is_not_found() {
    let store = filled(3);
    assert_eq!(store.load(&"absent".to_string()), Err(ContractError::NotFound));
    assert!(!store.contains(&"absent".to_string()));
    let empty: RecordStore<u32> = RecordStore::new();
    assert_eq!(empty.load(&id(0)), Err(ContractError::NotFound));
}

#[test]
fn save_under_same_id_replaces() {
    let mut store = RecordStore::new();
    store.save("x".to_string(), 1u32);
    store.save("y".to_string(), 2);
    store.save("x".to_string(), 3);
    assert_eq!(store.len(), 2);
    assert_eq!(store.load(&"x".to_string()), Ok(&3));
    assert_eq!(store.load(&"y".to_string()), Ok(&2));
}

#[test]
fn range_is_ascending_whatever_the_order_of_saving() {
    let mut store = RecordStore::new();
    for key in ["m", "a", "z", "b", "ab", ""] {
        store.save(key.to_string(), 0u32);
    }
    let page = store.range(None, None);
    assert_eq!(ids(&page), vec!["", "a", "ab", "b", "m", "z"]);
}

#[test]
fn range_cursor_is_exclusive() {
    let store = filled(5);
    let page = store.range(Some(&id(1)), None);
    assert_eq!(ids(&page), vec![id(2), id(3), id(4)]);
    let last = store.range(Some(&id(4)), None);
    assert!(last.is_empty());
}

#[test]
fn range_cursor_need_not_be_stored() {
    let store = filled(5);
    let page = store.range(Some(&"rec-0001x".to_string()), Some(2));
    assert_eq!(ids(&page), vec![id(2), id(3)]);
    let all = store.range(Some(&"a".to_string()), None);
    assert_eq!(all.len(), 5);
    let none = store.range(Some(&"zzz".to_string()), None);
    assert!(none.is_empty());
}

#[test]
fn range_limit_is_capped_at_thirty() {
    let store = filled(100);
    assert_eq!(MAX_LIMIT, 30);
    assert_eq!(DEFAULT_LIMIT, 30);
    assert_eq!(store.range(None, Some(1000)).len(), 30);
    assert_eq!(store.range(None, Some(31)).len(), 30);
    assert_eq!(store.range(None, Some(30)).len(), 30);
    assert_eq!(store.range(None, Some(29)).len(), 29);
    assert_eq!(store.range(None, None).len(), 30);
    assert_eq!(store.range(None, Some(0)).len(), 0);
    assert_eq!(store.range(None, Some(u32::MAX)).len(), 30);
}

#[test]
fn range_returns_what_is_left() {
    let store = filled(7);
    assert_eq!(store.range(None, Some(30)).len(), 7);
    assert_eq!(store.range(Some(&id(4)), Some(30)).len(), 2);
}

#[test]
fn pages_join_without_gap_or_duplicate() {
    let store = filled(70);
    let first = store.range(None, Some(30));
    let last_id = first[first.len() - 1].0.clone();
    let second = store.range(Some(&last_id), Some(30));
    let mut both = ids(&first);
    both.extend(ids(&second));
    assert_eq!(both.len(), 60);
    let expected: Vec<String> = (0..60).map(id).collect();
    assert_eq!(both, expected);
    for pair in both.windows(2) {
        assert!(pair[0] < pair[1]);
    }
    let third_cursor = second[second.len() - 1].0.clone();
    let third = store.range(Some(&third_cursor), Some(30));
    assert_eq!(ids(&third), (60..70).map(id).collect::<Vec<String>>());
}

#[test]
fn range_is_repeatable() {
    let store = filled(10);
    let once = ids(&store.range(Some(&id(3)), Some(4)));
    let again = ids(&store.range(Some(&id(3)), Some(4)));
    assert_eq!(once, again);
}

#[test]
fn page_copies_the_records() {
    let store = filled(4);
    let page = store.page(Some(&id(0)), Some(2));
    assert_eq!(page, vec![(id(1), 1), (id(2), 2)]);
}

#[test]
fn store_clone_is_equal() {
    let store = filled(12);
    let copy = store.clone();
    assert_eq!(copy, store);
    assert_eq!(copy.len(), 12);
}

#[test]
fn ledger_starts_empty() {
    let ledger = Ledger::new();
    assert_eq!(ledger.total_supply(), 0);
    assert_eq!(ledger.balance_of(&"holder".to_string()), 0);
}

#[test]
fn ledger_entries() {
    let mut ledger = Ledger::new();
    ledger.set_balance("holder".to_string(), 500);
    ledger.set_total_supply(1000);
    assert_eq!(ledger.balance_of(&"holder".to_string()), 500);
    assert_eq!(ledger.total_supply(), 1000);
    ledger.set_balance("holder".to_string(), 10);
    assert_eq!(ledger.balance_of(&"holder".to_string()), 10);
}

#[test]
fn burn_takes_from_balance_and_supply() {
    let mut ledger = Ledger::new();
    ledger.set_balance("holder".to_string(), 500);
    ledger.set_balance("other".to_string(), 300);
    ledger.set_total_supply(800);
    assert_eq!(ledger.burn(&"holder".to_string(), 400), Ok(()));
    assert_eq!(ledger.balance_of(&"holder".to_string()), 100);
    assert_eq!(ledger.balance_of(&"other".to_string()), 300);
    assert_eq!(ledger.total_supply(), 400);
    assert_eq!(ledger.burn(&"holder".to_string(), 100), Ok(()));
    assert_eq!(ledger.balance_of(&"holder".to_string()), 0);
}

#[test]
fn holder_without_entry_holds_nothing() {
    let mut ledger = Ledger::new();
    ledger.set_balance("holder".to_string(), 500);
    ledger.set_total_supply(500);
    assert_eq!(ledger.balance_of(&"stranger".to_string()), 0);
    assert_eq!(ledger.balance_of(&"holde".to_string()), 0);
    assert_eq!(ledger.burn(&"stranger".to_string(), 0), Ok(()));
    assert_eq!(ledger.balance_of(&"stranger".to_string()), 0);
    assert_eq!(ledger.balance_of(&"holder".to_string()), 500);
    assert_eq!(ledger.total_supply(), 500);
}

#[test]
fn page_size_is_the_request_capped_at_thirty() {
    assert_eq!(page_size(None), 30);
    assert_eq!(page_size(Some(0)), 0);
    assert_eq!(page_size(Some(29)), 29);
    assert_eq!(page_size(Some(30)), 30);
    assert_eq!(page_size(Some(31)), 30);
    assert_eq!(page_size(Some(1000)), 30);
    assert_eq!(page_size(Some(u32::MAX)), 30);
}

#[test]
fn burn_refusals_leave_the_book() {
    let mut ledger = Ledger::new();
    ledger.set_balance("holder".to_string(), 500);
    ledger.set_total_supply(450);
    let before = ledger.clone();
    assert_eq!(
        ledger.burn(&"nobody".to_string(), 1),
        Err(ContractError::InsufficientFunds { needed: 1, available: 0 })
    );
    assert_eq!(ledger, before);
    assert_eq!(
        ledger.burn(&"holder".to_string(), 501),
        Err(ContractError::InsufficientFunds { needed: 501, available: 500 })
    );
    assert_eq!(ledger, before);
    assert_eq!(ledger.burn(&"holder".to_string(), 480), Err(ContractError::Overflow));
    assert_eq!(ledger, before);
}
