use multisearch::patterns::{searchable_patterns, SearchElement};
use multisearch::registry::{deallocate_searcher, new_searcher, Searcher, SearcherTable};
use multisearch::results::{search_searcher, search_searcher_extended, ExtendedResultElement};

fn record(key: &[u8], val: usize) -> SearchElement {
    SearchElement { key: key.to_vec(), val }
}

#[test]
fn patterns_keep_text_keys_in_order() {
    let records = vec![record(b"cat", 1), record(b"dog", 2)];
    let table = searchable_patterns(&records);
    assert_eq!(table, vec![("cat".to_string(), 1), ("dog".to_string(), 2)]);
}

#[test]
fn patterns_drop_keys_that_are_not_utf8() {
    let records = vec![
        record(&[0xff, 0x61], 1),
        record(b"ok", 2),
        record(&[0xc3], 3),
        record(&[0xed, 0xa0, 0x80], 4),
    ];
    let table = searchable_patterns(&records);
    assert_eq!(table, vec![("ok".to_string(), 2)]);
}

#[test]
fn patterns_decode_multibyte_keys() {
    let records = vec![record("café".as_bytes(), 9), record("日本".as_bytes(), 10)];
    let table = searchable_patterns(&records);
    assert_eq!(table.len(), 2);
    assert_eq!(table[0].0.chars().count(), 4);
    assert_eq!(table[0], ("café".to_string(), 9));
    assert_eq!(table[1], ("日本".to_string(), 10));
}

#[test]
fn patterns_of_no_records_are_empty() {
    let records: Vec<SearchElement> = Vec::new();
    assert!(searchable_patterns(&records).is_empty());
}

#[test]
fn patterns_keep_duplicate_keys_and_empty_key() {
    let records = vec![record(b"a", 1), record(b"a", 2), record(b"", 3)];
    let table = searchable_patterns(&records);
    assert_eq!(
        table,
        vec![("a".to_string(), 1), ("a".to_string(), 2), ("".to_string(), 3)]
    );
}

#[test]
fn unique_result_keeps_distinct_tokens() {
    let r = search_searcher(vec![10, 20, 30]);
    assert_eq!(r.values, vec![10, 20, 30]);
    assert_eq!(r.length(), 3);
}

#[test]
fn unique_result_drops_repeated_tokens() {
    let r = search_searcher(vec![7, 8, 7, 7, 9, 8]);
    assert_eq!(r.values, vec![7, 8, 9]);
    assert_eq!(r.length(), 3);
}

#[test]
fn unique_result_of_nothing_is_empty() {
    let r = search_searcher(Vec::new());
    assert_eq!(r.length(), 0);
}

#[test]
fn extended_result_keeps_every_occurrence() {
    let r = search_searcher_extended(vec![(1, 0, 3), (1, 0, 3), (2, 1, 2)]);
    assert_eq!(r.length(), 3);
    assert_eq!(r.values[0], ExtendedResultElement { value: 1, start: 0, end: 3 });
    assert_eq!(r.values[1], ExtendedResultElement { value: 1, start: 0, end: 3 });
    assert_eq!(r.values[2], ExtendedResultElement { value: 2, start: 1, end: 2 });
}

#[test]
fn cat_and_dog_results() {
    let haystack = "the cat sat on the dog and the cat";
    let table = searchable_patterns(&vec![record(b"cat", 0xA), record(b"dog", 0xB)]);
    let unique = search_searcher(vec![0xA, 0xB]);
    let mut values = unique.values.clone();
    values.sort();
    assert_eq!(values, vec![0xA, 0xB]);
    let ext = search_searcher_extended(vec![(0xA, 4, 7), (0xB, 19, 22), (0xA, 31, 34)]);
    assert_eq!(ext.length(), 3);
    for e in &ext.values {
        let key = &table.iter().find(|p| p.1 == e.value).unwrap().0;
        assert_eq!(&haystack[e.start..e.end], key.as_str());
    }
    let mut distinct: Vec<usize> = ext.values.iter().map(|e| e.value).collect();
    distinct.sort();
    distinct.dedup();
    assert_eq!(distinct, values);
}

#[test]
fn released_handle_is_refused() {
    let mut table: SearcherTable<String> = SearcherTable::new();
    let h = new_searcher(&mut table, "engine".to_string()).unwrap();
    assert_eq!(table.lookup(h), Some(&"engine".to_string()));
    assert_eq!(table.lookup(h), Some(&"engine".to_string()));
    assert_eq!(deallocate_searcher(&mut table, h), Some("engine".to_string()));
    assert_eq!(table.lookup(h), None);
    assert_eq!(deallocate_searcher(&mut table, h), None);
}

#[test]
fn reused_slot_gets_new_generation() {
    let mut table: SearcherTable<u32> = SearcherTable::new();
    let a = new_searcher(&mut table, 1).unwrap();
    assert_eq!(deallocate_searcher(&mut table, a), Some(1));
    let b = new_searcher(&mut table, 2).unwrap();
    assert_eq!(b.index, a.index);
    assert_ne!(b.generation, a.generation);
    assert_eq!(table.lookup(a), None);
    assert_eq!(table.lookup(b), Some(&2));
}

#[test]
fn live_handles_are_independent() {
    let mut table: SearcherTable<u32> = SearcherTable::new();
    let a = new_searcher(&mut table, 1).unwrap();
    let b = new_searcher(&mut table, 2).unwrap();
    assert_ne!(a, b);
    assert_eq!(deallocate_searcher(&mut table, a), Some(1));
    assert_eq!(table.lookup(b), Some(&2));
}

#[test]
fn unknown_handle_is_refused() {
    let mut table: SearcherTable<u32> = SearcherTable::new();
    let forged = Searcher { index: 5, generation: 1 };
    assert_eq!(table.lookup(forged), None);
    assert_eq!(deallocate_searcher(&mut table, forged), None);
}

#[test]
fn handle_bits_round_trip() {
    let h = Searcher { index: 3, generation: 0xdead_beef };
    assert_eq!(h.to_bits(), 3 * 0x1_0000_0000 + 0xdead_beef);
    assert_eq!(Searcher::from_bits(h.to_bits()), h);
    let first = Searcher { index: 0, generation: 1 };
    assert_eq!(first.to_bits(), 1);
}
