use polyglot::{Entry, LoadError, Polyglot};

fn record(key: u64, book_move: u16, weight: u16, learn: u32) -> Vec<u8> {
    let mut bytes = Vec::new();
    bytes.extend_from_slice(&key.to_be_bytes());
    bytes.extend_from_slice(&book_move.to_be_bytes());
    bytes.extend_from_slice(&weight.to_be_bytes());
    bytes.extend_from_slice(&learn.to_be_bytes());
    bytes
}

fn book_of(keys: &[u64]) -> Vec<u8> {
    let mut bytes = Vec::new();
    for (i, key) in keys.iter().enumerate() {
        bytes.extend(record(*key, 0x031C, i as u16, 7));
    }
    bytes
}

fn load(bytes: &[u8]) -> Polyglot {
    match Polyglot::load_book(bytes) {
        Ok(table) => table,
        Err(error) => panic!("load failed: {:?}", error),
    }
}

fn error_of(bytes: &[u8]) -> LoadError {
    match Polyglot::load_book(bytes) {
        Ok(_) => panic!("load succeeded"),
        Err(error) => error,
    }
}

#[test]
fn empty_source_gives_empty_table() {
    let table = load(&[]);
    assert!(table.entries().is_empty());
    assert!(table.get_entries(0).is_empty());
    assert!(table.get_entries(u64::MAX).is_empty());
}

#[test]
fn record_fields_are_big_endian() {
    let bytes: [u8; 16] = [
        0x46, 0x3B, 0x96, 0x18, 0x16, 0x91, 0xFC, 0x9C, // key
        0x03, 0x1C, // packed move
        0x12, 0x34, // weight
        0xDE, 0xAD, 0xBE, 0xEF, // learn
    ];
    let table = load(&bytes);
    assert_eq!(
        table.entries(),
        &[Entry { key: 0x463B96181691FC9C, book_move: 0x031C, weight: 0x1234, learn: 0xDEADBEEF }]
    );
}

#[test]
fn extreme_field_values_load() {
    let mut bytes = record(0, 0, 0, 0);
    bytes.extend(record(u64::MAX, u16::MAX, u16::MAX, u32::MAX));
    let table = load(&bytes);
    assert_eq!(
        table.entries(),
        &[
            Entry { key: 0, book_move: 0, weight: 0, learn: 0 },
            Entry { key: u64::MAX, book_move: u16::MAX, weight: u16::MAX, learn: u32::MAX },
        ]
    );
}

#[test]
fn loaded_table_keeps_file_order_and_is_sorted() {
    let keys = [1, 1, 2, 5, 5, 5, 9, 0x8000_0000_0000_0000, u64::MAX];
    let table = load(&book_of(&keys));
    let entries = table.entries();
    assert_eq!(entries.len(), keys.len());
    for (i, entry) in entries.iter().enumerate() {
        assert_eq!(entry.key, keys[i]);
        assert_eq!(entry.weight, i as u16);
        assert_eq!(entry.book_move, 0x031C);
        assert_eq!(entry.learn, 7);
    }
    for pair in entries.windows(2) {
        assert!(pair[0].key <= pair[1].key);
    }
}

#[test]
fn length_not_a_multiple_of_sixteen_is_truncated() {
    assert_eq!(error_of(&[0u8; 1]), LoadError::TruncatedRecord { index: 0, bytes_read: 1 });
    assert_eq!(error_of(&[0u8; 15]), LoadError::TruncatedRecord { index: 0, bytes_read: 15 });
    assert_eq!(error_of(&[0u8; 17]), LoadError::TruncatedRecord { index: 1, bytes_read: 1 });
    let mut bytes = book_of(&[3, 4, 5]);
    bytes.extend_from_slice(&[0xFF; 9]);
    assert_eq!(error_of(&bytes), LoadError::TruncatedRecord { index: 3, bytes_read: 9 });
}

#[test]
fn every_length_off_a_multiple_fails() {
    let whole = book_of(&[1, 2, 3, 4]);
    for len in 0..=whole.len() {
        let result = Polyglot::load_book(&whole[..len]);
        if len % 16 == 0 {
            assert_eq!(load(&whole[..len]).entries().len(), len / 16);
        } else {
            assert_eq!(
                result.err(),
                Some(LoadError::TruncatedRecord { index: len / 16, bytes_read: len % 16 })
            );
        }
    }
}

#[test]
fn smaller_second_key_is_unsorted() {
    assert_eq!(
        error_of(&book_of(&[5, 4])),
        LoadError::UnsortedKeys { index: 1, prev_key: 5, key: 4 }
    );
}

#[test]
fn first_descent_is_reported() {
    assert_eq!(
        error_of(&book_of(&[1, 2, 2, 7, 6, 3, 9])),
        LoadError::UnsortedKeys { index: 4, prev_key: 7, key: 6 }
    );
    assert_eq!(
        error_of(&book_of(&[u64::MAX, 0])),
        LoadError::UnsortedKeys { index: 1, prev_key: u64::MAX, key: 0 }
    );
}

#[test]
fn keys_compare_as_unsigned() {
    // As signed numbers these keys would be out of order.
    let table = load(&book_of(&[0x7FFF_FFFF_FFFF_FFFF, 0x8000_0000_0000_0000]));
    assert_eq!(table.entries().len(), 2);
    assert_eq!(
        error_of(&book_of(&[0x8000_0000_0000_0000, 0x7FFF_FFFF_FFFF_FFFF])),
        LoadError::UnsortedKeys {
            index: 1,
            prev_key: 0x8000_0000_0000_0000,
            key: 0x7FFF_FFFF_FFFF_FFFF,
        }
    );
}

#[test]
fn descent_is_found_before_leftover_bytes() {
    let mut bytes = book_of(&[8, 3]);
    bytes.extend_from_slice(&[0u8; 5]);
    assert_eq!(error_of(&bytes), LoadError::UnsortedKeys { index: 1, prev_key: 8, key: 3 });
}

#[test]
fn leftover_bytes_are_not_compared() {
    // The leftover bytes would spell a smaller key, but they are no record.
    let mut bytes = book_of(&[8, 9]);
    bytes.extend_from_slice(&[0u8; 8]);
    assert_eq!(error_of(&bytes), LoadError::TruncatedRecord { index: 2, bytes_read: 8 });
}

#[test]
fn equal_keys_are_in_order() {
    let table = load(&book_of(&[4, 4, 4]));
    assert_eq!(table.entries().len(), 3);
}

#[test]
fn lookup_returns_the_run_of_a_key() {
    let keys = [1, 1, 2, 5, 5, 5, 9];
    let table = load(&book_of(&keys));
    let weights = |key: u64| -> Vec<u16> {
        table.get_entries(key).iter().map(|entry| {
            assert_eq!(entry.key, key);
            entry.weight
        }).collect()
    };
    assert_eq!(weights(1), vec![0, 1]);
    assert_eq!(weights(2), vec![2]);
    assert_eq!(weights(5), vec![3, 4, 5]);
    assert_eq!(weights(9), vec![6]);
}

#[test]
fn lookup_of_absent_key_is_empty() {
    let table = load(&book_of(&[1, 1, 2, 5, 5, 5, 9]));
    assert!(table.get_entries(0).is_empty());
    assert!(table.get_entries(3).is_empty());
    assert!(table.get_entries(4).is_empty());
    assert!(table.get_entries(6).is_empty());
    assert!(table.get_entries(10).is_empty());
    assert!(table.get_entries(u64::MAX).is_empty());
}

#[test]
fn lookup_matches_a_linear_scan() {
    let keys = [0, 0, 3, 3, 3, 4, 10, 10, 11, 40, 40, 40, 40, u64::MAX, u64::MAX];
    let table = load(&book_of(&keys));
    let all = table.entries().to_vec();
    for probe in (0..=41).chain([u64::MAX - 1, u64::MAX]) {
        let scanned: Vec<Entry> = all.iter().copied().filter(|entry| entry.key == probe).collect();
        assert_eq!(table.get_entries(probe), &scanned[..]);
    }
}

#[test]
fn lookup_is_repeatable() {
    let table = load(&book_of(&[2, 2, 6]));
    let first = table.get_entries(2).to_vec();
    let second = table.get_entries(2).to_vec();
    assert_eq!(first, second);
    assert_eq!(table.entries().len(), 3);
}

#[test]
fn table_of_one_key() {
    let table = load(&book_of(&[7, 7, 7, 7]));
    assert_eq!(table.get_entries(7).len(), 4);
    assert!(table.get_entries(6).is_empty());
    assert!(table.get_entries(8).is_empty());
}
