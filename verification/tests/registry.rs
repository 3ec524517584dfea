use xmbl::clock::{elapsed_millis, millis_from, timestamp_from, unix_timestamp};
use xmbl::ident::fresh_identifier;
use xmbl::random::{below, random_below};
use xmbl::registry::Registry;
use xmbl::text::{append_decimal, digit_text};

#[test]
fn table_keeps_insertion_order_and_overwrites_in_place() {
    let mut table: Registry<u32> = Registry::new();
    assert!(table.is_empty());
    table.insert("b".to_string(), 1);
    table.insert("a".to_string(), 2);
    table.insert("c".to_string(), 3);
    table.insert("a".to_string(), 20);
    assert_eq!(table.len(), 3);
    assert_eq!(table.key_at(0), "b");
    assert_eq!(table.key_at(1), "a");
    assert_eq!(table.key_at(2), "c");
    assert_eq!(*table.value_at(1), 20);
    assert_eq!(table.get("a"), Some(&20));
    assert_eq!(table.get("d"), None);
    assert_eq!(table.position("c"), Some(2));
    assert_eq!(table.position("d"), None);
    assert!(table.contains_key("b"));
    assert!(!table.contains_key(""));
}

#[test]
fn removing_closes_the_gap() {
    let mut table: Registry<u32> = Registry::new();
    for (i, key) in ["x", "y", "z"].iter().enumerate() {
        table.insert(key.to_string(), i as u32);
    }
    assert_eq!(table.remove("y"), Some(1));
    assert_eq!(table.remove("y"), None);
    assert_eq!(table.len(), 2);
    assert_eq!(table.key_at(0), "x");
    assert_eq!(table.key_at(1), "z");
    assert_eq!(table.get("z"), Some(&2));
    table.insert("y".to_string(), 9);
    assert_eq!(table.key_at(2), "y");
}

#[test]
fn duplicate_is_entry_for_entry() {
    let mut table: Registry<u64> = Registry::new();
    table.insert("one".to_string(), 1);
    table.insert("two".to_string(), 2);
    let mut copy = table.duplicate();
    assert_eq!(copy.len(), 2);
    assert_eq!(copy.key_at(0), "one");
    assert_eq!(copy.get("two"), Some(&2));
    copy.insert("one".to_string(), 5);
    assert_eq!(table.get("one"), Some(&1));
}

#[test]
fn keys_that_differ_in_case_or_length_are_different_keys() {
    let mut table: Registry<u8> = Registry::new();
    table.insert("Key".to_string(), 1);
    table.insert("key".to_string(), 2);
    table.insert("key ".to_string(), 3);
    table.insert("k\u{e9}y".to_string(), 4);
    assert_eq!(table.len(), 4);
    assert_eq!(table.get("key"), Some(&2));
    assert_eq!(table.get("k\u{e9}y"), Some(&4));
}

fn numeral(n: u128) -> String {
    let mut text = String::new();
    append_decimal(&mut text, n);
    text
}

#[test]
fn numerals_have_no_leading_zeros() {
    assert_eq!(numeral(0), "0");
    assert_eq!(numeral(7), "7");
    assert_eq!(numeral(10), "10");
    assert_eq!(numeral(1234567890), "1234567890");
    assert_eq!(numeral(u128::MAX), "340282366920938463463374607431768211455");
    let mut text = String::from("n=");
    append_decimal(&mut text, 42);
    assert_eq!(text, "n=42");
    for d in 0..10u8 {
        assert_eq!(digit_text(d), d.to_string());
    }
}

#[test]
fn identifiers_are_hyphenated_uuids() {
    let id = fresh_identifier();
    assert_eq!(id.len(), 36);
    let groups: Vec<usize> = id.split('-').map(|group| group.len()).collect();
    assert_eq!(groups, vec![8, 4, 4, 4, 12]);
    assert!(id.chars().all(|c| c == '-' || c.is_ascii_hexdigit()));
    assert_eq!(id.as_bytes()[14], b'4');
    assert_ne!(id, fresh_identifier());
}

#[test]
fn clock_is_past_the_year_2020() {
    assert!(unix_timestamp() > 1_577_836_800);
}

#[test]
fn random_numbers_stay_below_the_bound() {
    for bound in [1u64, 2, 10, 1000] {
        for _ in 0..200 {
            assert!(random_below(bound) < bound);
        }
    }
    let draws: Vec<u64> = (0..50).map(|_| random_below(u64::MAX)).collect();
    assert!(draws.iter().any(|d| *d != draws[0]));
}

#[test]
fn clock_before_the_epoch_reads_as_zero() {
    assert_eq!(timestamp_from(None), 0);
    assert_eq!(timestamp_from(Some(0)), 0);
    assert_eq!(timestamp_from(Some(1_700_000_000)), 1_700_000_000);
    assert_eq!(timestamp_from(Some(u64::MAX)), u64::MAX);
}

#[test]
fn milliseconds_are_cut_to_64_bits() {
    assert_eq!(millis_from(0), 0);
    assert_eq!(millis_from(1234), 1234);
    assert_eq!(millis_from(u64::MAX as u128), u64::MAX);
    assert_eq!(millis_from(u64::MAX as u128 + 1), 0);
    assert_eq!(millis_from(u64::MAX as u128 + 8), 7);
    assert_eq!(millis_from(u128::MAX), u64::MAX);
}

#[test]
fn elapsed_time_starts_small() {
    let start = std::time::Instant::now();
    assert!(elapsed_millis(&start) < 10_000);
}

#[test]
fn draw_is_reduced_by_the_bound() {
    assert_eq!(below(0, 1), 0);
    assert_eq!(below(99, 100), 99);
    assert_eq!(below(100, 100), 0);
    assert_eq!(below(12_345, 100), 45);
    assert_eq!(below(u64::MAX, 10), 5);
    assert_eq!(below(7, u64::MAX), 7);
}
