use xmbl::digest::checksum;
use xmbl::storage::{StorageError, StorageService, StorageShard};

const GIB: u64 = 1024 * 1024 * 1024;

#[test]
fn test_storage_service_creation() {
    let service = StorageService::new("test_node".to_string(), 100 * GIB);
    assert_eq!(service.node_id(), "test_node");
    assert_eq!(service.total_storage_bytes(), 100 * GIB);
}

#[test]
fn test_data_storage_and_retrieval() {
    let mut service = StorageService::new("test_node".to_string(), 100 * GIB);
    let test_data = b"Hello, World!".to_vec();

    let shard_id = service.store_data(test_data.clone(), 3).unwrap();
    let retrieved_data = service.retrieve_data(&shard_id).unwrap();

    assert_eq!(test_data, retrieved_data);
}

#[test]
fn checksum_of_greeting_is_its_sha256_in_hex() {
    assert_eq!(
        checksum(b"Hello, World!"),
        "dffd6021bb2bd5b0af676290809ec3a53191dd81c7f70a4b28688a362182986f"
    );
}

#[test]
fn checksum_of_nothing_is_the_empty_digest() {
    assert_eq!(
        checksum(b""),
        "e3b0c44298fc1c149afbf4c8996fb92427ae41e4649b934ca495991b7852b855"
    );
}

#[test]
fn service_checksum_agrees_with_the_free_function() {
    let service = StorageService::new("n".to_string(), 10);
    assert_eq!(service.calculate_checksum(b"abc"), checksum(b"abc"));
    assert_eq!(
        service.calculate_checksum(b"abc"),
        "ba7816bf8f01cfea414140de5dae2223b00361a396177a9cb410ff61f20015ad"
    );
}

#[test]
fn new_store_is_empty() {
    let service = StorageService::new("n".to_string(), 7);
    assert_eq!(service.get_storage_stats(), (0, 7));
    assert_eq!(service.used_storage_bytes(), 0);
    assert_eq!(service.shard_count(), 0);
}

#[test]
fn round_trip_returns_the_bytes_unchanged() {
    let mut service = StorageService::new("n".to_string(), 1000);
    let payloads: Vec<Vec<u8>> = vec![vec![], vec![0], vec![255; 300], b"shard".to_vec()];
    for (i, payload) in payloads.iter().enumerate() {
        let id = format!("id-{}", i);
        let stored = service.store_with_id(id.clone(), payload.clone(), 1).unwrap();
        assert_eq!(stored, id);
        assert_eq!(&service.retrieve_data(&id).unwrap(), payload);
    }
    assert_eq!(service.shard_count(), 4);
    assert_eq!(service.used_storage_bytes(), 306);
}

#[test]
fn store_records_shard_with_checksum_and_redundancy() {
    let mut service = StorageService::new("n".to_string(), 1000);
    service.store_with_id("a".to_string(), b"abc".to_vec(), 4).unwrap();
    let shard = service.get_shard("a").unwrap();
    assert_eq!(shard.shard_id, "a");
    assert_eq!(shard.data, b"abc".to_vec());
    assert_eq!(shard.redundancy, 4);
    assert_eq!(
        shard.checksum,
        "ba7816bf8f01cfea414140de5dae2223b00361a396177a9cb410ff61f20015ad"
    );
    assert!(shard.verify());
    assert_eq!(service.shard_at(0).shard_id, "a");
}

#[test]
fn fresh_identifiers_are_uuids_and_differ() {
    let mut service = StorageService::new("n".to_string(), 1000);
    let first = service.store_data(b"same".to_vec(), 1).unwrap();
    let second = service.store_data(b"same".to_vec(), 1).unwrap();
    assert_eq!(first.len(), 36);
    assert_eq!(second.len(), 36);
    assert_ne!(first, second);
    assert_eq!(first.matches('-').count(), 4);
    assert_eq!(service.shard_count(), 2);
}

#[test]
fn store_past_capacity_is_rejected_and_changes_nothing() {
    let mut service = StorageService::new("n".to_string(), 10);
    service.store_with_id("a".to_string(), vec![1; 6], 1).unwrap();
    let rejected = service.store_with_id("b".to_string(), vec![2; 5], 1);
    assert_eq!(rejected, Err(StorageError::InsufficientSpace));
    assert_eq!(service.get_storage_stats(), (6, 10));
    assert_eq!(service.shard_count(), 1);
    assert!(service.get_shard("b").is_none());
    assert_eq!(service.retrieve_data("a").unwrap(), vec![1; 6]);
}

#[test]
fn store_that_fills_the_capacity_exactly_is_accepted() {
    let mut service = StorageService::new("n".to_string(), 10);
    service.store_with_id("a".to_string(), vec![1; 6], 1).unwrap();
    service.store_with_id("b".to_string(), vec![2; 4], 1).unwrap();
    assert_eq!(service.get_storage_stats(), (10, 10));
    assert_eq!(
        service.store_data(vec![3; 1], 1),
        Err(StorageError::InsufficientSpace)
    );
    assert_eq!(service.store_data(vec![], 1).map(|id| id.len()), Ok(36));
}

#[test]
fn used_never_exceeds_total_over_a_run_of_requests() {
    let mut service = StorageService::new("n".to_string(), 50);
    for i in 0..40u8 {
        let _ = service.store_with_id(format!("k{}", i % 7), vec![i; (i % 9) as usize], 1);
        if i % 3 == 0 {
            service.delete_data(&format!("k{}", i % 5)).unwrap();
        }
        let (used, total) = service.get_storage_stats();
        assert!(used <= total);
        assert_eq!(total, 50);
    }
}

#[test]
fn corrupted_bytes_are_detected_on_retrieve() {
    let mut service = StorageService::new("n".to_string(), 100);
    let mut shard = StorageShard::new("x".to_string(), b"payload".to_vec(), 2);
    shard.data[0] ^= 1;
    assert!(!shard.verify());
    service.import_shard(shard).unwrap();
    assert_eq!(
        service.retrieve_data("x"),
        Err(StorageError::CorruptionDetected)
    );
    assert_eq!(service.get_shard("x").unwrap().data[0], b'p' ^ 1);
}

#[test]
fn corrupted_checksum_is_detected_on_retrieve() {
    let mut service = StorageService::new("n".to_string(), 100);
    let mut shard = StorageShard::new("x".to_string(), b"payload".to_vec(), 2);
    shard.checksum = checksum(b"other");
    service.import_shard(shard).unwrap();
    assert_eq!(
        service.retrieve_data("x"),
        Err(StorageError::CorruptionDetected)
    );
}

#[test]
fn intact_import_is_read_back() {
    let mut service = StorageService::new("n".to_string(), 100);
    let shard = StorageShard::new("x".to_string(), b"payload".to_vec(), 2);
    service.import_shard(shard).unwrap();
    assert_eq!(service.retrieve_data("x").unwrap(), b"payload".to_vec());
    assert_eq!(service.used_storage_bytes(), 7);
}

#[test]
fn import_past_capacity_is_rejected() {
    let mut service = StorageService::new("n".to_string(), 3);
    let shard = StorageShard::new("x".to_string(), b"payload".to_vec(), 2);
    assert_eq!(
        service.import_shard(shard),
        Err(StorageError::InsufficientSpace)
    );
    assert_eq!(service.get_storage_stats(), (0, 3));
}

#[test]
fn unknown_shard_is_not_found() {
    let service = StorageService::new("n".to_string(), 100);
    assert_eq!(
        service.retrieve_data("missing"),
        Err(StorageError::ShardNotFound)
    );
}

#[test]
fn delete_releases_the_bytes_and_forgets_the_shard() {
    let mut service = StorageService::new("n".to_string(), 100);
    service.store_with_id("a".to_string(), vec![1; 30], 1).unwrap();
    service.store_with_id("b".to_string(), vec![2; 20], 1).unwrap();
    assert_eq!(service.delete_data("a"), Ok(()));
    assert_eq!(service.get_storage_stats(), (20, 100));
    assert_eq!(service.retrieve_data("a"), Err(StorageError::ShardNotFound));
    assert_eq!(service.retrieve_data("b").unwrap(), vec![2; 20]);
    assert_eq!(service.delete_data("a"), Ok(()));
    assert_eq!(service.get_storage_stats(), (20, 100));
}

#[test]
fn storing_twice_under_one_identifier_overwrites_and_counts_both() {
    let mut service = StorageService::new("n".to_string(), 100);
    service.store_with_id("a".to_string(), vec![1; 30], 1).unwrap();
    service.store_with_id("a".to_string(), vec![2; 5], 1).unwrap();
    assert_eq!(service.shard_count(), 1);
    assert_eq!(service.retrieve_data("a").unwrap(), vec![2; 5]);
    assert_eq!(service.used_storage_bytes(), 35);
    service.delete_data("a").unwrap();
    assert_eq!(service.used_storage_bytes(), 30);
}

#[test]
fn storage_error_texts() {
    assert_eq!(
        StorageError::InsufficientSpace.to_string(),
        "Insufficient storage space"
    );
    assert_eq!(StorageError::ShardNotFound.to_string(), "Shard not found");
    assert_eq!(
        StorageError::CorruptionDetected.to_string(),
        "Data corruption detected"
    );
}
