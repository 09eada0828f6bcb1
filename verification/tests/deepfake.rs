use record_store::deepfake_storage::ImageInfo;
use record_store::deepfake_storage::{
    get_deepfake_value, get_image_timestamp, initialize, store_image, ErrorCode, IMAGE_CAPACITY,
};

fn s(x: &str) -> String {
    x.to_string()
}

#[test]
fn classification_initialize_starts_empty() {
    let account = initialize();
    assert_eq!(account.image_infos.len(), 0);
    assert_eq!(account.image_count, 0);
}

#[test]
fn store_and_lookup_fields() {
    let mut account = initialize();
    let event = store_image(&mut account, s("hash-1"), 2, 40).unwrap();
    assert_eq!(event.image_hash, "hash-1");
    assert_eq!(event.deepfake_value, 2);
    assert_eq!(event.timestamp, 40);
    assert_eq!(get_deepfake_value(&account, s("hash-1")), Ok(2));
    assert_eq!(get_image_timestamp(&account, s("hash-1")), Ok(40));
    assert_eq!(account.image_count, 1);
}

#[test]
fn every_legal_tag_is_accepted() {
    let mut account = initialize();
    for tag in [1u8, 2, 3] {
        let hash = format!("hash-{}", tag);
        assert!(store_image(&mut account, hash.clone(), tag, 7).is_ok());
        assert_eq!(get_deepfake_value(&account, hash), Ok(tag));
    }
    assert_eq!(account.image_count, 3);
}

#[test]
fn invalid_tag_rejected_before_mutation() {
    let mut account = initialize();
    store_image(&mut account, s("kept"), 1, 5).unwrap();
    for bad in [0u8, 4, 200] {
        let r = store_image(&mut account, s("rejected"), bad, 6);
        assert_eq!(r, Err(ErrorCode::InvalidDeepfakeValue));
        assert_eq!(account.image_count, 1);
        assert_eq!(account.image_infos.len(), 1);
        assert_eq!(account.image_infos[0].image_hash, "kept");
        assert_eq!(account.image_infos[0].deepfake_value, 1);
        assert_eq!(account.image_infos[0].timestamp, 5);
    }
    assert_eq!(
        get_deepfake_value(&account, s("rejected")),
        Err(ErrorCode::ImageNotFound)
    );
}

#[test]
fn classification_replace_keeps_one_record_and_count() {
    let mut account = initialize();
    store_image(&mut account, s("other"), 1, 1).unwrap();
    store_image(&mut account, s("hash-1"), 1, 10).unwrap();
    assert_eq!(account.image_count, 2);
    store_image(&mut account, s("hash-1"), 3, 20).unwrap();
    assert_eq!(account.image_count, 2);
    assert_eq!(account.image_infos.len(), 2);
    assert_eq!(get_deepfake_value(&account, s("hash-1")), Ok(3));
    assert_eq!(get_image_timestamp(&account, s("hash-1")), Ok(20));
    assert_eq!(get_deepfake_value(&account, s("other")), Ok(1));
    let matches: Vec<_> = account
        .image_infos
        .iter()
        .filter(|i| i.image_hash == "hash-1")
        .collect();
    assert_eq!(matches.len(), 1);
}

#[test]
fn classification_lookup_missing_not_found() {
    let account = initialize();
    assert_eq!(
        get_deepfake_value(&account, s("absent")),
        Err(ErrorCode::ImageNotFound)
    );
    assert_eq!(
        get_image_timestamp(&account, s("absent")),
        Err(ErrorCode::ImageNotFound)
    );
}

#[test]
fn classification_capacity_ceiling_on_distinct_inserts() {
    let mut account = initialize();
    for k in 0..IMAGE_CAPACITY {
        let hash = format!("hash-{}", k);
        assert!(store_image(&mut account, hash, 1, k as u64).is_ok());
    }
    assert_eq!(account.image_count as usize, IMAGE_CAPACITY);
    let overflow = store_image(&mut account, s("one too many"), 2, 9999);
    assert_eq!(overflow, Err(ErrorCode::TooManyImages));
    assert_eq!(account.image_count as usize, IMAGE_CAPACITY);
    assert_eq!(account.image_infos.len(), IMAGE_CAPACITY);
}

#[test]
fn classification_replace_still_succeeds_at_capacity() {
    let mut account = initialize();
    for k in 0..IMAGE_CAPACITY {
        let hash = format!("hash-{}", k);
        store_image(&mut account, hash, 1, k as u64).unwrap();
    }
    let event = store_image(&mut account, s("hash-0"), 3, 5000).unwrap();
    assert_eq!(event.deepfake_value, 3);
    assert_eq!(account.image_count as usize, IMAGE_CAPACITY);
    assert_eq!(get_deepfake_value(&account, s("hash-0")), Ok(3));
    assert_eq!(get_image_timestamp(&account, s("hash-0")), Ok(5000));
}

#[test]
fn add_image_info_upserts_directly() {
    let mut account = initialize();
    let first = ImageInfo { image_hash: s("h"), deepfake_value: 1, timestamp: 4 };
    assert_eq!(account.add_image_info(first), Ok(()));
    let second = ImageInfo { image_hash: s("h"), deepfake_value: 2, timestamp: 9 };
    assert_eq!(account.add_image_info(second), Ok(()));
    assert_eq!(account.image_count, 1);
    assert_eq!(account.image_infos.len(), 1);
    assert_eq!(account.get_deepfake_value(&s("h")), Ok(2));
    assert_eq!(account.get_image_timestamp(&s("h")), Ok(9));
}
