use hoku_sdk::error::Error;
use hoku_sdk::identify::{identify, Cid};
use hoku_sdk::objectstore::{
    classify, delete_params, external_put_params, plan_add, plan_get, AddPlan, DownloadProgress,
    Fetch, Object, ObjectKind, PutParams, Tier, MAX_INTERNAL_OBJECT_LENGTH, SAMPLE_LENGTH,
};
use hoku_sdk::store::LocalStore;

fn bytes(n: usize) -> Vec<u8> {
    (0..n).map(|i| (i * 7 % 256) as u8).collect()
}

#[test]
fn classify_by_sample_length() {
    assert_eq!(classify(0), Err(Error::EmptyObject));
    assert_eq!(classify(1), Ok(Tier::Inline));
    assert_eq!(classify(1024), Ok(Tier::Inline));
    assert_eq!(classify(1025), Ok(Tier::Detached));
    assert_eq!(MAX_INTERNAL_OBJECT_LENGTH + 1, SAMPLE_LENGTH);
}

#[test]
fn plan_add_inline_carries_the_bytes() {
    let data = bytes(1024);
    let plan = plan_add("k", data.clone(), true);
    assert_eq!(
        plan,
        Ok(AddPlan::Inline(PutParams {
            key: "k".to_string(),
            kind: ObjectKind::Internal(data),
            overwrite: true
        }))
    );
}

#[test]
fn plan_add_detached_above_threshold() {
    assert_eq!(plan_add("k", bytes(1025), false), Ok(AddPlan::Detached));
}

#[test]
fn plan_add_rejects_empty_object() {
    assert_eq!(plan_add("k", Vec::new(), false), Err(Error::EmptyObject));
}

#[test]
fn put_and_delete_params() {
    let cid = identify(b"x");
    let p = external_put_params("a/b", cid.clone(), true);
    assert_eq!(p.key, "a/b");
    assert_eq!(p.kind, ObjectKind::External(cid));
    assert!(p.overwrite);
    assert_eq!(delete_params("a/b").key, "a/b");
}

#[test]
fn plan_get_missing_key_is_not_found() {
    assert_eq!(
        plan_get("nope", None, None),
        Err(Error::ObjectNotFound { key: "nope".to_string() })
    );
}

#[test]
fn plan_get_unresolved_external_is_refused() {
    let object = Object::External(identify(b"blob"), false);
    assert_eq!(
        plan_get("k", Some(object), None),
        Err(Error::ObjectNotResolved { key: "k".to_string() })
    );
}

#[test]
fn plan_get_resolved_external_downloads_with_range() {
    let cid = identify(b"blob");
    let object = Object::External(cid.clone(), true);
    assert_eq!(
        plan_get("k", Some(object), Some("0-9".to_string())),
        Ok(Fetch::Download { cid, range: Some("0-9".to_string()) })
    );
}

#[test]
fn plan_get_internal_slices_range() {
    let object = Object::Internal(b"hello world".to_vec());
    assert_eq!(
        plan_get("k", Some(object.clone()), Some("6-".to_string())),
        Ok(Fetch::Bytes(b"world".to_vec()))
    );
    assert_eq!(
        plan_get("k", Some(object.clone()), Some("-3".to_string())),
        Ok(Fetch::Bytes(b"rld".to_vec()))
    );
    assert_eq!(plan_get("k", Some(object.clone()), None), Ok(Fetch::Bytes(b"hello world".to_vec())));
    assert_eq!(
        plan_get("k", Some(object), Some("5-100".to_string())),
        Err(Error::InvalidRange)
    );
}

#[test]
fn download_progress_is_capped() {
    let mut p = DownloadProgress::new(10);
    p.record(4);
    assert_eq!(p.received, 4);
    p.record(4);
    assert_eq!(p.received, 8);
    p.record(4);
    assert_eq!(p.received, 10);
    p.record(usize::MAX);
    assert_eq!(p.received, 10);
}

#[test]
fn get_before_any_add_is_not_found() {
    let store = LocalStore::new();
    assert_eq!(
        store.get("missing", None),
        Err(Error::ObjectNotFound { key: "missing".to_string() })
    );
}

#[test]
fn get_other_key_is_not_found() {
    let mut store = LocalStore::new();
    assert_eq!(store.add("a", bytes(10), false), Ok(true));
    assert_eq!(store.get("b", None), Err(Error::ObjectNotFound { key: "b".to_string() }));
}

#[test]
fn get_unresolved_detached_object() {
    let mut store = LocalStore::new();
    assert_eq!(store.add("big", bytes(2000), false), Ok(true));
    assert_eq!(
        store.get("big", None),
        Err(Error::ObjectNotResolved { key: "big".to_string() })
    );
}

#[test]
fn delete_then_get_is_not_found() {
    let mut store = LocalStore::new();
    assert_eq!(store.add("k", bytes(100), false), Ok(true));
    assert!(store.delete("k"));
    assert_eq!(store.get("k", None), Err(Error::ObjectNotFound { key: "k".to_string() }));
    assert!(!store.delete("k"));
}

fn round_trip(n: usize) {
    let mut store = LocalStore::new();
    let data = bytes(n);
    assert_eq!(store.add("obj", data.clone(), false), Ok(true));
    store.resolve("obj");
    assert_eq!(store.get("obj", None), Ok(data));
}

#[test]
fn round_trip_below_threshold() {
    round_trip(1023);
}

#[test]
fn round_trip_at_threshold() {
    round_trip(1024);
}

#[test]
fn round_trip_above_threshold() {
    round_trip(1025);
}

#[test]
fn tier_follows_size() {
    let mut store = LocalStore::new();
    assert_eq!(store.add("small", bytes(1024), false), Ok(true));
    assert_eq!(store.add("large", bytes(1025), false), Ok(true));
    assert!(store.get("small", None).is_ok());
    assert_eq!(
        store.get("large", None),
        Err(Error::ObjectNotResolved { key: "large".to_string() })
    );
}

#[test]
fn ranged_get_of_detached_object() {
    let mut store = LocalStore::new();
    let data = bytes(3000);
    store.add("obj", data.clone(), false).unwrap();
    store.resolve("obj");
    assert_eq!(store.get("obj", Some("100-199".to_string())), Ok(data[100..200].to_vec()));
    assert_eq!(store.get("obj", Some("-10".to_string())), Ok(data[2990..].to_vec()));
}

#[test]
fn add_empty_object_fails() {
    let mut store = LocalStore::new();
    assert_eq!(store.add("k", Vec::new(), false), Err(Error::EmptyObject));
    assert_eq!(store.get("k", None), Err(Error::ObjectNotFound { key: "k".to_string() }));
}

#[test]
fn overwrite_flag_is_honored() {
    let mut store = LocalStore::new();
    assert_eq!(store.add("k", b"first".to_vec(), false), Ok(true));
    assert_eq!(store.add("k", b"second".to_vec(), false), Ok(false));
    assert_eq!(store.get("k", None), Ok(b"first".to_vec()));
    assert_eq!(store.add("k", b"third".to_vec(), true), Ok(true));
    assert_eq!(store.get("k", None), Ok(b"third".to_vec()));
}

#[test]
fn pagination_partitions_matching_keys() {
    let mut store = LocalStore::new();
    for i in 0..7 {
        store.add(&format!("a/{}", i), vec![i as u8 + 1], false).unwrap();
    }
    store.add("b/0", vec![9], false).unwrap();
    let mut all = Vec::new();
    let mut offset = 0;
    loop {
        let page = store.list("a/", offset, 3);
        assert!(page.len() <= 3);
        if page.is_empty() {
            break;
        }
        offset += page.len() as u64;
        all.extend(page);
    }
    let expected: Vec<String> = (0..7).map(|i| format!("a/{}", i)).collect();
    assert_eq!(all, expected);
    assert_eq!(store.list("a/", 6, 3), vec!["a/6".to_string()]);
    assert_eq!(store.list("", 0, 100).len(), 8);
    assert!(store.list("a/", 0, 0).is_empty());
}

#[test]
fn cid_round_trips_through_bytes() {
    let cid = identify(b"abc");
    assert_eq!(Cid::from_bytes(cid.to_bytes()), cid);
}

#[test]
fn listing_rolls_keys_up_at_delimiter() {
    let mut store = LocalStore::new();
    for key in ["photos/2024/a.jpg", "photos/2024/b.jpg", "photos/cover.jpg", "photos/2023/c.jpg", "notes.txt"] {
        store.add(key, vec![1], false).unwrap();
    }
    let listing = store.list_objects("photos/", "/", 0, 10);
    assert_eq!(listing.keys, vec!["photos/cover.jpg".to_string()]);
    assert_eq!(
        listing.common_prefixes,
        vec!["photos/2024/".to_string(), "photos/2023/".to_string()]
    );
    let flat = store.list_objects("photos/", "", 0, 10);
    assert_eq!(flat.keys.len(), 4);
    assert!(flat.common_prefixes.is_empty());
    let paged = store.list_objects("photos/", "/", 1, 2);
    assert_eq!(paged.keys, vec!["photos/cover.jpg".to_string()]);
    assert_eq!(paged.common_prefixes, vec!["photos/2024/".to_string()]);
}

#[test]
fn listing_with_longer_delimiter() {
    let mut store = LocalStore::new();
    store.add("a::b::c", vec![1], false).unwrap();
    store.add("a::d", vec![1], false).unwrap();
    store.add("a:e", vec![1], false).unwrap();
    let listing = store.list_objects("a::", "::", 0, 10);
    assert_eq!(listing.keys, vec!["a::d".to_string()]);
    assert_eq!(listing.common_prefixes, vec!["a::b::".to_string()]);
}
