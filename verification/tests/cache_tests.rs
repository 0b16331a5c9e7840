use ai_commit::config::cache::{get_now_timestamp, Cache, CommitMsg, CACHE_EXPIRY_SECONDS};

fn hashes(cache: &Cache) -> Vec<u64> {
    cache.messages().iter().map(|m| m.hash()).collect()
}

#[test]
fn commit_msg_keeps_its_fields() {
    let m = CommitMsg::new(42, "feat: x".to_string(), 100);
    assert_eq!(m.hash(), 42);
    assert_eq!(m.get_msg(), "feat: x");
    assert_eq!(m.timestamp(), 100);
}

#[test]
fn expiry_is_strictly_after_the_period() {
    let m = CommitMsg::new(1, "m".to_string(), 1_000);
    assert!(!m.is_expired(1_000, 10));
    assert!(!m.is_expired(1_010, 10));
    assert!(m.is_expired(1_011, 10));
    assert!(!m.is_expired(1_000 + CACHE_EXPIRY_SECONDS, CACHE_EXPIRY_SECONDS));
    assert!(m.is_expired(1_001 + CACHE_EXPIRY_SECONDS, CACHE_EXPIRY_SECONDS));
    assert_eq!(CACHE_EXPIRY_SECONDS, 60 * 60 * 24 * 7);
}

#[test]
fn store_then_lookup_finds_the_stored_message() {
    let mut cache = Cache::default();
    assert!(cache.get_commit_message(7).is_none());
    cache.store_commit_message(CommitMsg::new(7, "first".to_string(), 1));
    cache.store_commit_message(CommitMsg::new(8, "other".to_string(), 2));
    cache.store_commit_message(CommitMsg::new(7, "second".to_string(), 3));
    assert_eq!(cache.get_commit_message(7).map(|m| m.get_msg()), Some("second".to_string()));
    assert_eq!(cache.get_commit_message(8).map(|m| m.get_msg()), Some("other".to_string()));
    assert!(cache.get_commit_message(9).is_none());
    assert_eq!(hashes(&cache), vec![8, 7]);
}

#[test]
fn store_removes_every_older_message_of_the_hash() {
    let cache_msgs = vec![
        CommitMsg::new(1, "a".to_string(), 1),
        CommitMsg::new(2, "b".to_string(), 1),
        CommitMsg::new(1, "c".to_string(), 1),
    ];
    let mut cache = Cache::from_messages(cache_msgs);
    assert_eq!(cache.get_commit_message(1).map(|m| m.get_msg()), Some("a".to_string()));
    cache.store_commit_message(CommitMsg::new(1, "d".to_string(), 5));
    assert_eq!(hashes(&cache), vec![2, 1]);
    assert_eq!(cache.get_commit_message(1).map(|m| m.get_msg()), Some("d".to_string()));
}

#[test]
fn remove_expired_keeps_fresh_messages_in_order() {
    let mut cache = Cache::from_messages(vec![
        CommitMsg::new(1, "old".to_string(), 0),
        CommitMsg::new(2, "fresh".to_string(), 90),
        CommitMsg::new(3, "edge".to_string(), 50),
        CommitMsg::new(4, "stale".to_string(), 49),
    ]);
    cache.remove_expired(100, 50);
    assert_eq!(hashes(&cache), vec![2, 3]);
}

#[test]
fn now_timestamp_is_after_2020() {
    let now = get_now_timestamp().expect("clock after the epoch");
    assert!(now > 1_577_836_800);
}
