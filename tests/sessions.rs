use xiaohongshu_helper::registry::{AccountLocks, SessionRegistry};

#[test]
fn registry_starts_empty() {
    let r: SessionRegistry<u32> = SessionRegistry::new();
    assert_eq!(r.len(), 0);
    assert_eq!(r.get("1"), None);
    assert!(!r.contains("1"));
}

#[test]
fn insert_twice_keeps_one_session() {
    let mut r: SessionRegistry<u32> = SessionRegistry::new();
    assert_eq!(r.insert("1".to_string(), 10), None);
    assert_eq!(r.insert("2".to_string(), 20), None);
    assert_eq!(r.insert("1".to_string(), 11), Some(10));
    assert_eq!(r.len(), 2);
    assert_eq!(r.get("1"), Some(&11));
    assert_eq!(r.get("2"), Some(&20));
}

#[test]
fn remove_returns_the_session() {
    let mut r: SessionRegistry<u32> = SessionRegistry::new();
    r.insert("1".to_string(), 10);
    r.insert("2".to_string(), 20);
    assert_eq!(r.remove("1"), Some(10));
    assert_eq!(r.remove("1"), None);
    assert!(!r.contains("1"));
    assert!(r.contains("2"));
    assert_eq!(r.len(), 1);
}

#[test]
fn account_lock_is_exclusive() {
    let mut locks = AccountLocks::new();
    assert!(locks.try_acquire("1"));
    assert!(!locks.try_acquire("1"));
    assert!(locks.try_acquire("2"));
    locks.release("1");
    assert!(locks.try_acquire("1"));
    locks.release("3");
    assert!(!locks.try_acquire("2"));
}
