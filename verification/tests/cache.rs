use mini_crater::cache::{CacheEvent, CacheStage, CacheUse};

#[test]
fn a_file_that_is_there_answers() {
    let mut cache = CacheUse::new();
    assert_eq!(cache.stage, CacheStage::Reading);
    cache.step(CacheEvent::Held(vec![1, 2]));
    assert_eq!(cache.stage, CacheStage::Settled);
    assert_eq!(cache.data, [1, 2]);
}

#[test]
fn a_missing_file_is_filled() {
    let mut cache = CacheUse::new();
    cache.step(CacheEvent::Missing);
    assert_eq!(cache.stage, CacheStage::Fetching);
    cache.step(CacheEvent::Fetched(vec![3]));
    assert_eq!(cache.stage, CacheStage::Writing);
    assert_eq!(cache.data, [3]);
    cache.step(CacheEvent::Written);
    assert_eq!(cache.stage, CacheStage::Settled);
    assert_eq!(cache.data, [3]);
}

#[test]
fn a_file_that_cannot_be_read_ends_it() {
    let mut cache = CacheUse::new();
    cache.step(CacheEvent::Unreadable);
    assert_eq!(cache.stage, CacheStage::Failed);
}
