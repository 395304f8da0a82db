use cadence::image_cache::{chunk_fits, declared_length_check, MAX_IMAGE_DOWNLOAD_BYTES};
use cadence::image_cache::{exceeds_cache_budget, ImageCache, ImageLoad, ImageState, MAX_DECODED_BYTES, MAX_IMAGES};

fn keys(cache: &ImageCache) -> Vec<u64> {
    cache.entries().iter().map(|image| image.key).collect()
}

#[test]
fn cache_budget_combines_byte_and_entry_limits() {
    assert!(!exceeds_cache_budget(1, 0, MAX_DECODED_BYTES + 1));
    assert!(exceeds_cache_budget(2, 0, MAX_DECODED_BYTES + 1));
    assert!(exceeds_cache_budget(MAX_IMAGES, 1, 0));
}

#[test]
fn touching_an_item_moves_it_to_the_lru_tail() {
    let first = 1;
    let second = 2;
    let mut cache = ImageCache::new();
    assert!(matches!(cache.load(first), ImageLoad::Start { .. }));
    assert!(matches!(cache.load(second), ImageLoad::Start { .. }));
    assert_eq!(keys(&cache), vec![first, second]);

    assert!(matches!(cache.load(first), ImageLoad::Cached(ImageState::Loading)));

    assert_eq!(keys(&cache), vec![second, first]);
}

#[test]
fn a_full_cache_evicts_the_least_recently_used_image() {
    let mut cache = ImageCache::new();
    for key in 0..MAX_IMAGES as u64 {
        assert!(matches!(cache.load(key), ImageLoad::Start { ref evicted } if evicted.is_empty()));
    }
    cache.load(0);

    match cache.load(1_000) {
        ImageLoad::Start { evicted } => {
            assert_eq!(evicted.iter().map(|image| image.key).collect::<Vec<_>>(), vec![1]);
        }
        other => panic!("expected a new load, got {other:?}"),
    }
    assert_eq!(cache.entries().len(), MAX_IMAGES);
    assert_eq!(keys(&cache).last(), Some(&1_000));
}

#[test]
fn decoded_bytes_over_budget_evict_all_but_the_newest() {
    let mut cache = ImageCache::new();
    cache.load(1);
    cache.load(2);
    assert!(cache.finished(1, Some(MAX_DECODED_BYTES)).is_empty());
    assert_eq!(cache.decoded_bytes(), MAX_DECODED_BYTES);

    let evicted = cache.finished(2, Some(10));

    assert_eq!(evicted.iter().map(|image| image.key).collect::<Vec<_>>(), vec![1]);
    assert_eq!(keys(&cache), vec![2]);
    assert_eq!(cache.decoded_bytes(), 10);
}

#[test]
fn a_failure_is_retried_only_once_its_wait_is_over() {
    let mut cache = ImageCache::new();
    cache.load(7);
    assert!(cache.finished(7, None).is_empty());
    assert!(matches!(cache.load(7), ImageLoad::Cached(ImageState::Failed { retry_ready: false })));

    cache.retry_due(7);

    assert!(matches!(cache.load(7), ImageLoad::Start { .. }));
    assert!(matches!(cache.entries()[0].state, ImageState::Loading));
}

#[test]
fn artwork_downloads_are_capped_at_ten_megabytes() {
    assert_eq!(declared_length_check(None), Ok(0));
    assert_eq!(declared_length_check(Some(4_096)), Ok(4_096));
    assert_eq!(
        declared_length_check(Some(MAX_IMAGE_DOWNLOAD_BYTES as u64 + 1)),
        Err("image response exceeds 10485760 byte limit".to_owned())
    );
    assert!(chunk_fits(MAX_IMAGE_DOWNLOAD_BYTES - 10, 10));
    assert!(!chunk_fits(MAX_IMAGE_DOWNLOAD_BYTES - 10, 11));
    assert!(!chunk_fits(usize::MAX, 1));
}
