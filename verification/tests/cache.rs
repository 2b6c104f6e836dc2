use rysyn::cache::SampleCache;

#[test]
fn a_file_is_loaded_once() {
    let mut cache = SampleCache::new();
    let path = "/audio/kick.wav".to_string();
    assert!(cache.needs_load(&path));
    assert!(cache.get(&path).is_none());
    cache.store(path.clone(), vec![7, 8, 9]);
    assert!(!cache.needs_load(&path));
    assert_eq!(cache.get(&path), Some(&vec![7, 8, 9]));
    let other = "/audio/snare.wav".to_string();
    assert!(cache.needs_load(&other));
    cache.store(other.clone(), vec![1]);
    cache.store(path.clone(), vec![4]);
    assert_eq!(cache.get(&path), Some(&vec![4]));
    assert_eq!(cache.get(&other), Some(&vec![1]));
}
