use ide_scaffold::cache::{CacheMetadata, CachedTemplate, TemplateCache};

fn entry(id: &str, version: &str, path: &str, size: u64) -> CachedTemplate {
    CachedTemplate {
        id: id.to_string(),
        version: version.to_string(),
        cached_at: 1_700_000_000,
        file_path: path.to_string(),
        size_bytes: size,
    }
}

fn store(cache: &mut TemplateCache, id: &str, version: &str, path: &str, size: u64) {
    cache.store(id.to_string(), version.to_string(), path.to_string(), 1_700_000_000, size);
}

#[test]
fn cache_store_get_and_clear() {
    let mut cache = TemplateCache::new("/data/template_cache".to_string(), None);
    store(&mut cache, "test-template", "v1", "/data/template_cache/template.zip", 14);
    assert_eq!(cache.get("test-template", "v1"), Some("/data/template_cache/template.zip".to_string()));
    let reloaded = TemplateCache::new("/data/template_cache".to_string(), Some(cache.metadata()));
    assert!(reloaded.get("test-template", "v1").is_some());
    cache.clear();
    assert!(cache.get("test-template", "v1").is_none());
}

#[test]
fn storing_twice_keeps_the_last_file_and_one_entry() {
    let mut cache = TemplateCache::new("/c".to_string(), None);
    store(&mut cache, "t", "v", "/c/f1.zip", 1);
    store(&mut cache, "t", "v", "/c/f2.zip", 2);
    assert_eq!(cache.get("t", "v"), Some("/c/f2.zip".to_string()));
    assert_eq!(cache.list_cached().len(), 1);
    store(&mut cache, "u", "v", "/c/f3.zip", 3);
    assert_eq!(cache.list_cached().len(), 2);
}

#[test]
fn a_new_version_hides_the_old_one() {
    let mut cache = TemplateCache::new("/c".to_string(), None);
    store(&mut cache, "t", "v1", "/c/f1.zip", 1);
    store(&mut cache, "t", "v2", "/c/f2.zip", 2);
    assert_eq!(cache.get("t", "v1"), None);
    assert_eq!(cache.get("t", "v2"), Some("/c/f2.zip".to_string()));
}

#[test]
fn reloading_from_metadata_finds_the_entries() {
    let mut cache = TemplateCache::new("/c".to_string(), None);
    store(&mut cache, "a", "1", "/c/a.zip", 10);
    store(&mut cache, "b", "2", "/c/b.zip", 20);
    let fresh = TemplateCache::new("/c".to_string(), Some(cache.metadata()));
    assert_eq!(fresh.get("a", "1"), Some("/c/a.zip".to_string()));
    assert_eq!(fresh.get("b", "2"), Some("/c/b.zip".to_string()));
    assert_eq!(fresh.list_cached().len(), 2);
}

#[test]
fn loading_duplicate_records_keeps_the_last() {
    let metadata = CacheMetadata { templates: vec![entry("t", "1", "/c/old.zip", 1), entry("t", "2", "/c/new.zip", 2)] };
    let cache = TemplateCache::new("/c".to_string(), Some(metadata));
    assert_eq!(cache.list_cached().len(), 1);
    assert_eq!(cache.get("t", "2"), Some("/c/new.zip".to_string()));
    assert_eq!(cache.get("t", "1"), None);
}

#[test]
fn clear_empties_everything() {
    let mut cache = TemplateCache::new("/c".to_string(), None);
    store(&mut cache, "a", "1", "/c/a.zip", 10);
    store(&mut cache, "b", "1", "/c/b.zip", 10);
    cache.clear();
    assert!(cache.list_cached().is_empty());
    assert_eq!(cache.get("a", "1"), None);
    assert_eq!(cache.get("b", "1"), None);
    assert_eq!(cache.cache_dir(), "/c");
    store(&mut cache, "a", "1", "/c/a.zip", 10);
    assert_eq!(cache.get("a", "1"), Some("/c/a.zip".to_string()));
}

#[test]
fn total_size_sums_or_reports_overflow() {
    let mut cache = TemplateCache::new("/c".to_string(), None);
    assert_eq!(cache.total_size_bytes(), Some(0));
    store(&mut cache, "a", "1", "/c/a.zip", 10);
    store(&mut cache, "b", "1", "/c/b.zip", 32);
    assert_eq!(cache.total_size_bytes(), Some(42));
    store(&mut cache, "c", "1", "/c/c.zip", u64::MAX);
    assert_eq!(cache.total_size_bytes(), None);
}

#[test]
fn missing_entry_is_none() {
    let cache = TemplateCache::new("/c".to_string(), None);
    assert_eq!(cache.get("nothing", "v1"), None);
}

#[test]
fn placement_in_the_cache_directory() {
    let cache = TemplateCache::new("/data/template_cache".to_string(), None);
    assert_eq!(cache.placement("/tmp/a.zip", "a.zip"), ("/data/template_cache/a.zip".to_string(), true));
    assert_eq!(cache.placement("/data/template_cache/a.zip", "a.zip"), ("/data/template_cache/a.zip".to_string(), false));
}
