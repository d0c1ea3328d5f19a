use garyapi::cache::{DefaultCacheLoader, FileCache, SharedCache};
use garyapi::types::{CacheKey, FileName, ResourceType};

#[test]
fn test_cache_operations() {
    let mut cache: FileCache = FileCache::new();

    // Test file operations
    let files = vec![
        FileName::new_unchecked("test1.jpg"),
        FileName::new_unchecked("test2.jpg"),
    ];
    cache.update_files(ResourceType::Gary, files);

    assert_eq!(cache.file_count(ResourceType::Gary), 2);
    assert!(cache.get_random_file(ResourceType::Gary).is_some());

    // Test quote operations
    let quotes = vec![b"Quote 1".to_vec(), b"Quote 2".to_vec()];
    cache.update_quotes(quotes);

    assert_eq!(cache.quote_count(), 2);
    assert!(cache.get_random_quote().is_some());
}

#[test]
fn test_image_cache() {
    let mut cache = FileCache::new();
    let key = CacheKey::new("test.jpg");
    let data = b"image data".to_vec();

    cache.store_image(key.clone(), data.clone());
    assert_eq!(cache.get_image(&key), Some(data));
}

#[test]
fn test_empty_cache_returns_none() {
    let cache = FileCache::new();
    assert!(cache.get_random_file(ResourceType::Gary).is_none());
    assert!(cache.get_random_file(ResourceType::Goober).is_none());
    assert!(cache.get_random_quote().is_none());
    assert!(cache.get_random_joke().is_none());
    assert!(cache.get_image(&CacheKey::new("missing")).is_none());
    assert_eq!(cache.file_count(ResourceType::Gary), 0);
    assert_eq!(cache.quote_count(), 0);
    assert_eq!(cache.joke_count(), 0);
}

#[test]
fn test_update_files_replaces_whole_list() {
    let mut cache = FileCache::new();
    cache.update_files(
        ResourceType::Gary,
        vec![
            FileName::new_unchecked("a.jpg"),
            FileName::new_unchecked("b.jpg"),
            FileName::new_unchecked("c.jpg"),
        ],
    );
    assert_eq!(cache.file_count(ResourceType::Gary), 3);
    // Replacement, not append: the count follows the new list exactly.
    cache.update_files(ResourceType::Gary, vec![FileName::new_unchecked("only.jpg")]);
    assert_eq!(cache.file_count(ResourceType::Gary), 1);
    // The other family is untouched.
    assert_eq!(cache.file_count(ResourceType::Goober), 0);
    // Every pick comes from the current list.
    for _ in 0..20 {
        let f = cache.get_random_file(ResourceType::Gary).unwrap();
        assert_eq!(f.as_str(), "only.jpg");
    }
}

#[test]
fn test_random_pick_is_member() {
    let mut cache = FileCache::new();
    let names = ["x.png", "y.png", "z.png"];
    cache.update_files(
        ResourceType::Goober,
        names.iter().map(|n| FileName::new_unchecked(n)).collect(),
    );
    for _ in 0..50 {
        let f = cache.get_random_file(ResourceType::Goober).unwrap();
        assert!(names.contains(&f.as_str()));
    }
}

#[test]
fn test_get_image_idempotent() {
    let mut cache = FileCache::new();
    let key = CacheKey::new("stable.jpg");
    cache.store_image(key.clone(), b"payload".to_vec());
    let first = cache.get_image(&key);
    // List updates are not image writes: the lookup is unaffected.
    cache.update_files(ResourceType::Gary, vec![FileName::new_unchecked("n.jpg")]);
    cache.update_quotes(vec![b"q".to_vec()]);
    cache.update_jokes(vec![b"j".to_vec()]);
    let second = cache.get_image(&key);
    assert_eq!(first, second);
    assert_eq!(first, Some(b"payload".to_vec()));
}

#[test]
fn test_store_image_overwrites_and_keeps_others() {
    let mut cache = FileCache::new();
    let a = CacheKey::new("a.jpg");
    let b = CacheKey::new("b.jpg");
    cache.store_image(a.clone(), b"one".to_vec());
    cache.store_image(b.clone(), b"two".to_vec());
    // Last writer wins for a key.
    cache.store_image(a.clone(), b"three".to_vec());
    assert_eq!(cache.get_image(&a), Some(b"three".to_vec()));
    // No other key is evicted.
    assert_eq!(cache.get_image(&b), Some(b"two".to_vec()));
}

#[test]
fn test_cache_image_if_small() {
    let mut cache = FileCache::new();
    let small = CacheKey::new("small.jpg");
    let big = CacheKey::new("big.jpg");
    cache.cache_image_if_small(small.clone(), &vec![7u8; 10 * 1024]);
    cache.cache_image_if_small(big.clone(), &vec![7u8; 2 * 1024 * 1024]);
    assert_eq!(cache.get_image(&small), Some(vec![7u8; 10 * 1024]));
    assert_eq!(cache.get_image(&big), None);
    // The threshold is strict: exactly 1 MiB stays out, one byte less goes in.
    let edge = CacheKey::new("edge.jpg");
    cache.cache_image_if_small(edge.clone(), &vec![1u8; 1024 * 1024]);
    assert_eq!(cache.get_image(&edge), None);
    cache.cache_image_if_small(edge.clone(), &vec![1u8; 1024 * 1024 - 1]);
    assert_eq!(cache.get_image(&edge), Some(vec![1u8; 1024 * 1024 - 1]));
}

#[test]
fn test_apply_initial_load() {
    let mut cache = FileCache::new();
    cache.store_image(CacheKey::new("pre.jpg"), b"pre".to_vec());
    cache.apply_initial_load(
        vec![FileName::new_unchecked("g1.jpg")],
        vec![
            FileName::new_unchecked("o1.jpg"),
            FileName::new_unchecked("o2.jpg"),
        ],
        vec![b"q1".to_vec(), b"q2".to_vec(), b"q3".to_vec()],
        vec![b"j1".to_vec()],
    );
    assert_eq!(cache.file_count(ResourceType::Gary), 1);
    assert_eq!(cache.file_count(ResourceType::Goober), 2);
    assert_eq!(cache.quote_count(), 3);
    assert_eq!(cache.joke_count(), 1);
    // The image map survives the list publish.
    assert_eq!(
        cache.get_image(&CacheKey::new("pre.jpg")),
        Some(b"pre".to_vec())
    );
}

#[test]
fn test_parse_text_content() {
    let loader = DefaultCacheLoader::new();
    let blobs = loader.parse_text_content("[\"hello\",\"world\"]");
    assert_eq!(blobs, vec![b"hello".to_vec(), b"world".to_vec()]);
}

#[test]
fn test_parse_text_content_escapes() {
    let loader = DefaultCacheLoader::new();
    // A quote inside an entry comes out escaped for JSON splicing.
    let blobs = loader.parse_text_content("[\"he said \\\"hi\\\"\"]");
    assert_eq!(blobs, vec![b"he said \\\"hi\\\"".to_vec()]);
    // Tabs and newlines take the fallback path too.
    let blobs = loader.parse_text_content("[\"a\\tb\"]");
    assert_eq!(blobs, vec![b"a\\tb".to_vec()]);
}

#[test]
fn test_parse_text_content_failures() {
    let loader = DefaultCacheLoader::new();
    // Not JSON at all.
    assert!(loader.parse_text_content("nonsense").is_empty());
    // JSON, but not an array of strings.
    assert!(loader.parse_text_content("{\"a\":1}").is_empty());
    assert!(loader.parse_text_content("[1,2,3]").is_empty());
    // The empty array parses to no blobs.
    assert!(loader.parse_text_content("[]").is_empty());
}

#[test]
fn test_escape_json_string_paths() {
    // Fast path: plain ASCII passes through byte for byte.
    assert_eq!(DefaultCacheLoader::escape_json_string("plain text"), b"plain text".to_vec());
    // Fallback: the escaping really rewrites the input.
    assert_eq!(DefaultCacheLoader::escape_json_string("a\"b"), b"a\\\"b".to_vec());
    assert_eq!(DefaultCacheLoader::escape_json_string("a\\b"), b"a\\\\b".to_vec());
    assert_eq!(DefaultCacheLoader::escape_json_string("a\nb"), b"a\\nb".to_vec());
}

#[test]
fn test_shared_cache_round_trip() {
    let shared = SharedCache::new(FileCache::new());
    let handle = shared.clone();
    handle.update_files(
        ResourceType::Gary,
        vec![FileName::new_unchecked("shared.jpg")],
    );
    // Both handles see the same store.
    assert_eq!(shared.file_count(ResourceType::Gary), 1);
    let f = shared.get_random_file(ResourceType::Gary).unwrap();
    assert_eq!(f.as_str(), "shared.jpg");
    shared.store_image(CacheKey::new("k"), b"v".to_vec());
    assert_eq!(handle.get_image(&CacheKey::new("k")), Some(b"v".to_vec()));
    handle.update_quotes(vec![b"q".to_vec()]);
    handle.update_jokes(vec![b"j".to_vec()]);
    assert_eq!(shared.quote_count(), 1);
    assert_eq!(shared.joke_count(), 1);
    assert_eq!(shared.get_random_quote(), Some(b"q".to_vec()));
    assert_eq!(shared.get_random_joke(), Some(b"j".to_vec()));
    shared.cache_image_if_small(CacheKey::new("s"), &b"tiny".to_vec());
    assert_eq!(shared.get_image(&CacheKey::new("s")), Some(b"tiny".to_vec()));
}
