use garyapi::cache::FileCache;
use garyapi::handlers::{Outcome, RequestDispatcher, ResolveStep, ResponsePayload};
use garyapi::routing::Route;
use garyapi::types::{CacheKey, FileName, ResourceType};

#[test]
fn test_route_dispatcher() {
    let dispatcher = RequestDispatcher::new();
    let _dispatcher_moved = dispatcher;
}

#[test]
fn test_resolve_quote_empty_cache() {
    // Zero quotes: a distinct no-content outcome, never a fault.
    let cache = FileCache::new();
    let dispatcher = RequestDispatcher::new();
    let step = dispatcher.resolve(Route::Quote, &cache);
    assert!(matches!(step, ResolveStep::Done(Outcome::NotAvailable)));
}

#[test]
fn test_resolve_joke_empty_cache() {
    let cache = FileCache::new();
    let dispatcher = RequestDispatcher::new();
    let step = dispatcher.resolve(Route::Joke, &cache);
    assert!(matches!(step, ResolveStep::Done(Outcome::NotAvailable)));
}

#[test]
fn test_resolve_quote_present() {
    let mut cache = FileCache::new();
    cache.update_quotes(vec![b"only quote".to_vec()]);
    let dispatcher = RequestDispatcher::new();
    match dispatcher.resolve(Route::Quote, &cache) {
        ResolveStep::Done(Outcome::Content(ResponsePayload::QuoteText(q))) => {
            assert_eq!(q, b"only quote".to_vec());
        }
        _ => panic!("Expected a quote payload"),
    }
}

#[test]
fn test_resolve_counts() {
    let mut cache = FileCache::new();
    cache.update_files(
        ResourceType::Gary,
        vec![
            FileName::new_unchecked("a.jpg"),
            FileName::new_unchecked("b.jpg"),
        ],
    );
    let dispatcher = RequestDispatcher::new();
    match dispatcher.resolve(Route::GaryCount, &cache) {
        ResolveStep::Done(Outcome::Content(ResponsePayload::Count { resource, count })) => {
            assert_eq!(resource, ResourceType::Gary);
            assert_eq!(count, 2);
        }
        _ => panic!("Expected a count payload"),
    }
    match dispatcher.resolve(Route::GooberCount, &cache) {
        ResolveStep::Done(Outcome::Content(ResponsePayload::Count { resource, count })) => {
            assert_eq!(resource, ResourceType::Goober);
            assert_eq!(count, 0);
        }
        _ => panic!("Expected a count payload"),
    }
}

#[test]
fn test_resolve_docs_and_not_found() {
    let cache = FileCache::new();
    let dispatcher = RequestDispatcher::new();
    assert!(matches!(
        dispatcher.resolve(Route::Docs, &cache),
        ResolveStep::Done(Outcome::Content(ResponsePayload::Doc))
    ));
    assert!(matches!(
        dispatcher.resolve(Route::NotFound, &cache),
        ResolveStep::Done(Outcome::NotFound)
    ));
}

#[test]
fn test_resolve_url_default_on_empty() {
    // An empty list never fails the URL route: the fixed default stands in.
    let cache = FileCache::new();
    let dispatcher = RequestDispatcher::new();
    match dispatcher.resolve(Route::GaryUrl, &cache) {
        ResolveStep::Done(Outcome::Content(ResponsePayload::Url { resource, filename })) => {
            assert_eq!(resource, ResourceType::Gary);
            assert_eq!(filename.as_str(), "Gary76.jpg");
        }
        _ => panic!("Expected a URL payload"),
    }
    match dispatcher.resolve(Route::GooberUrl, &cache) {
        ResolveStep::Done(Outcome::Content(ResponsePayload::Url { resource, filename })) => {
            assert_eq!(resource, ResourceType::Goober);
            assert_eq!(filename.as_str(), "goober8.jpg");
        }
        _ => panic!("Expected a URL payload"),
    }
}

#[test]
fn test_resolve_url_picks_member() {
    let mut cache = FileCache::new();
    cache.update_files(ResourceType::Gary, vec![FileName::new_unchecked("one.jpg")]);
    let dispatcher = RequestDispatcher::new();
    match dispatcher.resolve(Route::GaryUrl, &cache) {
        ResolveStep::Done(Outcome::Content(ResponsePayload::Url { filename, .. })) => {
            assert_eq!(filename.as_str(), "one.jpg");
        }
        _ => panic!("Expected a URL payload"),
    }
}

#[test]
fn test_resolve_image_cache_hit() {
    let mut cache = FileCache::new();
    cache.store_image(CacheKey::new("hit.jpg"), b"cached bytes".to_vec());
    let dispatcher = RequestDispatcher::new();
    let route = Route::GaryFile(FileName::new_unchecked("hit.jpg"));
    match dispatcher.resolve(route, &cache) {
        ResolveStep::Done(Outcome::Content(ResponsePayload::Image { filename, bytes })) => {
            assert_eq!(filename.as_str(), "hit.jpg");
            assert_eq!(bytes, b"cached bytes".to_vec());
        }
        _ => panic!("Expected cached image bytes"),
    }
}

#[test]
fn test_resolve_image_cache_miss_needs_disk() {
    let cache = FileCache::new();
    let dispatcher = RequestDispatcher::new();
    let route = Route::GooberFile(FileName::new_unchecked("miss.jpg"));
    match dispatcher.resolve(route, &cache) {
        ResolveStep::NeedsDisk { resource, filename } => {
            assert_eq!(resource, ResourceType::Goober);
            assert_eq!(filename.as_str(), "miss.jpg");
        }
        _ => panic!("Expected a disk-read instruction"),
    }
}

#[test]
fn test_miss_then_small_read_populates_cache() {
    // A 10 KB file: the outcome carries the bytes and the cache learns them.
    let mut cache = FileCache::new();
    let dispatcher = RequestDispatcher::new();
    let name = FileName::new_unchecked("small.jpg");
    let route = Route::GaryFile(name.clone());
    assert!(matches!(
        dispatcher.resolve(route, &cache),
        ResolveStep::NeedsDisk { .. }
    ));
    let bytes = vec![42u8; 10 * 1024];
    let outcome = dispatcher.resolve_after_read(name.clone(), Ok(bytes.clone()), &mut cache);
    match outcome {
        Outcome::Content(ResponsePayload::Image { filename, bytes: b }) => {
            assert_eq!(filename.as_str(), "small.jpg");
            assert_eq!(b, bytes);
        }
        _ => panic!("Expected image bytes"),
    }
    let key = CacheKey::from_file_name(&name);
    assert_eq!(cache.get_image(&key), Some(bytes));
}

#[test]
fn test_miss_then_large_read_skips_cache() {
    // A 2 MB file: the outcome carries the bytes but the size gate holds.
    let mut cache = FileCache::new();
    let dispatcher = RequestDispatcher::new();
    let name = FileName::new_unchecked("large.jpg");
    let bytes = vec![9u8; 2 * 1024 * 1024];
    let outcome = dispatcher.resolve_after_read(name.clone(), Ok(bytes.clone()), &mut cache);
    match outcome {
        Outcome::Content(ResponsePayload::Image { bytes: b, .. }) => {
            assert_eq!(b.len(), 2 * 1024 * 1024);
            assert_eq!(b, bytes);
        }
        _ => panic!("Expected image bytes"),
    }
    let key = CacheKey::from_file_name(&name);
    assert_eq!(cache.get_image(&key), None);
}

#[test]
fn test_read_failure_surfaces_error() {
    let mut cache = FileCache::new();
    let dispatcher = RequestDispatcher::new();
    let name = FileName::new_unchecked("gone.jpg");
    let outcome =
        dispatcher.resolve_after_read(name.clone(), Err("No such file".to_string()), &mut cache);
    match outcome {
        Outcome::FileError(msg) => assert_eq!(msg, "No such file"),
        _ => panic!("Expected a file error"),
    }
    // A failed read never populates the cache.
    assert_eq!(cache.get_image(&CacheKey::from_file_name(&name)), None);
}

#[test]
fn test_random_image_empty_list_uses_default() {
    let cache = FileCache::new();
    let dispatcher = RequestDispatcher::new();
    match dispatcher.resolve(Route::GaryImage, &cache) {
        ResolveStep::NeedsDisk { resource, filename } => {
            assert_eq!(resource, ResourceType::Gary);
            assert_eq!(filename.as_str(), "Gary76.jpg");
        }
        _ => panic!("Expected a disk-read instruction for the default"),
    }
}

#[test]
fn test_no_content_messages() {
    assert_eq!(
        garyapi::handlers::no_content_message(&Route::Quote),
        "No quotes available"
    );
    assert_eq!(
        garyapi::handlers::no_content_message(&Route::Joke),
        "No jokes available"
    );
}
