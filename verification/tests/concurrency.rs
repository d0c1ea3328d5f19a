use garyapi::cache::{FileCache, SharedCache};
use garyapi::types::{FileName, ResourceType};

// Many concurrent list replacements and random picks: nothing panics, and
// every pick that returns a name returns one that some published list held.
#[test]
fn test_concurrent_updates_and_picks() {
    let runtime = tokio::runtime::Builder::new_multi_thread()
        .worker_threads(4)
        .build()
        .unwrap();
    runtime.block_on(async {
        let shared = SharedCache::new(FileCache::new());
        let first = ["a1.jpg", "a2.jpg", "a3.jpg"];
        let second = ["b1.jpg", "b2.jpg"];
        shared.update_files(
            ResourceType::Gary,
            first.iter().map(|n| FileName::new_unchecked(n)).collect(),
        );

        let mut tasks = Vec::new();
        for round in 0..8u32 {
            let writer = shared.clone();
            tasks.push(tokio::spawn(async move {
                let names: &[&str] = if round % 2 == 0 { &first } else { &second };
                for _ in 0..50 {
                    writer.update_files(
                        ResourceType::Gary,
                        names.iter().map(|n| FileName::new_unchecked(n)).collect(),
                    );
                }
            }));
        }
        for _ in 0..8u32 {
            let reader = shared.clone();
            tasks.push(tokio::spawn(async move {
                for _ in 0..200 {
                    if let Some(f) = reader.get_random_file(ResourceType::Gary) {
                        let name = f.as_str();
                        assert!(
                            first.contains(&name) || second.contains(&name),
                            "pick outside every published list: {name}"
                        );
                    }
                }
            }));
        }
        for t in tasks {
            t.await.unwrap();
        }
        // Afterwards the store still answers consistently.
        let n = shared.file_count(ResourceType::Gary);
        assert!(n == first.len() || n == second.len());
    });
}
