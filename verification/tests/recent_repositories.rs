use volnita::config::repo::{SavedRepositories, SerializedRepository};
use volnita::volnita::save_recent_repo;

fn descriptor(path: &str, name: &str, url: &str) -> SerializedRepository {
    SerializedRepository {
        path: path.to_string(),
        name: name.to_string(),
        repo_url: url.to_string(),
    }
}

#[test]
fn merging_same_path_keeps_one_entry_with_second_name() {
    let mut store = SavedRepositories::default();
    store.merge(descriptor("/work/alpha", "old-name", "url-a"));
    store.merge(descriptor("/work/alpha", "new-name", "url-b"));
    assert_eq!(store.recent_repositories.len(), 1);
    assert_eq!(store.recent_repositories[0].path, "/work/alpha");
    assert_eq!(store.recent_repositories[0].name, "new-name");
    assert_eq!(store.recent_repositories[0].repo_url, "url-b");
}

#[test]
fn merging_distinct_paths_keeps_both() {
    let mut store = SavedRepositories::default();
    store.merge(descriptor("/work/alpha", "alpha", ""));
    store.merge(descriptor("/work/beta", "beta", ""));
    assert_eq!(store.recent_repositories.len(), 2);
    let mut paths: Vec<String> =
        store.recent_repositories.iter().map(|r| r.path.clone()).collect();
    paths.sort();
    assert_eq!(paths, vec!["/work/alpha".to_string(), "/work/beta".to_string()]);
}

#[test]
fn merge_deduplicates_a_store_loaded_with_duplicates() {
    let mut store = SavedRepositories::default();
    store.recent_repositories.push(descriptor("/p", "first", ""));
    store.recent_repositories.push(descriptor("/p", "second", ""));
    store.merge(descriptor("/q", "other", ""));
    assert_eq!(store.recent_repositories.len(), 2);
    for r in &store.recent_repositories {
        if r.path == "/p" {
            // the later of the duplicate entries wins
            assert_eq!(r.name, "second");
        }
    }
}

#[test]
fn save_recent_repo_folds_the_descriptor_in() {
    let mut store = SavedRepositories::default();
    store.merge(descriptor("/work/alpha", "alpha", ""));
    let merged = save_recent_repo(store, descriptor("/work/alpha", "fresh", "u"));
    assert_eq!(merged.recent_repositories.len(), 1);
    assert_eq!(merged.recent_repositories[0].name, "fresh");
}
