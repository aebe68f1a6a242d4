//! Tests for the path resolver: cache hits, parent resolution, rename
//! staleness, directory caching, and the no-cache fallback protocol.

use usn_journal_rs::path::{
    PathResolver, PathResolvableEntry, ResolveStep, LRU_CACHE_CAPACITY, join_components,
    last_component, volume_prefixed_path,
};
use usn_journal_rs::mft::MftEntry;
use usn_journal_rs::journal::UsnEntry;
use usn_journal_rs::time::UnixTime;

fn file_entry(fid: u64, parent_fid: u64, name: &str) -> MftEntry {
    MftEntry {
        usn: 0x1000,
        fid,
        parent_fid,
        file_name: String::from(name),
        file_attributes: 0,
    }
}

fn dir_entry(fid: u64, parent_fid: u64, name: &str) -> MftEntry {
    MftEntry {
        usn: 0x1000,
        fid,
        parent_fid,
        file_name: String::from(name),
        file_attributes: 0x10,
    }
}

#[test]
fn test_path_resolver_new() {
    let resolver = PathResolver::new();
    assert!(!resolver.has_cache());
}

#[test]
fn test_path_resolver_new_with_cache() {
    let resolver = PathResolver::new_with_cache();
    assert!(resolver.has_cache());
}

#[test]
fn test_resolve_path_with_cache_hit() {
    let mut resolver = PathResolver::new_with_cache();
    resolver.cache_put(
        0x123456,
        String::from("C:\\Documents\\Folder"),
        String::from("test.txt"),
    );
    let entry = file_entry(0x123456, 0x654321, "test.txt");
    match resolver.resolve_path(&entry) {
        ResolveStep::Resolved(path) => assert_eq!(path, "C:\\Documents\\Folder"),
        _ => panic!("expected a cache hit"),
    }
}

#[test]
fn test_resolve_path_with_cache_miss_parent_hit() {
    let mut resolver = PathResolver::new_with_cache();
    resolver.cache_put(0x654321, String::from("C:\\Documents"), String::from("Documents"));
    let entry = file_entry(0x123456, 0x654321, "newfile.txt");
    match resolver.resolve_path(&entry) {
        ResolveStep::Resolved(path) => assert_eq!(path, "C:\\Documents\\newfile.txt"),
        _ => panic!("expected resolution from the cached parent"),
    }
    // Not a directory: the entry's own id was not cached.
    assert!(resolver.cache_peek(0x123456).is_none());
}

#[test]
fn test_resolve_path_with_cache_directory_caching() {
    let mut resolver = PathResolver::new_with_cache();
    resolver.cache_put(0x654321, String::from("C:\\Documents"), String::from("Documents"));
    let entry = dir_entry(0x123456, 0x654321, "NewFolder");
    match resolver.resolve_path(&entry) {
        ResolveStep::Resolved(path) => assert_eq!(path, "C:\\Documents\\NewFolder"),
        _ => panic!("expected resolution from the cached parent"),
    }
    // A directory is cached so its descendants can resolve against it.
    let (cached_path, cached_name) = resolver.cache_peek(0x123456).unwrap();
    assert_eq!(cached_path, "C:\\Documents\\NewFolder");
    assert_eq!(cached_name, "NewFolder");
}

#[test]
fn test_resolve_path_with_cache_name_mismatch() {
    let mut resolver = PathResolver::new_with_cache();
    resolver.cache_put(0x123456, String::from("C:\\Documents\\OldName"), String::from("OldName"));
    resolver.cache_put(0x654321, String::from("C:\\Documents"), String::from("Documents"));
    let entry = dir_entry(0x123456, 0x654321, "NewName");
    match resolver.resolve_path(&entry) {
        ResolveStep::Resolved(path) => assert_eq!(path, "C:\\Documents\\NewName"),
        _ => panic!("expected re-resolution after the rename"),
    }
    let (updated_path, updated_name) = resolver.cache_peek(0x123456).unwrap();
    assert_eq!(updated_path, "C:\\Documents\\NewName");
    assert_eq!(updated_name, "NewName");
}

#[test]
fn test_lru_cache_capacity() {
    let resolver = PathResolver::new_with_cache();
    assert_eq!(resolver.cache_capacity(), Some(LRU_CACHE_CAPACITY));
    assert_eq!(resolver.cache_capacity().unwrap(), 4 * 1024);
}

#[test]
fn test_resolve_path_failure() {
    let mut resolver = PathResolver::new();
    let entry = file_entry(0x123456, 0x654321, "test.txt");
    // Without a cache, resolution asks for the parent, then for the
    // entry itself, and fails when neither can be looked up.
    let step = resolver.resolve_path(&entry);
    assert!(matches!(step, ResolveStep::NeedLookup(0x654321)));
    let step = resolver.resolve_path_with_lookup(&entry, 0x654321, None);
    assert!(matches!(step, ResolveStep::NeedLookup(0x123456)));
    let step = resolver.resolve_path_with_lookup(&entry, 0x123456, None);
    assert!(matches!(step, ResolveStep::Unresolved));
}

#[test]
fn test_resolve_lookup_success_without_cache() {
    let mut resolver = PathResolver::new();
    let entry = file_entry(0x123456, 0x654321, "report.txt");
    let step = resolver.resolve_path(&entry);
    assert!(matches!(step, ResolveStep::NeedLookup(0x654321)));
    let step =
        resolver.resolve_path_with_lookup(&entry, 0x654321, Some(String::from("C:\\Work")));
    match step {
        ResolveStep::Resolved(path) => assert_eq!(path, "C:\\Work\\report.txt"),
        _ => panic!("expected resolution from the looked-up parent"),
    }
}

#[test]
fn test_resolve_lookup_fallback_to_own_id_without_cache() {
    let mut resolver = PathResolver::new();
    let entry = file_entry(0x123456, 0x654321, "report.txt");
    let step = resolver.resolve_path_with_lookup(&entry, 0x654321, None);
    assert!(matches!(step, ResolveStep::NeedLookup(0x123456)));
    let step = resolver
        .resolve_path_with_lookup(&entry, 0x123456, Some(String::from("C:\\Work\\report.txt")));
    match step {
        ResolveStep::Resolved(path) => assert_eq!(path, "C:\\Work\\report.txt"),
        _ => panic!("expected the looked-up path itself"),
    }
}

#[test]
fn test_resolve_lookup_caches_parent_under_its_own_name() {
    let mut resolver = PathResolver::new_with_cache();
    let entry = file_entry(0x123456, 0x654321, "newfile.txt");
    let step = resolver.resolve_path(&entry);
    assert!(matches!(step, ResolveStep::NeedLookup(0x654321)));
    let step = resolver
        .resolve_path_with_lookup(&entry, 0x654321, Some(String::from("C:\\Documents")));
    match step {
        ResolveStep::Resolved(path) => assert_eq!(path, "C:\\Documents\\newfile.txt"),
        _ => panic!("expected resolution from the looked-up parent"),
    }
    // The parent was cached under its own terminal name.
    let (cached_path, cached_name) = resolver.cache_peek(0x654321).unwrap();
    assert_eq!(cached_path, "C:\\Documents");
    assert_eq!(cached_name, "Documents");
    // The file itself was not cached.
    assert!(resolver.cache_peek(0x123456).is_none());
}

#[test]
fn test_resolve_lookup_failure_with_cache() {
    let mut resolver = PathResolver::new_with_cache();
    let entry = file_entry(0x123456, 0x654321, "gone.txt");
    let step = resolver.resolve_path(&entry);
    assert!(matches!(step, ResolveStep::NeedLookup(0x654321)));
    let step = resolver.resolve_path_with_lookup(&entry, 0x654321, None);
    assert!(matches!(step, ResolveStep::Unresolved));
}

#[test]
fn test_mft_entry_path_resolvable_trait() {
    let entry = MftEntry {
        usn: 0x1000,
        fid: 0x123456,
        parent_fid: 0x654321,
        file_name: String::from("test.txt"),
        file_attributes: 0,
    };
    assert_eq!(entry.fid(), 0x123456);
    assert_eq!(entry.parent_fid(), 0x654321);
    assert_eq!(entry.file_name(), "test.txt");
    assert!(!PathResolvableEntry::is_dir(&entry));
}

#[test]
fn test_usn_entry_path_resolvable_trait() {
    let entry = UsnEntry {
        usn: 0x2000,
        time: UnixTime { secs: 0, nanos: 0 },
        fid: 0x789ABC,
        parent_fid: 0xDEF123,
        reason: 0x100,
        source_info: 0,
        file_name: String::from("document.txt"),
        file_attributes: 0,
    };
    assert_eq!(entry.fid(), 0x789ABC);
    assert_eq!(entry.parent_fid(), 0xDEF123);
    assert_eq!(entry.file_name(), "document.txt");
    assert!(!PathResolvableEntry::is_dir(&entry));
}

#[test]
fn test_join_components_adds_separator() {
    assert_eq!(join_components("C:\\Documents", "a.txt"), "C:\\Documents\\a.txt");
    assert_eq!(join_components("C:\\", "a.txt"), "C:\\a.txt");
    assert_eq!(join_components("", "a.txt"), "\\a.txt");
}

#[test]
fn test_last_component_values() {
    assert_eq!(last_component("C:\\Documents\\Folder"), "Folder");
    assert_eq!(last_component("Folder"), "Folder");
    assert_eq!(last_component("C:\\"), "");
    assert_eq!(last_component(""), "");
}

#[test]
fn test_volume_prefixed_path_values() {
    let mount = String::from("D:\\mount");
    assert_eq!(volume_prefixed_path(Some('c'), None, "Users\\me"), "C:\\Users\\me");
    assert_eq!(volume_prefixed_path(Some('C'), None, "Users\\me"), "C:\\Users\\me");
    assert_eq!(volume_prefixed_path(None, Some(&mount), "data"), "D:\\mount\\data");
    assert_eq!(volume_prefixed_path(None, None, "data"), "data");
}
