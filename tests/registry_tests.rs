use ol_wasm_worker::text::decimal_string;
use ol_wasm_worker::cache::{artifact_file_name, cache_decision, cache_dir_for, CacheDecision};
use ol_wasm_worker::cli::parse_config_entry;
use ol_wasm_worker::object_types::{ObjectTypeLoader, TypeEntry};
use ol_wasm_worker::registry::{classify_entry, split_file_name, EntryKind, FunctionManager};

#[test]
fn registry_entries_are_classified() {
    assert_eq!(classify_entry("echo.wasm", true), EntryKind::Function("echo".to_string()));
    assert_eq!(classify_entry("a.b.wasm", true), EntryKind::Function("a.b".to_string()));
    assert_eq!(classify_entry("echo.wasm", false), EntryKind::NotAFile);
    assert_eq!(classify_entry("README", true), EntryKind::NoExtension);
    assert_eq!(classify_entry(".wasm", true), EntryKind::NoExtension);
    assert_eq!(classify_entry("..", true), EntryKind::NoExtension);
    assert_eq!(classify_entry("notes.txt", true), EntryKind::NotWasm);
    assert_eq!(classify_entry("echo.", true), EntryKind::NotWasm);
}

#[test]
fn file_names_split_at_last_dot() {
    assert_eq!(split_file_name("x.tar.gz"), Some(("x.tar".to_string(), "gz".to_string())));
    assert_eq!(split_file_name("noext"), None);
}

#[test]
fn registry_publishes_by_name() {
    let mut registry: FunctionManager<u32> = FunctionManager::new();
    registry.insert_function("echo".to_string(), 1);
    registry.insert_function("hash".to_string(), 2);
    registry.insert_function("echo".to_string(), 3);
    assert_eq!(registry.get_function("echo"), Some(&3));
    assert_eq!(registry.get_function("hash"), Some(&2));
    assert_eq!(registry.get_function("missing"), None);
}

#[test]
fn cache_freshness() {
    assert_eq!(cache_decision(10, Some(11)), CacheDecision::LoadCached);
    assert_eq!(cache_decision(10, Some(10)), CacheDecision::Compile);
    assert_eq!(cache_decision(10, Some(9)), CacheDecision::Compile);
    assert_eq!(cache_decision(10, None), CacheDecision::Compile);
}

#[test]
fn cache_paths() {
    assert_eq!(cache_dir_for("./test-registry.wasm"), "./test-registry.wasm.cache");
    assert_eq!(artifact_file_name("echo"), "echo.bin");
}

#[test]
fn config_settings_parse() {
    assert_eq!(parse_config_entry("a=b"), Some(("a".to_string(), "b".to_string())));
    assert_eq!(parse_config_entry("a=b=c"), Some(("a".to_string(), "b".to_string())));
    assert_eq!(parse_config_entry("=v"), Some((String::new(), "v".to_string())));
    assert_eq!(parse_config_entry("k="), Some(("k".to_string(), String::new())));
    assert_eq!(parse_config_entry("novalue"), None);
}

#[test]
fn object_type_entries() {
    let loader = ObjectTypeLoader::new();
    assert_eq!(loader.classify_entry("cart.type", true), TypeEntry::ObjectType("cart".to_string()));
    assert_eq!(loader.classify_entry("cart.wasm", true), TypeEntry::Module);
    assert_eq!(loader.classify_entry("cart.json", true), TypeEntry::Other);
    assert_eq!(loader.classify_entry("cart", true), TypeEntry::NoExtension);
    assert_eq!(loader.classify_entry("dir.type", false), TypeEntry::NotAFile);
    let ids = loader.assign_type_ids(&vec!["a".to_string(), "b".to_string()]);
    assert_eq!(ids, vec![(1, "a".to_string()), (2, "b".to_string())]);
}

#[test]
fn decimal_strings() {
    assert_eq!(decimal_string(0), "0");
    assert_eq!(decimal_string(7), "7");
    assert_eq!(decimal_string(10), "10");
    assert_eq!(decimal_string(404), "404");
    assert_eq!(decimal_string(65535), "65535");
}
