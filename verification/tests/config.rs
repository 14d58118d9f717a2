use be::config::hlint_config_files;
use be::config::snapshot_configs;
use be::config::snapshot_path;
use be::config::ConfigFile;
use be::config::DirEntry;
use be::config::FOURMOLU_CONFIG;
use be::config::FOURMOLU_EXTENSIONS;
use be::config::HLINT_ROOT;
use be::config::HLINT_RULES_DIR;
use be::config::RULE_EXTENSION;
use be::hashing::combine_fingerprints;
use be::hashing::fingerprint;
use be::config::fourmolu_config_path;
use be::config::fourmolu_extensions_path;
use be::config::hlint_root_path;
use be::config::hlint_rules_dir;

fn entry(path: &str, is_file: bool) -> DirEntry {
    DirEntry { path: String::from(path), is_file }
}

fn file(path: &str, bytes: &[u8]) -> ConfigFile {
    ConfigFile { path: String::from(path), bytes: bytes.to_vec() }
}

#[test]
fn configuration_names() {
    assert_eq!(FOURMOLU_CONFIG, "fourmolu.yaml");
    assert_eq!(FOURMOLU_EXTENSIONS, "hpack-common/default-extensions.yaml");
    assert_eq!(HLINT_ROOT, ".hlint.yaml");
    assert_eq!(HLINT_RULES_DIR, "hlint-rules");
    assert_eq!(RULE_EXTENSION, "yaml");
}

#[test]
fn the_root_rule_file_comes_first_then_the_rule_files_as_enumerated() {
    let entries = vec![
        entry("/repo/hlint-rules/b.yaml", true),
        entry("/repo/hlint-rules/README.md", true),
        entry("/repo/hlint-rules/nested.yaml", false),
        entry("/repo/hlint-rules/a.yaml", true),
        entry("/repo/hlint-rules/noext", true),
        entry("/repo/hlint-rules/c.yml", true),
        entry("/repo/hlint-rules/.yaml", true),
    ];
    assert_eq!(
        hlint_config_files("/repo", true, &entries),
        vec!["/repo/.hlint.yaml", "/repo/hlint-rules/b.yaml", "/repo/hlint-rules/a.yaml"]
    );
    assert_eq!(
        hlint_config_files("/repo", false, &entries),
        vec!["/repo/hlint-rules/b.yaml", "/repo/hlint-rules/a.yaml"]
    );
    assert_eq!(hlint_config_files("/repo", true, &Vec::new()), vec!["/repo/.hlint.yaml"]);
    assert!(hlint_config_files("/repo", false, &Vec::new()).is_empty());
}

#[test]
fn a_snapshot_goes_under_its_own_name_into_the_snapshot_directory() {
    assert_eq!(
        snapshot_path("/tmp/snap", "/repo/fourmolu.yaml"),
        Some(String::from("/tmp/snap/fourmolu.yaml"))
    );
    assert_eq!(
        snapshot_path("/tmp/snap/", "/repo/hlint-rules/a.yaml"),
        Some(String::from("/tmp/snap/a.yaml"))
    );
    assert_eq!(snapshot_path("/tmp/snap", "/"), None);
    assert_eq!(snapshot_path("/tmp/snap", ""), None);
    assert_eq!(snapshot_path("/tmp/snap", "/repo/.."), None);
}

#[test]
fn the_combined_fingerprint_hashes_the_fingerprints_of_the_files_in_order() {
    let files = vec![
        file("/repo/.hlint.yaml", b"- ignore: {}\n"),
        file("/repo/hlint-rules/a.yaml", b"- warn: {}\n"),
    ];
    let (paths, hash) = snapshot_configs("/tmp/snap", &files).unwrap();
    assert_eq!(paths, vec!["/tmp/snap/.hlint.yaml", "/tmp/snap/a.yaml"]);
    let expected = combine_fingerprints(&vec![
        fingerprint(b"- ignore: {}\n"),
        fingerprint(b"- warn: {}\n"),
    ]);
    assert_eq!(hash, expected);
    let reversed = vec![
        file("/repo/hlint-rules/a.yaml", b"- warn: {}\n"),
        file("/repo/.hlint.yaml", b"- ignore: {}\n"),
    ];
    let (_, other) = snapshot_configs("/tmp/snap", &reversed).unwrap();
    assert_ne!(hash, other);
}

#[test]
fn a_changed_rule_file_changes_the_combined_fingerprint() {
    let before = vec![file("/repo/.hlint.yaml", b"- ignore: {}\n")];
    let after = vec![file("/repo/.hlint.yaml", b"- ignore: {name: x}\n")];
    let (_, a) = snapshot_configs("/s", &before).unwrap();
    let (_, b) = snapshot_configs("/s", &after).unwrap();
    assert_ne!(a, b);
}

#[test]
fn no_files_have_the_fingerprint_of_nothing() {
    let (paths, hash) = snapshot_configs("/tmp/snap", &Vec::new()).unwrap();
    assert!(paths.is_empty());
    assert_eq!(hash, fingerprint(b""));
}

#[test]
fn a_file_without_a_name_has_no_snapshot() {
    let files = vec![file("/repo/.hlint.yaml", b"x"), file("/", b"y")];
    assert!(snapshot_configs("/tmp/snap", &files).is_none());
}

#[test]
fn configuration_files_lie_below_the_repository_root() {
    assert_eq!(fourmolu_config_path("/repo"), "/repo/fourmolu.yaml");
    assert_eq!(
        fourmolu_extensions_path("/repo/"),
        "/repo/hpack-common/default-extensions.yaml"
    );
    assert_eq!(hlint_root_path("/repo"), "/repo/.hlint.yaml");
    assert_eq!(hlint_rules_dir("/repo"), "/repo/hlint-rules");
}
