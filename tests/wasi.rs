use wasmer_api::wasi::{get_version, namespace_version, StateBuilder, Version};

fn names(v: &[&str]) -> Vec<String> {
    v.iter().map(|s| s.to_string()).collect()
}

#[test]
fn namespaces_map_to_versions() {
    assert_eq!(namespace_version("wasi_unstable"), Some(Version::Snapshot0));
    assert_eq!(namespace_version("wasi_snapshot_preview1"), Some(Version::Snapshot1));
    assert_eq!(namespace_version("env"), None);
}

#[test]
fn strict_needs_one_namespace() {
    let same = names(&["wasi_snapshot_preview1", "wasi_snapshot_preview1"]);
    assert_eq!(get_version(&same, true), Some(Version::Snapshot1));
    let mixed = names(&["wasi_snapshot_preview1", "env"]);
    assert_eq!(get_version(&mixed, true), None);
    assert_eq!(get_version(&vec![], true), None);
    assert_eq!(get_version(&names(&["env"]), true), None);
}

#[test]
fn lenient_takes_first_wasi_namespace() {
    let mixed = names(&["env", "wasi_unstable", "wasi_snapshot_preview1"]);
    assert_eq!(get_version(&mixed, false), Some(Version::Snapshot0));
    assert_eq!(get_version(&names(&["env"]), false), None);
    assert_eq!(get_version(&vec![], false), None);
}

#[test]
fn builder_keeps_order() {
    let env = StateBuilder::new("test-program".to_string())
        .argument("--foo".to_string())
        .arguments(vec!["a".to_string(), "b".to_string()])
        .environment("KEY".to_string(), "value".to_string())
        .finalize();
    assert_eq!(env.program_name, "test-program");
    assert_eq!(env.arguments, vec!["--foo".to_string(), "a".to_string(), "b".to_string()]);
    assert_eq!(env.environment, vec![("KEY".to_string(), "value".to_string())]);
}
