use confuse::error::ProvisioningError;
use confuse::library::{
    find_crate, find_library, library_candidates, library_file_name, BuildProfile, LibraryType,
    Package,
};

fn path(parts: &[&str]) -> Vec<String> {
    parts.iter().map(|part| part.to_string()).collect()
}

fn package(name: &str, dependencies: &[&str]) -> Package {
    Package {
        name: name.to_string(),
        dependencies: path(dependencies),
        manifest_path: format!("/work/{}/Cargo.toml", name),
    }
}

fn workspace() -> Vec<Package> {
    vec![
        package("simics-api", &["anyhow"]),
        package("harness", &["simics-api", "serde"]),
        package("confuse-module", &[]),
        package("harness", &["shadowed"]),
    ]
}

#[test]
fn suffix_of_each_kind() {
    assert_eq!(LibraryType::Static.suffix(), ".a");
    assert_eq!(LibraryType::Dynamic.suffix(), ".so");
}

#[test]
fn kind_is_read_off_the_file_name() {
    assert_eq!(LibraryType::from_str("libharness.a").ok(), Some(LibraryType::Static));
    assert_eq!(LibraryType::from_str("libharness.so").ok(), Some(LibraryType::Dynamic));
    assert_eq!(LibraryType::from_str(".a").ok(), Some(LibraryType::Static));
    assert_eq!(LibraryType::from_str("x.so.a").ok(), Some(LibraryType::Static));
    assert_eq!(LibraryType::from_str("x.a.so").ok(), Some(LibraryType::Dynamic));
}

#[test]
fn other_file_names_are_refused() {
    for name in ["", "a", "so", "libharness.dll", "libharness.a.bak", "libharness.sO", "é.so1"] {
        match LibraryType::from_str(name) {
            Err(ProvisioningError::UnrecognizedExtension { name: refused }) => {
                assert_eq!(refused, name)
            }
            other => panic!("{:?} gave {:?}", name, other),
        }
    }
}

#[test]
fn file_name_turns_hyphens_into_underscores() {
    assert_eq!(
        library_file_name("confuse-module", LibraryType::Static),
        "libconfuse_module.a"
    );
    assert_eq!(
        library_file_name("a-b-c", LibraryType::Dynamic),
        "liba_b_c.so"
    );
    assert_eq!(library_file_name("harness", LibraryType::Dynamic), "libharness.so");
    assert_eq!(library_file_name("", LibraryType::Static), "lib.a");
    assert_eq!(library_file_name("-é_", LibraryType::Static), "lib_é_.a");
}

#[test]
fn find_crate_returns_the_first_of_that_name() {
    let found = find_crate("harness", &workspace()).unwrap();
    assert_eq!(found.name, "harness");
    assert_eq!(found.dependencies, path(&["simics-api", "serde"]));
    assert_eq!(found.manifest_path, "/work/harness/Cargo.toml");
}

#[test]
fn find_crate_refuses_an_unknown_name() {
    match find_crate("harnes", &workspace()) {
        Err(ProvisioningError::ComponentUnknown { component }) => assert_eq!(component, "harnes"),
        other => panic!("{:?}", other),
    }
    assert!(matches!(
        find_crate("harness", &Vec::new()),
        Err(ProvisioningError::ComponentUnknown { .. })
    ));
}

#[test]
fn candidates_are_deps_first_then_top_level() {
    let candidates = library_candidates(
        "confuse-module",
        LibraryType::Dynamic,
        BuildProfile::Release,
        &workspace(),
        &path(&["/", "work", "target"]),
    )
    .unwrap();
    assert_eq!(
        candidates,
        vec![
            path(&["/", "work", "target", "release", "deps", "libconfuse_module.so"]),
            path(&["/", "work", "target", "release", "libconfuse_module.so"]),
        ]
    );
    let debug = library_candidates(
        "harness",
        LibraryType::Static,
        BuildProfile::Debug,
        &workspace(),
        &path(&["target"]),
    )
    .unwrap();
    assert_eq!(
        debug,
        vec![
            path(&["target", "debug", "deps", "libharness.a"]),
            path(&["target", "debug", "libharness.a"]),
        ]
    );
}

#[test]
fn find_library_prefers_the_deps_directory() {
    let target = path(&["target"]);
    let both = find_library(
        "harness",
        LibraryType::Static,
        BuildProfile::Debug,
        &workspace(),
        &target,
        &vec![true, true],
    );
    assert_eq!(both.unwrap(), path(&["target", "debug", "deps", "libharness.a"]));
    let top_only = find_library(
        "harness",
        LibraryType::Static,
        BuildProfile::Debug,
        &workspace(),
        &target,
        &vec![false, true],
    );
    assert_eq!(top_only.unwrap(), path(&["target", "debug", "libharness.a"]));
    let deps_only = find_library(
        "harness",
        LibraryType::Static,
        BuildProfile::Debug,
        &workspace(),
        &target,
        &vec![true],
    );
    assert_eq!(deps_only.unwrap(), path(&["target", "debug", "deps", "libharness.a"]));
}

#[test]
fn harness_without_build_output_is_artifact_not_found() {
    for present in [vec![], vec![false], vec![false, false], vec![false, false, true]] {
        match find_library(
            "harness",
            LibraryType::Static,
            BuildProfile::Debug,
            &workspace(),
            &path(&["target"]),
            &present,
        ) {
            Err(ProvisioningError::ArtifactNotFound { component }) => {
                assert_eq!(component, "harness")
            }
            other => panic!("{:?}", other),
        }
    }
}

#[test]
fn unknown_component_is_told_apart_from_unbuilt_one() {
    match find_library(
        "nowhere",
        LibraryType::Static,
        BuildProfile::Debug,
        &workspace(),
        &path(&["target"]),
        &vec![true, true],
    ) {
        Err(ProvisioningError::ComponentUnknown { component }) => assert_eq!(component, "nowhere"),
        other => panic!("{:?}", other),
    }
}

#[test]
fn profile_directories() {
    assert_eq!(BuildProfile::Debug.directory(), "debug");
    assert_eq!(BuildProfile::Release.directory(), "release");
}
