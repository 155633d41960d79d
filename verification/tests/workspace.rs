use confuse::error::ProvisioningError;
use confuse::tree::{CopyStep, EntryKind, TreeEntry};
use confuse::workspace::{provisioning_plan, resolve_package, FileMapping};

fn path(parts: &[&str]) -> Vec<String> {
    parts.iter().map(|part| part.to_string()).collect()
}

fn steps(plan: &[CopyStep]) -> Vec<(Option<Vec<String>>, Vec<String>)> {
    plan.iter()
        .map(|step| match step {
            CopyStep::CreateDirectory { destination } => (None, destination.clone()),
            CopyStep::CopyFile { source, destination } => {
                (Some(source.clone()), destination.clone())
            }
        })
        .collect()
}

#[test]
fn pinned_version_wins() {
    let selection =
        resolve_package(2096, Some("6.0.70".to_string()), Some("6.0.99".to_string())).unwrap();
    assert_eq!(selection.number, 2096);
    assert_eq!(selection.version, "6.0.70");
}

#[test]
fn latest_installed_is_the_fallback() {
    let selection = resolve_package(2096, None, Some("6.0.99".to_string())).unwrap();
    assert_eq!(selection.number, 2096);
    assert_eq!(selection.version, "6.0.99");
}

#[test]
fn package_that_is_nowhere_is_not_found() {
    match resolve_package(2096, None, None) {
        Err(ProvisioningError::PackageNotFound { number }) => assert_eq!(number, 2096),
        other => panic!("{:?}", other),
    }
}

#[test]
fn workspace_is_the_base_tree_and_then_the_files() {
    let base = vec![
        TreeEntry { path: path(&["base"]), kind: EntryKind::Directory },
        TreeEntry { path: path(&["base", "scripts"]), kind: EntryKind::Directory },
        TreeEntry { path: path(&["base", "scripts", "app.py"]), kind: EntryKind::File },
    ];
    let files = vec![
        FileMapping {
            source: path(&["rsrc", "app.py"]),
            destination: path(&["scripts", "app.py"]),
        },
        FileMapping { source: path(&["rsrc", "app.yml"]), destination: path(&["app.yml"]) },
        FileMapping { source: path(&["rsrc", "odd"]), destination: path(&[]) },
    ];
    let plan = provisioning_plan(&path(&["base"]), &path(&["ws"]), true, &base, &files).unwrap();
    assert_eq!(
        steps(&plan),
        vec![
            (None, path(&["ws"])),
            (None, path(&["ws", "scripts"])),
            (Some(path(&["base", "scripts", "app.py"])), path(&["ws", "scripts", "app.py"])),
            (None, path(&["ws", "scripts"])),
            (Some(path(&["rsrc", "app.py"])), path(&["ws", "scripts", "app.py"])),
            (None, path(&["ws"])),
            (Some(path(&["rsrc", "app.yml"])), path(&["ws", "app.yml"])),
            (None, path(&["ws"])),
            (Some(path(&["rsrc", "odd"])), path(&["ws"])),
        ]
    );
}

#[test]
fn workspace_needs_a_base_directory() {
    assert!(matches!(
        provisioning_plan(&path(&["base"]), &path(&["ws"]), false, &Vec::new(), &Vec::new()),
        Err(ProvisioningError::SourceNotADirectory)
    ));
}

#[test]
fn provisioning_twice_plans_the_same() {
    let base = vec![TreeEntry { path: path(&["base", "f"]), kind: EntryKind::File }];
    let files =
        vec![FileMapping { source: path(&["h", "lib.so"]), destination: path(&["lib", "lib.so"]) }];
    let first = provisioning_plan(&path(&["base"]), &path(&["ws"]), true, &base, &files).unwrap();
    let second = provisioning_plan(&path(&["base"]), &path(&["ws"]), true, &base, &files).unwrap();
    assert_eq!(steps(&first), steps(&second));
}
