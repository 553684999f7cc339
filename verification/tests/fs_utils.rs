use arkivisto::fs_utils::{
    check_destination, copy_dir_file_contents, ensure_empty_dir_exists, DirEntry, DirStep,
    DirectoryError, EntryKind, FileCopy, PathKind, PathState,
};

/// Carries out what `ensure_empty_dir_exists` decides for a path in the state
/// `target`, below a parent that is there or not.
fn ensure_empty_at(target: PathState, parent_exists: bool) -> Result<PathState, DirectoryError> {
    let steps = ensure_empty_dir_exists(target.observed())?;
    let mut state = target;
    for step in steps {
        if step == DirStep::Create && !parent_exists {
            return Err(step.failed());
        }
        state = state.step(step);
    }
    Ok(state)
}

fn entry(name: &str, kind: EntryKind) -> DirEntry {
    DirEntry { name: name.to_string(), kind }
}

#[test]
fn parent_dir_does_not_exist() {
    let result = ensure_empty_at(PathState::Missing, false);
    assert!(result.is_err());
}

#[test]
fn test_create_new_dir() {
    let target = PathState::Missing;
    assert!(target.observed() == PathKind::Missing);
    let after = ensure_empty_at(target, true).expect("Test failed");
    assert!(after.observed() != PathKind::Missing);
    assert!(after.observed() == PathKind::Directory);
}

#[test]
fn test_empty_dir_exists() {
    let target = PathState::Directory { empty: true };
    assert!(target.observed() != PathKind::Missing);
    let after = ensure_empty_at(target, true).expect("Test failed");
    assert!(after.observed() != PathKind::Missing);
    assert!(after.observed() == PathKind::Directory);
}

#[test]
fn test_dir_with_files_exists() {
    let target = PathState::Directory { empty: false };
    assert!(target != PathState::Directory { empty: true });
    let after = ensure_empty_at(target, true).expect("Test failed");
    assert!(after.observed() != PathKind::Missing);
    assert!(after.observed() == PathKind::Directory);
    assert!(after == PathState::Directory { empty: true });
}

#[test]
fn test_path_is_a_file() {
    let target = PathState::File;
    assert!(target.observed() != PathKind::Missing);
    assert!(target.observed() != PathKind::Directory);
    let result = ensure_empty_dir_exists(target.observed());
    assert!(result.is_err());
    assert_eq!(result, Err(DirectoryError::NotADirectory));
    assert!(ensure_empty_at(target, true).is_err());
}

#[test]
fn missing_directory_is_only_created() {
    assert_eq!(ensure_empty_dir_exists(PathKind::Missing), Ok(vec![DirStep::Create]));
}

#[test]
fn existing_directory_is_removed_then_created() {
    assert_eq!(
        ensure_empty_dir_exists(PathKind::Directory),
        Ok(vec![DirStep::RemoveAll, DirStep::Create])
    );
}

#[test]
fn emptying_twice_gives_an_empty_directory_both_times() {
    for start in [
        PathState::Missing,
        PathState::Directory { empty: true },
        PathState::Directory { empty: false },
    ] {
        let once = ensure_empty_at(start, true).unwrap();
        assert_eq!(once, PathState::Directory { empty: true });
        let twice = ensure_empty_at(once, true).unwrap();
        assert_eq!(twice, PathState::Directory { empty: true });
    }
}

#[test]
fn failed_steps_name_their_error() {
    assert_eq!(DirStep::RemoveAll.failed(), DirectoryError::RemovalFailed);
    assert_eq!(DirStep::Create.failed(), DirectoryError::CreationFailed);
}

#[test]
fn creating_over_a_file_changes_nothing() {
    assert_eq!(PathState::File.step(DirStep::Create), PathState::File);
    assert_eq!(PathState::File.run(&vec![DirStep::Create]), PathState::File);
    assert_eq!(PathState::File.run(&vec![]), PathState::File);
}

#[test]
fn copy_takes_top_level_files_only() {
    let entries = vec![
        entry("1000.tif", EntryKind::File),
        entry("nested", EntryKind::Directory),
        entry("1001.tif", EntryKind::File),
        entry("socket", EntryKind::Other),
    ];
    let plan =
        copy_dir_file_contents("testdata", &entries, "/cache/current", PathKind::Directory);
    assert_eq!(
        plan,
        Ok(vec![
            FileCopy {
                from: "testdata/1000.tif".to_string(),
                to: "/cache/current/1000.tif".to_string()
            },
            FileCopy {
                from: "testdata/1001.tif".to_string(),
                to: "/cache/current/1001.tif".to_string()
            },
        ])
    );
}

#[test]
fn copy_of_a_directory_of_directories_is_empty() {
    let entries = vec![entry("a", EntryKind::Directory), entry("b", EntryKind::Directory)];
    let plan = copy_dir_file_contents("src", &entries, "dst", PathKind::Directory);
    assert_eq!(plan, Ok(vec![]));
}

#[test]
fn copy_fails_if_destination_is_missing() {
    let entries = vec![entry("1000.tif", EntryKind::File)];
    let plan = copy_dir_file_contents("testdata", &entries, "/nowhere", PathKind::Missing);
    assert_eq!(plan, Err(DirectoryError::DestinationInvalid));
}

#[test]
fn copy_fails_if_destination_is_a_file() {
    let entries = vec![entry("1000.tif", EntryKind::File)];
    let plan = copy_dir_file_contents("testdata", &entries, "/some/file", PathKind::Other);
    assert_eq!(plan, Err(DirectoryError::DestinationInvalid));
}

#[test]
fn only_a_directory_is_a_destination() {
    assert_eq!(check_destination(PathKind::Directory), Ok(()));
    assert_eq!(check_destination(PathKind::Missing), Err(DirectoryError::DestinationInvalid));
    assert_eq!(check_destination(PathKind::Other), Err(DirectoryError::DestinationInvalid));
}
