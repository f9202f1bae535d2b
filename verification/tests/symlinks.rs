use rmtree::RmPath;

fn rp(path: &std::path::Path) -> RmPath {
    let mut segments: Vec<String> = Vec::new();
    for component in path.components() {
        segments.push(component.as_os_str().to_string_lossy().into_owned());
    }
    RmPath::new(segments)
}

fn make_dir(parent: &std::path::Path) -> std::path::PathBuf {
    tempfile::Builder::new().tempdir_in(parent).unwrap().keep()
}

fn make_file(parent: &std::path::Path) -> std::path::PathBuf {
    tempfile::Builder::new().tempfile_in(parent).unwrap().keep().unwrap().1
}

#[test]
fn symlink_to_directory_is_removed_as_a_link() {
    let dir = tempfile::tempdir().unwrap();
    let target = make_dir(dir.path());
    let precious = make_file(&target);
    let link = dir.path().join("link");
    symlink::symlink_dir(&target, &link).unwrap();

    assert!(rmtree::rmtree(&rp(&link)).is_ok());
    assert!(!link.is_symlink());
    assert!(!link.exists());
    assert!(target.exists());
    assert!(precious.exists());
}

#[test]
fn symlink_inside_a_tree_is_not_followed() {
    let dir = tempfile::tempdir().unwrap();
    let outside = make_dir(dir.path());
    let precious = make_file(&outside);
    let tree = make_dir(dir.path());
    let _f = make_file(&tree);
    symlink::symlink_dir(&outside, tree.join("into_outside")).unwrap();

    assert!(rmtree::rmtree(&rp(&tree)).is_ok());
    assert!(!tree.exists());
    assert!(outside.exists());
    assert!(precious.exists());
}

#[test]
fn broken_symlink_is_removed() {
    let dir = tempfile::tempdir().unwrap();
    let link = dir.path().join("dangling");
    symlink::symlink_file(dir.path().join("nowhere"), &link).unwrap();
    assert!(link.is_symlink());
    assert!(rmtree::rmtree(&rp(&link)).is_ok());
    assert!(!link.is_symlink());
}
