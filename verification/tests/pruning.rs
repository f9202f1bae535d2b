use rmtree::RmPath;

fn rp(path: &std::path::Path) -> RmPath {
    let mut segments: Vec<String> = Vec::new();
    for component in path.components() {
        segments.push(component.as_os_str().to_string_lossy().into_owned());
    }
    RmPath::new(segments)
}

fn make_dir(parent: &std::path::Path) -> std::path::PathBuf {
    tempfile::Builder::new().tempdir_in(parent).unwrap().keep()
}

fn make_file(parent: &std::path::Path) -> std::path::PathBuf {
    tempfile::Builder::new().tempfile_in(parent).unwrap().keep().unwrap().1
}

/// The chain a/b/c/file, where a also holds an unrelated entry, so that after
/// removing the file, c and b are empty but a is not. Returns (a, unrelated,
/// b, c, file).
fn build_chain(
    parent: &std::path::Path,
) -> (
    std::path::PathBuf,
    std::path::PathBuf,
    std::path::PathBuf,
    std::path::PathBuf,
    std::path::PathBuf,
) {
    let a = make_dir(parent);
    let unrelated = make_file(&a);
    let b = make_dir(&a);
    let c = make_dir(&b);
    let file = make_file(&c);
    (a, unrelated, b, c, file)
}

#[test]
fn pruning_stops_at_first_non_empty_parent() {
    let dir = tempfile::tempdir().unwrap();
    let (a, unrelated, b, c, file) = build_chain(dir.path());
    rmtree::rmtrees_and_parents(&vec![rp(&file)]);
    assert!(!file.exists());
    assert!(!c.exists());
    assert!(!b.exists());
    assert!(a.exists());
    assert!(unrelated.exists());
}

#[test]
fn without_the_flag_empty_parents_remain() {
    let dir = tempfile::tempdir().unwrap();
    let (a, _unrelated, b, c, file) = build_chain(dir.path());
    rmtree::rmtrees(&vec![rp(&file)]);
    assert!(!file.exists());
    assert!(c.exists());
    assert!(b.exists());
    assert!(a.exists());
}

#[test]
fn pruning_after_tree_removal_removes_empty_parents() {
    let dir = tempfile::tempdir().unwrap();
    let outer = make_dir(dir.path());
    let other = make_file(&outer);
    let mid = make_dir(&outer);
    let tree = make_dir(&mid);
    let sub = make_dir(&tree);
    let _f = make_file(&sub);
    rmtree::rmtrees_and_parents(&vec![rp(&tree)]);
    assert!(!tree.exists());
    assert!(!mid.exists());
    assert!(outer.exists());
    assert!(other.exists());
}

#[test]
fn shared_parent_is_pruned_once_without_error() {
    let dir = tempfile::tempdir().unwrap();
    let x = make_dir(dir.path());
    let keep = make_file(&x);
    let shared = make_dir(&x);
    let f1 = make_file(&shared);
    let f2 = make_file(&shared);
    rmtree::rmtrees_and_parents(&vec![rp(&f1), rp(&f2)]);
    assert!(!f1.exists());
    assert!(!f2.exists());
    assert!(!shared.exists());
    assert!(x.exists());
    assert!(keep.exists());
}
