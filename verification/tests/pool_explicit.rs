use rmtree::Params;
use rmtree::RmPath;

fn rp(path: &std::path::Path) -> RmPath {
    let mut segments: Vec<String> = Vec::new();
    for component in path.components() {
        segments.push(component.as_os_str().to_string_lossy().into_owned());
    }
    RmPath::new(segments)
}

// This file holds a single test: the installed pool is process-wide, so only
// one configuration can be observed per test binary.
#[test]
fn explicit_request_is_installed_verbatim_and_drives_removal() {
    let dir = tempfile::tempdir().unwrap();
    let tree = tempfile::Builder::new().tempdir_in(dir.path()).unwrap().keep();
    let _file = tempfile::Builder::new().tempfile_in(&tree).unwrap().keep().unwrap().1;

    let params = Params { threads: Some(5), parents: false, paths: vec![rp(&tree)] };
    let params = params.update(Some(64));
    assert_eq!(params.threads, Some(5));
    assert_eq!(rayon::current_num_threads(), 5);

    // The entry point resolves the already-resolved request to the same
    // count, the second installation attempt is silently ignored, and the
    // batch runs on the installed pool.
    rmtree::rmtrees_with_params(params, Some(64));
    assert_eq!(rayon::current_num_threads(), 5);
    assert!(!tree.exists());
}
