use roktrack::path::{app_paths, data_dir_path, join, subdir_in_either_dir, tmp_dir_path};

#[test]
fn test_path_join() {
    // Joining two paths
    assert_eq!(join(&["/test/", "test"]), "/test/test");
    // Joining three paths
    assert_eq!(join(&["test", "test", "test"]), "test/test/test");
    // Trailing slashes are kept
    assert_eq!(join(&["/test/", "test/"]), "/test/test/");
    // Relative paths
    assert_eq!(join(&["./test/", "test/", "test.txt"]), "./test/test/test.txt");
}

#[test]
fn path_join_absolute_replaces() {
    assert_eq!(join(&["/a/b", "/c"]), "/c");
    assert_eq!(join(&["a", "", "b"]), "a/b");
    let empty: [&str; 0] = [];
    assert_eq!(join(&empty), "");
    assert_eq!(join(&["a", ""]), "a/");
}

#[test]
fn test_create_subdir_in_either_dir() {
    // The first directory does not exist, so the second one is the parent.
    let dir1_exists = std::path::Path::new("/tmp/roktracktest1").is_dir();
    let res = subdir_in_either_dir(
        "/tmp/roktracktest1",
        "/tmp/roktracktest",
        "test_create_subdir_in_either_dir",
        dir1_exists,
    );
    assert_eq!(res, "/tmp/roktracktest/test_create_subdir_in_either_dir");
    let res = subdir_in_either_dir("/tmp/roktracktest1", "/tmp/roktracktest", "x", true);
    assert_eq!(res, "/tmp/roktracktest1/x");
}

#[test]
fn test_create_data_dir() {
    // With the persistent directory present, data lives under it.
    let res = data_dir_path(true);
    assert_eq!(res, "/data/roktrack");
    let res = data_dir_path(false);
    assert_eq!(res, "/run/user/1000/roktrack");
}

#[test]
fn test_create_tmp_dir() {
    let res = tmp_dir_path();
    assert_eq!(res, "/run/user/1000/roktrack");
}

#[test]
fn test_create_app_sub_dir() {
    let res = app_paths("/data/roktrack", "/run/user/1000/roktrack");
    assert_eq!(res.dir.img, "/data/roktrack/img");
    assert_eq!(res.dir.log, "/data/roktrack/log");
    assert_eq!(res.img.last, "/run/user/1000/roktrack/vision.jpg");
    assert_eq!(res.img.crop, "/run/user/1000/roktrack/crop.jpg");
}
