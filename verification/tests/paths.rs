use procmon::paths::absolute;
use procmon::paths::choose_path;

#[test]
fn relative_path_is_joined_to_the_directory() {
    let expected = std::path::Path::new("/home/me").join("data/run");
    assert_eq!(absolute("data/run".to_string(), "/home/me"), expected.to_str().unwrap());
    assert_ne!(absolute("data/run".to_string(), "/home/me"), "data/run");
}

#[test]
fn absolute_path_is_kept() {
    let path = std::path::Path::new("/home/me").join("data");
    let path = path.to_str().unwrap().to_string();
    if std::path::Path::new(&path).is_absolute() {
        assert_eq!(absolute(path.clone(), "/elsewhere"), path);
    }
}

#[test]
fn path_is_chosen_by_whether_it_is_relative() {
    assert_eq!(choose_path("a".to_string(), true, "/d/a".to_string()), "/d/a");
    assert_eq!(choose_path("/a".to_string(), false, "/a".to_string()), "/a");
    assert_eq!(choose_path("a".to_string(), false, "/d/a".to_string()), "a");
}
