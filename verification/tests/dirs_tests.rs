use ai_commit::dirs::{get_cache_file_path, get_config_file_path, get_work_dir, push_path, DirsError};

#[test]
fn work_dir_is_under_dot_config() {
    assert_eq!(get_work_dir(Some("/home/me")), Ok("/home/me/.config/ai-commit".to_string()));
    assert_eq!(get_work_dir(Some("/home/me/")), Ok("/home/me/.config/ai-commit".to_string()));
    assert_eq!(get_work_dir(None), Err(DirsError::NoHome));
}

#[test]
fn config_and_cache_files() {
    assert_eq!(get_config_file_path(Some("/root")), Ok("/root/.config/ai-commit/config.toml".to_string()));
    assert_eq!(get_cache_file_path(Some("/root")), Ok("/root/.config/ai-commit/.cache".to_string()));
    assert_eq!(get_config_file_path(None), Err(DirsError::NoHome));
    assert_eq!(get_cache_file_path(None), Err(DirsError::NoHome));
}

#[test]
fn push_path_follows_path_join() {
    assert_eq!(push_path("a", "b"), "a/b");
    assert_eq!(push_path("a/", "b"), "a/b");
    assert_eq!(push_path("a", "/abs"), "/abs");
    assert_eq!(push_path("", "b"), "b");
    for (base, comp) in [("x/y", "z"), ("/", "q"), ("p", "/r/s"), ("", "")] {
        let expected = std::path::Path::new(base).join(comp);
        assert_eq!(push_path(base, comp), expected.to_str().expect("utf-8"));
    }
}
