use tts_studio::search_path::{prepend_search_dirs, put_dir_first};

fn dirs(v: &[&str]) -> Vec<String> {
    v.iter().map(|s| s.to_string()).collect()
}

#[test]
fn new_dirs_go_in_front_last_first() {
    let p = prepend_search_dirs("C:\\Windows;C:\\bin", &dirs(&["C:\\app", "C:\\app\\res"]));
    assert_eq!(p, "C:\\app\\res;C:\\app;C:\\Windows;C:\\bin");
}

#[test]
fn present_dirs_are_not_added_again() {
    let p = prepend_search_dirs("C:\\app;C:\\bin", &dirs(&["C:\\app", "D:\\x"]));
    assert_eq!(p, "D:\\x;C:\\app;C:\\bin");
    let again = prepend_search_dirs(&p, &dirs(&["C:\\app", "D:\\x"]));
    assert_eq!(again, p);
}

#[test]
fn empty_path_and_no_dirs() {
    assert_eq!(prepend_search_dirs("", &dirs(&[])), "");
    assert_eq!(prepend_search_dirs("a;;b;", &dirs(&[])), "a;;b;");
    assert_eq!(prepend_search_dirs("", &dirs(&["C:\\app"])), "C:\\app;");
}

#[test]
fn dir_first_is_plain_prepend() {
    assert_eq!(put_dir_first("C:\\app", "C:\\bin"), "C:\\app;C:\\bin");
}
