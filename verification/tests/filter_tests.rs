use skippy_tracer::filter::{starts_with, LocationFilter};

fn project_filter() -> LocationFilter {
    LocationFilter::new("/proj".to_string(), "/proj/.venv".to_string())
}

#[test]
fn starts_with_accepts_a_proper_prefix() {
    assert!(starts_with("/proj/app.py", "/proj"));
}

#[test]
fn starts_with_accepts_the_whole_text() {
    assert!(starts_with("/proj", "/proj"));
}

#[test]
fn starts_with_accepts_the_empty_prefix() {
    assert!(starts_with("/proj", ""));
    assert!(starts_with("", ""));
}

#[test]
fn starts_with_rejects_a_longer_prefix() {
    assert!(!starts_with("/pro", "/proj"));
    assert!(!starts_with("", "/"));
}

#[test]
fn starts_with_rejects_a_difference_in_the_last_position() {
    assert!(!starts_with("/prok/app.py", "/proj"));
}

#[test]
fn starts_with_rejects_a_difference_in_the_first_position() {
    assert!(!starts_with("proj/app.py", "/proj"));
}

#[test]
fn starts_with_compares_whole_characters() {
    // U+00E9 and U+00E8 share their first byte in UTF-8.
    assert!(starts_with("/caf\u{e9}/a.py", "/caf\u{e9}"));
    assert!(!starts_with("/caf\u{e8}/a.py", "/caf\u{e9}"));
    // U+00E9 is two bytes, the first of which is no character of its own.
    assert!(!starts_with("/caf\u{e9}", "/caf\u{c3}"));
    assert!(starts_with("/\u{1f40d}/x", "/\u{1f40d}"));
    assert!(!starts_with("/\u{1f40d}/x", "/\u{1f40c}"));
}

#[test]
fn file_under_the_project_root_is_traced() {
    assert!(project_filter().includes("/proj/app.py"));
    assert!(project_filter().includes("/proj/pkg/mod.py"));
}

#[test]
fn file_under_the_excluded_root_is_not_traced() {
    assert!(!project_filter().includes("/proj/.venv/lib/x.py"));
}

#[test]
fn file_outside_the_project_root_is_not_traced() {
    assert!(!project_filter().includes("/other/y.py"));
    assert!(!project_filter().includes("/usr/lib/python3/os.py"));
}

#[test]
fn relative_path_is_not_traced() {
    assert!(!project_filter().includes("proj/app.py"));
    assert!(!project_filter().includes(""));
}

#[test]
fn the_root_itself_is_traced() {
    assert!(project_filter().includes("/proj"));
}

#[test]
fn the_excluded_root_itself_is_not_traced() {
    assert!(!project_filter().includes("/proj/.venv"));
}

#[test]
fn prefixes_ignore_path_components() {
    // A sibling directory that shares the prefix counts as inside.
    assert!(project_filter().includes("/proj2/app.py"));
    // And a sibling of the excluded root counts as excluded.
    assert!(!project_filter().includes("/proj/.venv2/app.py"));
}

#[test]
fn exclusion_wins_when_the_roots_coincide() {
    let filter = LocationFilter::new("/proj".to_string(), "/proj".to_string());
    assert!(!filter.includes("/proj/app.py"));
    assert!(!filter.includes("/proj"));
}

#[test]
fn excluded_root_outside_the_project_excludes_nothing_of_it() {
    let filter = LocationFilter::new("/proj".to_string(), "/opt/python".to_string());
    assert!(filter.includes("/proj/app.py"));
    assert!(!filter.includes("/opt/python/lib/os.py"));
}

#[test]
fn empty_project_root_admits_every_path_not_excluded() {
    let filter = LocationFilter::new(String::new(), "/venv".to_string());
    assert!(filter.includes("/anything.py"));
    assert!(filter.includes(""));
    assert!(!filter.includes("/venv/x.py"));
}

#[test]
fn empty_excluded_root_excludes_every_path() {
    let filter = LocationFilter::new("/proj".to_string(), String::new());
    assert!(!filter.includes("/proj/app.py"));
}
