use file_explorer::explorer::FileExplorer;

fn at(segments: &[&str]) -> FileExplorer {
    FileExplorer::new(segments.iter().map(|s| s.to_string()).collect())
}

#[test]
fn current_directory_of_root() {
    assert_eq!(at(&[]).get_current_directory(), "/");
}

#[test]
fn current_directory_of_nested_path() {
    assert_eq!(at(&["tmp", "work"]).get_current_directory(), "/tmp/work");
}

#[test]
fn resolve_appends_name() {
    let e = at(&["tmp", "work"]);
    assert_eq!(e.resolve(&String::from("a.txt")), "/tmp/work/a.txt");
}

#[test]
fn resolve_at_root() {
    let e = at(&[]);
    assert_eq!(e.resolve(&String::from("a.txt")), "/a.txt");
}

#[test]
fn resolve_empty_name_is_current_directory() {
    let e = at(&["tmp", "work"]);
    assert_eq!(e.resolve(&String::new()), "/tmp/work");
}

#[test]
fn change_directory_appends_segment() {
    let mut e = at(&["tmp", "work"]);
    e.change_directory(String::from("sub"));
    assert_eq!(e.get_current_directory(), "/tmp/work/sub");
}

#[test]
fn change_directory_with_empty_name_is_a_no_op() {
    let mut e = at(&["tmp", "work"]);
    e.change_directory(String::new());
    assert_eq!(e.get_current_directory(), "/tmp/work");
}

#[test]
fn navigate_up_reports_parent() {
    let mut e = at(&["tmp", "work"]);
    let msg = e.navigate_up();
    assert_eq!(msg, "Navigated up to: \"/tmp\"");
    assert_eq!(e.get_current_directory(), "/tmp");
}

#[test]
fn navigate_up_at_root_reports_root() {
    let mut e = at(&[]);
    let msg = e.navigate_up();
    assert_eq!(msg, "Already at the root directory.");
    assert_eq!(e.get_current_directory(), "/");
}

#[test]
fn navigate_up_reaches_fixed_point() {
    let mut e = at(&["tmp", "work", "sub"]);
    e.navigate_up();
    e.navigate_up();
    e.navigate_up();
    assert_eq!(e.get_current_directory(), "/");
    let msg = e.navigate_up();
    assert_eq!(msg, "Already at the root directory.");
    assert_eq!(e.get_current_directory(), "/");
}
