use file_explorer::explorer::FileExplorer;
use file_explorer::listing::{
    elapsed_seconds_since, format_entry_line, format_header_line, format_size_column,
    listing_lines, EntryInfo,
};

fn file(name: &str, size: u64, modified: Option<u64>) -> EntryInfo {
    EntryInfo { name: name.to_string(), is_dir: false, size, modified }
}

fn dir(name: &str, modified: Option<u64>) -> EntryInfo {
    EntryInfo { name: name.to_string(), is_dir: true, size: 0, modified }
}

#[test]
fn size_column_of_file_is_exact_byte_length() {
    assert_eq!(format_size_column(&file("a.txt", 5, None)), "5");
    assert_eq!(format_size_column(&file("big.bin", 1048576, None)), "1048576");
    assert_eq!(format_size_column(&file("empty", 0, None)), "0");
}

#[test]
fn size_column_of_directory_is_marker() {
    assert_eq!(format_size_column(&dir("sub", None)), "<DIR>");
}

#[test]
fn elapsed_is_difference_in_seconds() {
    assert_eq!(elapsed_seconds_since(1000, &file("a", 1, Some(990))), 10);
}

#[test]
fn elapsed_clamps_future_timestamp_to_zero() {
    assert_eq!(elapsed_seconds_since(1000, &file("a", 1, Some(1005))), 0);
}

#[test]
fn elapsed_of_unreadable_timestamp_is_zero() {
    assert_eq!(elapsed_seconds_since(1000, &file("a", 1, None)), 0);
}

#[test]
fn entry_line_matches_fixed_width_format() {
    let line = format_entry_line(1000, &file("a.txt", 5, Some(990)));
    assert_eq!(line, format!("{:<25} {:<15} {} seconds ago", "a.txt", 5, 10));
    assert_eq!(line, "a.txt                     5               10 seconds ago");
}

#[test]
fn entry_line_of_directory() {
    let line = format_entry_line(1000, &dir("sub", Some(1000)));
    assert_eq!(line, format!("{:<25} {:<15} {} seconds ago", "sub", "<DIR>", 0));
}

#[test]
fn long_name_is_not_truncated() {
    let name = "a-name-well-past-twenty-five-columns.txt";
    let line = format_entry_line(7, &file(name, 1, Some(7)));
    assert_eq!(line, format!("{:<25} {:<15} {} seconds ago", name, 1, 0));
}

#[test]
fn header_matches_fixed_width_format() {
    assert_eq!(
        format_header_line(),
        format!("{:<25} {:<15} {}", "File/Directory", "Size (bytes)", "Last Modified")
    );
}

#[test]
fn listing_has_one_line_per_entry_in_order() {
    let now = 500;
    let entries = vec![
        file("a.txt", 5, Some(490)),
        dir("sub", Some(400)),
        file("b.txt", 0, Some(500)),
    ];
    let lines = listing_lines(now, &entries);
    assert_eq!(lines.len(), 5);
    assert_eq!(lines[0], format_header_line());
    assert_eq!(
        lines[1],
        "------------------------------------------------------------"
    );
    for (i, e) in entries.iter().enumerate() {
        assert_eq!(lines[i + 2], format_entry_line(now, e));
    }
}

#[test]
fn listing_of_empty_directory_is_just_the_headings() {
    let lines = listing_lines(0, &Vec::new());
    assert_eq!(lines.len(), 2);
}

#[test]
fn listing_of_work_directory_scenario() {
    // A directory holding a 5-byte file `a.txt` and a subdirectory
    // `sub` lists exactly those two entries, the file with size 5, the
    // directory with the marker, each a non-negative number of seconds
    // old.
    let now = 1700000000;
    let explorer = FileExplorer::new(vec!["tmp".to_string(), "work".to_string()]);
    let entries = vec![file("a.txt", 5, Some(1699999990)), dir("sub", Some(1699999000))];
    let lines = explorer.list_directory_with_properties(now, &entries);
    assert_eq!(lines.len(), 4);
    assert!(lines[2].starts_with("a.txt "));
    assert!(lines[2].contains(" 5 ") || lines[2].contains(" 5"));
    assert_eq!(lines[2], format!("{:<25} {:<15} {} seconds ago", "a.txt", 5, 10));
    assert_eq!(lines[3], format!("{:<25} {:<15} {} seconds ago", "sub", "<DIR>", 1000));
}

#[test]
fn new_file_lists_with_size_zero() {
    let now = 100;
    let entries = vec![file("new.txt", 0, Some(100))];
    let lines = listing_lines(now, &entries);
    assert_eq!(lines[2], format!("{:<25} {:<15} {} seconds ago", "new.txt", 0, 0));
}
