use gt_rs::decimal::to_decimal;
use gt_rs::store::{entry_line, is_entry_text, list_file_content, parse_list, remove_dir};

fn strings(items: &[&str]) -> Vec<String> {
    items.iter().map(|s| s.to_string()).collect()
}

#[test]
fn parse_reads_lines_in_order() {
    assert_eq!(parse_list("/a\n/b\n/c\n"), strings(&["/a", "/b", "/c"]));
}

#[test]
fn parse_skips_blank_lines_and_keeps_unterminated_last() {
    assert_eq!(parse_list("\n/a\n\n/b"), strings(&["/a", "/b"]));
    assert_eq!(parse_list(""), Vec::<String>::new());
    assert_eq!(parse_list("\n\n"), Vec::<String>::new());
}

#[test]
fn parse_keeps_non_ascii_entries() {
    assert_eq!(parse_list("/home/jürgen\n/tmp/日本\n"), strings(&["/home/jürgen", "/tmp/日本"]));
}

#[test]
fn file_content_ends_each_entry_with_a_line_end() {
    assert_eq!(list_file_content(&strings(&["/a", "/b"])), "/a\n/b\n");
    assert_eq!(list_file_content(&Vec::new()), "");
}

#[test]
fn add_to_empty_file_writes_exactly_the_entry_line() {
    let mut file = String::new();
    file.push_str(&entry_line("/tmp/x"));
    assert_eq!(file, "/tmp/x\n");
    assert_eq!(parse_list(&file), strings(&["/tmp/x"]));
}

#[test]
fn appended_entries_load_back_in_order() {
    let entries = ["/home/user/project-a", "/home/user/project-b", "/srv", "/home/user/project-a"];
    let mut file = String::new();
    for e in entries.iter() {
        file.push_str(&entry_line(e));
    }
    assert_eq!(file, "/home/user/project-a\n/home/user/project-b\n/srv\n/home/user/project-a\n");
    assert_eq!(parse_list(&file), strings(&entries));
}

#[test]
fn remove_keeps_order_of_the_rest() {
    let mut dirs = strings(&["/a", "/b", "/c", "/d"]);
    let content = remove_dir(1, &mut dirs);
    assert_eq!(dirs, strings(&["/a", "/c", "/d"]));
    assert_eq!(content, "/a\n/c\n/d\n");
}

#[test]
fn remove_only_entry_empties_list_and_file() {
    let mut dirs = strings(&["/only"]);
    let content = remove_dir(0, &mut dirs);
    assert!(dirs.is_empty());
    assert_eq!(content, "");
    assert!(parse_list(&content).is_empty());
}

#[test]
fn decimal_notation() {
    assert_eq!(to_decimal(0), "0");
    assert_eq!(to_decimal(7), "7");
    assert_eq!(to_decimal(10), "10");
    assert_eq!(to_decimal(1234), "1234");
    assert_eq!(to_decimal(usize::MAX), usize::MAX.to_string());
}

#[test]
fn parse_drops_carriage_return_before_line_end() {
    assert_eq!(parse_list("/a\r\n/b\r\n"), strings(&["/a", "/b"]));
    assert_eq!(parse_list("/a\r\n\r\n/b"), strings(&["/a", "/b"]));
    assert_eq!(parse_list("/a\r"), strings(&["/a\r"]));
}

#[test]
fn entry_text_rules() {
    assert!(is_entry_text("/tmp/x"));
    assert!(is_entry_text("/a\rb"));
    assert!(!is_entry_text(""));
    assert!(!is_entry_text("/a\n/b"));
    assert!(!is_entry_text("/a\r"));
}
