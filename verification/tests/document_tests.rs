use wfemto::document::Document;

fn doc_from(strs: &[&str]) -> Document {
    let mut d = Document::new();
    d.replace_all(strs.iter().map(|s| s.chars().collect()).collect());
    d
}

fn line_string(d: &Document, row: usize) -> String {
    d.line(row).iter().collect()
}

#[test]
fn new_document_has_one_empty_line() {
    let d = Document::new();
    assert_eq!(d.line_count(), 1);
    assert_eq!(d.line_len(0), 0);
}

#[test]
fn insert_and_delete_code_points() {
    let mut d = doc_from(&["hllo"]);
    d.insert_code_point(0, 1, 'e');
    assert_eq!(line_string(&d, 0), "hello");
    d.delete_code_point(0, 5);
    assert_eq!(line_string(&d, 0), "hell");
    d.delete_code_point(0, 1);
    assert_eq!(line_string(&d, 0), "ell");
}

#[test]
fn split_line_keeps_both_halves() {
    let mut d = doc_from(&["hello world", "tail"]);
    d.split_line(0, 5);
    assert_eq!(d.line_count(), 3);
    assert_eq!(line_string(&d, 0), "hello");
    assert_eq!(line_string(&d, 1), " world");
    assert_eq!(line_string(&d, 2), "tail");
}

#[test]
fn join_with_previous_concatenates() {
    let mut d = doc_from(&["hello", " world"]);
    d.join_with_previous(1);
    assert_eq!(d.line_count(), 1);
    assert_eq!(line_string(&d, 0), "hello world");
}

#[test]
fn split_then_join_restores_line() {
    let mut d = doc_from(&["roundtrip"]);
    d.split_line(0, 5);
    d.join_with_previous(1);
    assert_eq!(d.line_count(), 1);
    assert_eq!(line_string(&d, 0), "roundtrip");
}

#[test]
fn replace_all_with_empty_leaves_blank_line() {
    let mut d = doc_from(&["something"]);
    d.replace_all(Vec::new());
    assert_eq!(d.line_count(), 1);
    assert_eq!(d.line_len(0), 0);
}
