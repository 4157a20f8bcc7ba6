use mail_filters::dat::DatDocument;

#[test]
fn append_inserts_quotes() {
    let mut doc = DatDocument { lines: Vec::new() };
    doc.append("foo", "bar");
    assert_eq!(doc.lines[0], "foo=\"bar\"");
}

#[test]
fn new_document_holds_the_preamble() {
    let doc = DatDocument::new(9, false);
    assert_eq!(doc.lines, vec!["version=\"9\"".to_owned(), "logging=\"no\"".to_owned()]);
    assert_eq!(doc.to_string(), "version=\"9\"\nlogging=\"no\"");
}

#[test]
fn new_document_with_logging() {
    let doc = DatDocument::new(65535, true);
    assert_eq!(doc.to_string(), "version=\"65535\"\nlogging=\"yes\"");
}

#[test]
fn new_document_with_version_zero() {
    let doc = DatDocument::new(0, true);
    assert_eq!(doc.to_string(), "version=\"0\"\nlogging=\"yes\"");
}

#[test]
fn lines_keep_the_order_of_appending() {
    let mut doc = DatDocument::new(10, false);
    doc.append("b", "2");
    doc.append("a", "1");
    doc.append("b", "");
    assert_eq!(doc.to_string(), "version=\"10\"\nlogging=\"no\"\nb=\"2\"\na=\"1\"\nb=\"\"");
}

#[test]
fn empty_document_is_empty_text() {
    let doc = DatDocument { lines: Vec::new() };
    assert_eq!(doc.to_string(), "");
}

#[test]
fn single_line_has_no_newline() {
    let mut doc = DatDocument { lines: Vec::new() };
    doc.append("key", "some value");
    assert_eq!(doc.to_string(), "key=\"some value\"");
}
