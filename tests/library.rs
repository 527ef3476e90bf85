use markdownizer::parser::ParseFailure;
use markdownizer::types::Status;
use markdownizer::{project_from_text, Markdownizer, MarkdownizerError};

#[test]
fn new_keeps_root() {
    let m = Markdownizer::new("/tmp/projects");
    assert_eq!(m.root, "/tmp/projects");
}

#[test]
fn project_from_good_text() {
    let p = project_from_text("a.md", "# A\n\n## Tasks\n* t\n").unwrap();
    assert_eq!(p.title, "A");
    assert_eq!(p.status, Some(Status::Maybe));
}

#[test]
fn project_from_bad_text_names_file() {
    let r = project_from_text("b.md", "nothing here");
    assert_eq!(
        r,
        Err(MarkdownizerError::ParseError("b.md".to_string(), "missing title".to_string()))
    );
}

#[test]
fn failure_messages() {
    assert_eq!(ParseFailure::MalformedHeader.message(), "malformed header block");
    assert_eq!(ParseFailure::MissingTitle.message(), "missing title");
    assert_eq!(ParseFailure::MissingTaskMarker.message(), "missing task section marker");
}
