use markdownizer::parser::{
    description, front_matter, header_metadata, project, task, tasks, title, title_hash, title_underline,
    MetaData, ParseFailure,
};
use markdownizer::types::{parse_status, Project, Status, Task};
use markdownizer::yaml::count_nesting_marks;

fn leaf(title: &str, done: bool, time_estimate: Option<usize>) -> Task {
    Task {
        title: title.to_string(),
        done,
        time_spent: 0,
        time_estimate,
        tasks: vec![],
    }
}

#[test]
fn test_title_hash() {
    assert_eq!(title_hash("# toto\n"), Ok(("", "toto")));
    assert_eq!(title_hash("# titi\naa"), Ok(("aa", "titi")));
    assert_eq!(title_hash("#   titi\naa"), Ok(("aa", "titi")));
    assert_eq!(title_hash(" # toto"), Err(ParseFailure::MissingTitle));
}

#[test]
fn test_title_underline() {
    assert_eq!(title_underline("toto\n===\n"), Ok(("", "toto")));
    assert_eq!(title_underline("toto\n===\naaa"), Ok(("aaa", "toto")));
    assert_eq!(title_underline("toto\r\n===\n"), Ok(("", "toto")));
    assert_eq!(title_underline("toto\n===aaa"), Err(ParseFailure::MissingTitle));
}

#[test]
fn test_front_matter() {
    let meta = "---\nstatus: active\ntags:\n---\no";
    assert_eq!(
        front_matter(meta),
        Ok(Some(("o", MetaData { status: parse_status("active"), tags: vec![] })))
    );
}

#[test]
fn test_task() {
    let taskstr = "* principale\n  * [ ] sous 1\n  * [x] sous 2\n* une autre";
    assert_eq!(
        task(0, taskstr),
        Some((
            "* une autre",
            Task {
                title: "principale".into(),
                done: false,
                time_spent: 0,
                time_estimate: None,
                tasks: vec![
                    Task {
                        title: "sous 1".into(),
                        done: false,
                        time_spent: 0,
                        time_estimate: None,
                        tasks: vec![]
                    },
                    Task {
                        title: "sous 2".into(),
                        done: true,
                        time_spent: 0,
                        time_estimate: None,
                        tasks: vec![]
                    }
                ]
            }
        ))
    );
}

#[test]
fn test_title() {
    assert_eq!(title("# toto\n"), Ok(("", "toto")));
    assert_eq!(title("toto\n===\naaa"), Ok(("aaa", "toto")));
}

#[test]
fn title_with_leading_space_fails_both_forms() {
    assert_eq!(title(" # toto"), Err(ParseFailure::MissingTitle));
    assert_eq!(title_underline(" # toto"), Err(ParseFailure::MissingTitle));
}

#[test]
fn underlined_title_must_not_be_empty() {
    assert_eq!(title_underline("\n===\n"), Err(ParseFailure::MissingTitle));
}

#[test]
fn status_tokens() {
    assert_eq!(parse_status("active"), Some(Status::Active));
    assert_eq!(parse_status("ignore"), Some(Status::Ignore));
    assert_eq!(parse_status("abandoned"), Some(Status::Abandoned));
    assert_eq!(parse_status("maybe"), Some(Status::Maybe));
    assert_eq!(parse_status("paused"), Some(Status::Paused));
    assert_eq!(parse_status("bogus"), None);
    assert_eq!(parse_status(""), None);
    assert_eq!(parse_status("Active"), None);
}

#[test]
fn estimate_in_hours() {
    assert_eq!(task(0, "* 1h lire\n"), Some(("", leaf("lire", false, Some(60)))));
}

#[test]
fn estimate_in_days() {
    assert_eq!(task(0, "* 2j lire\n"), Some(("", leaf("lire", false, Some(2880)))));
    assert_eq!(task(0, "* 2d lire\n"), Some(("", leaf("lire", false, Some(2880)))));
}

#[test]
fn estimate_in_minutes() {
    assert_eq!(task(0, "* 3mn lire\n"), Some(("", leaf("lire", false, Some(3)))));
}

#[test]
fn estimate_after_checkbox() {
    assert_eq!(task(0, "* [x] 12mn fait\n"), Some(("", leaf("fait", true, Some(12)))));
}

#[test]
fn malformed_estimate_stays_in_title() {
    assert_eq!(task(0, "* 3m lire\n"), Some(("", leaf("3m lire", false, None))));
    assert_eq!(task(0, "* 3h\n"), Some(("", leaf("3h", false, None))));
}

#[test]
fn estimate_too_large_stays_in_title() {
    let line = "* 99999999999999999999999h big\n";
    assert_eq!(
        task(0, line),
        Some(("", leaf("99999999999999999999999h big", false, None)))
    );
}

#[test]
fn task_without_line_ending_is_not_read() {
    assert_eq!(task(0, "* une autre"), None);
}

#[test]
fn task_at_wrong_indentation_is_not_read() {
    assert_eq!(task(1, "* top\n"), None);
    assert_eq!(task(0, "  * nested\n"), None);
    assert_eq!(task(1, "  * nested\n"), Some(("", leaf("nested", false, None))));
}

#[test]
fn nested_tasks_and_sibling() {
    let input = "## Tasks\n* principale\n  * [ ] sous 1\n  * [x] sous 2\n* une autre\n";
    let (rest, ts) = tasks(input).unwrap();
    assert_eq!(rest, "");
    assert_eq!(ts.len(), 2);
    assert_eq!(ts[0].title, "principale");
    assert!(!ts[0].done);
    assert_eq!(ts[0].tasks, vec![leaf("sous 1", false, None), leaf("sous 2", true, None)]);
    assert_eq!(ts[1], leaf("une autre", false, None));
}

#[test]
fn task_list_stops_at_other_line() {
    let input = "## Tasks\n* a\nnot a task\n* b\n";
    let (rest, ts) = tasks(input).unwrap();
    assert_eq!(rest, "not a task\n* b\n");
    assert_eq!(ts, vec![leaf("a", false, None)]);
}

#[test]
fn task_section_needs_marker() {
    assert_eq!(tasks("* a\n"), Err(ParseFailure::MissingTaskMarker));
    assert_eq!(tasks("## Tasks"), Err(ParseFailure::MissingTaskMarker));
}

#[test]
fn description_up_to_marker() {
    assert_eq!(
        description("some text\nmore\n## Tasks\n"),
        Ok(("\n## Tasks\n", "some text\nmore".to_string()))
    );
    assert_eq!(description("\n## Tasks\n"), Ok(("\n## Tasks\n", String::new())));
    assert_eq!(description("no marker\n"), Err(ParseFailure::MissingTaskMarker));
}

#[test]
fn front_matter_absent() {
    assert_eq!(front_matter("# title\n"), Ok(None));
}

#[test]
fn front_matter_unknown_status() {
    let meta = "---\nstatus: later\n---\nrest";
    assert_eq!(front_matter(meta), Ok(Some(("rest", MetaData { status: None, tags: vec![] }))));
}

#[test]
fn front_matter_malformed() {
    let meta = "---\nstatus: [active\n---\nrest";
    assert_eq!(front_matter(meta), Err(ParseFailure::MalformedHeader));
}

const FULL: &str = "
---
status: active
---

Lectures liens
==============

## Tasks

* 1h taguer liens nons tagués
  * toread, reference
  * catégories
* compteur liens à lire
* migration wallabag ?
";

#[test]
fn test_project() {
    assert_eq!(
        project(FULL),
        Ok((
            "",
            Project {
                title: "Lectures liens".into(),
                status: parse_status("active"),
                tasks: vec![
                    Task {
                        title: "taguer liens nons tagués".into(),
                        done: false,
                        time_spent: 0,
                        time_estimate: Some(60),
                        tasks: vec![
                            Task {
                                title: "toread, reference".into(),
                                done: false,
                                time_spent: 0,
                                time_estimate: None,
                                tasks: vec![]
                            },
                            Task {
                                title: "catégories".into(),
                                done: false,
                                time_spent: 0,
                                time_estimate: None,
                                tasks: vec![]
                            }
                        ]
                    },
                    Task {
                        title: "compteur liens à lire".into(),
                        done: false,
                        time_spent: 0,
                        time_estimate: None,
                        tasks: vec![]
                    },
                    Task {
                        title: "migration wallabag ?".into(),
                        done: false,
                        time_spent: 0,
                        time_estimate: None,
                        tasks: vec![]
                    },
                ]
            }
        ))
    );
}

#[test]
fn full_document_summary() {
    let (_, p) = project(FULL).unwrap();
    assert_eq!(p.status, Some(Status::Active));
    assert_eq!(p.title, "Lectures liens");
    assert_eq!(p.tasks.len(), 3);
    assert_eq!(p.tasks[0].time_estimate, Some(60));
    assert_eq!(p.tasks[0].tasks.len(), 2);
}

#[test]
fn parsing_twice_gives_same_tree() {
    assert_eq!(project(FULL), project(FULL));
}

#[test]
fn missing_task_marker_fails() {
    let input = "# Title\n\nsome description\n* a task\n";
    assert_eq!(project(input), Err(ParseFailure::MissingTaskMarker));
}

#[test]
fn no_header_gives_maybe() {
    let input = "# Title\n\n## Tasks\n* a\n";
    let (_, p) = project(input).unwrap();
    assert_eq!(p.status, Some(Status::Maybe));
    assert_eq!(p.title, "Title");
    assert_eq!(p.tasks, vec![leaf("a", false, None)]);
}

#[test]
fn header_without_status_gives_maybe() {
    let input = "---\ntags: a\n---\n# Title\n\n## Tasks\n* a\n";
    let (_, p) = project(input).unwrap();
    assert_eq!(p.status, Some(Status::Maybe));
}

#[test]
fn header_with_paused_status() {
    let input = "---\nstatus: paused\n---\n# Title\n\n## Tasks\n* a\n";
    let (_, p) = project(input).unwrap();
    assert_eq!(p.status, Some(Status::Paused));
}

#[test]
fn missing_title_fails() {
    assert_eq!(project("\n\n## Tasks\n* a\n"), Err(ParseFailure::MissingTitle));
}

#[test]
fn malformed_header_fails_document() {
    let input = "---\nstatus: [active\n---\n# Title\n\n## Tasks\n* a\n";
    assert_eq!(project(input), Err(ParseFailure::MalformedHeader));
}

#[test]
fn crlf_lines() {
    let input = "# Title\r\n\r\n## Tasks\r\n* [x] a\r\n  * b\r\n";
    let (rest, p) = project(input).unwrap();
    assert_eq!(rest, "");
    assert_eq!(p.title, "Title");
    assert_eq!(p.tasks.len(), 1);
    assert!(p.tasks[0].done);
    assert_eq!(p.tasks[0].title, "a");
    assert_eq!(p.tasks[0].tasks, vec![leaf("b", false, None)]);
}

#[test]
fn header_metadata_from_field() {
    assert_eq!(header_metadata(Some("active")), MetaData { status: Some(Status::Active), tags: vec![] });
    assert_eq!(header_metadata(Some("later")), MetaData { status: None, tags: vec![] });
    assert_eq!(header_metadata(None), MetaData { status: None, tags: vec![] });
}

#[test]
fn header_plain_line_is_malformed() {
    let input = "---\njust a line\n---\n# Title\n\n## Tasks\n* a\n";
    assert_eq!(project(input), Err(ParseFailure::MalformedHeader));
    assert_eq!(front_matter("---\njust a line\n---\nrest"), Err(ParseFailure::MalformedHeader));
}

#[test]
fn header_list_is_malformed() {
    let input = "---\n- status\n- active\n---\n# Title\n\n## Tasks\n* a\n";
    assert_eq!(project(input), Err(ParseFailure::MalformedHeader));
}

#[test]
fn deepest_block_nesting_is_read() {
    let content = format!("{}x", "- ".repeat(256));
    assert_eq!(count_nesting_marks(&content), 256);
    let input = format!("---\n{}\n---\nrest", content);
    assert_eq!(front_matter(&input), Err(ParseFailure::MalformedHeader));
}

#[test]
fn deepest_flow_nesting_is_read() {
    let content = format!("{}x{}", "[a:".repeat(255), "]".repeat(255));
    assert_eq!(count_nesting_marks(&content), 255);
    let input = format!("---\n{}\n---\nrest", content);
    assert_eq!(front_matter(&input), Err(ParseFailure::MalformedHeader));
}

#[test]
fn long_flat_header_is_read() {
    let input = format!("---\nstatus: active\nnote: {}\n---\nrest", "a".repeat(5000));
    assert_eq!(
        front_matter(&input),
        Ok(Some(("rest", MetaData { status: Some(Status::Active), tags: vec![] })))
    );
}

fn keyed_header(keys: usize) -> String {
    let mut content = String::from("status: active");
    for k in 0..keys {
        content.push_str(&format!("\nk{}: v", k));
    }
    format!("---\n{}\n---\nrest", content)
}

#[test]
fn header_over_nesting_bound_is_malformed() {
    assert_eq!(
        front_matter(&keyed_header(255)),
        Ok(Some(("rest", MetaData { status: Some(Status::Active), tags: vec![] })))
    );
    assert_eq!(front_matter(&keyed_header(256)), Err(ParseFailure::MalformedHeader));
}

#[test]
fn nesting_marks_counted() {
    assert_eq!(count_nesting_marks("a: b"), 1);
    assert_eq!(count_nesting_marks("a:"), 1);
    assert_eq!(count_nesting_marks("http://x-y"), 0);
    assert_eq!(count_nesting_marks("- [a, {b: c}]"), 4);
    assert_eq!(count_nesting_marks("? k\n: v"), 2);
    assert_eq!(count_nesting_marks(""), 0);
}
