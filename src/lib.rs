//! Reads task-management files written in a markdown dialect into projects: an optional
//! header block with a status, a title, a free description and a tree of tasks.

pub mod types;
pub mod text;
pub mod yaml;
pub mod parser;
pub mod laws;

use vstd::prelude::*;

use crate::parser::{failure_message, project, project_spec};
use crate::types::{project_model, Project};

verus! {

/// Why projects could not be listed.
#[derive(Debug, PartialEq)]
pub enum MarkdownizerError {
    /// An entry of the project directory could not be read.
    IOError,
    /// A file could not be read as a project: its location and a diagnostic.
    ParseError(String, String),
}

/// Lists the projects kept as files in one directory.
pub struct Markdownizer {
    pub root: String,
}

impl Markdownizer {
    /// A lister for the directory at `root`.
    pub fn new(root: &str) -> (r: Markdownizer)
        ensures
            r.root@ == root@,
    {
        Markdownizer { root: String::from_str(root) }
    }
}

/// Reads the text of the file at `location` as a project; a failure names the file.
pub fn project_from_text(location: &str, text: &str) -> (r: Result<Project, MarkdownizerError>)
    ensures
        match project_spec(text@) {
            Ok((_, m)) => r matches Ok(p) && project_model(p) == m,
            Err(f) => r matches Err(MarkdownizerError::ParseError(l, d)) && l@ == location@ && d@
                == failure_message(f),
        },
{
    match project(text) {
        Ok((_, p)) => Ok(p),
        Err(f) => Err(MarkdownizerError::ParseError(String::from_str(location), f.message())),
    }
}

} // verus!
