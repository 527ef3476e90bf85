use vstd::prelude::*;

use crate::parser::{delimiter_spec, description_spec, find_from, project_spec};
use crate::text::has_at;
use crate::types::Status;

verus! {

/// Reading the same text twice gives the same project, or the same failure: what is read
/// depends on the text alone.
pub proof fn project_reading_is_deterministic(a: Seq<char>, b: Seq<char>)
    requires
        a == b,
    ensures
        project_spec(a) == project_spec(b),
{
}

/// A document that starts with no header block gets the status `Maybe`.
pub proof fn no_header_means_maybe(s: Seq<char>)
    requires
        delimiter_spec(s, 0) is None,
    ensures
        project_spec(s) matches Ok((_, m)) ==> m.status == Some(Status::Maybe),
{
}

proof fn lemma_find_from_found(s: Seq<char>, p: int, lit: Seq<char>)
    ensures
        find_from(s, p, lit) matches Some(i) ==> has_at(s, i, lit),
    decreases s.len() - p,
{
    if 0 <= p < s.len() && !has_at(s, p, lit) {
        lemma_find_from_found(s, p + 1, lit);
    }
}

/// A document without a `## Tasks` line is no project: reading it fails, rather than giving
/// a project without tasks.
pub proof fn no_task_marker_no_project(s: Seq<char>)
    requires
        forall|i: int| !has_at(s, i, "## Tasks"@),
    ensures
        project_spec(s) is Err,
{
    assert forall|p: int| !(#[trigger] description_spec(s, p) is Some) by {
        lemma_find_from_found(s, p, "\n## Tasks"@);
        if let Some(i) = find_from(s, p, "\n## Tasks"@) {
            reveal_strlit("\n## Tasks");
            reveal_strlit("## Tasks");
            assert(s.subrange(i + 1, i + 9) =~= s.subrange(i, i + 9).subrange(1, 9));
            assert("\n## Tasks"@.subrange(1, 9) =~= "## Tasks"@);
            assert(has_at(s, i + 1, "## Tasks"@));
        }
    }
}

} // verus!
