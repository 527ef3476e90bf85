use vstd::prelude::*;

use crate::text::chars_of;

verus! {

/// The most marks that may open a nested collection (see `nesting_marks`) in header content
/// handed to the YAML reader. Its reader descends one call per level of nesting, with no limit
/// of its own; every level needs such a mark (a flow collection at most two levels per
/// bracket), so with this bound the nesting stays within a thread's stack.
pub const MAX_NESTING_MARKS: usize = 256;

/// A character that the YAML reader takes as a blank or a line break after an indicator.
pub open spec fn ends_indicator(c: char) -> bool {
    c == ' ' || c == '\t' || c == '\r' || c == '\n' || c == '\0'
}

/// Position `i` of `t` may open a nested collection: a bracket or brace, or a `-`, `?` or
/// `:` followed by a blank, a line break or the end of the text.
pub open spec fn opens_collection(t: Seq<char>, i: int) -> bool {
    t[i] == '[' || t[i] == '{' || ((t[i] == '-' || t[i] == '?' || t[i] == ':') && (i + 1
        == t.len() || ends_indicator(t[i + 1])))
}

/// How many of the first `n` positions of `t` may open a nested collection.
pub open spec fn marks_before(t: Seq<char>, n: int) -> nat
    decreases n,
{
    if n <= 0 {
        0
    } else {
        marks_before(t, n - 1) + if opens_collection(t, n - 1) {
            1nat
        } else {
            0nat
        }
    }
}

/// How many positions of `t` may open a nested collection.
pub open spec fn nesting_marks(t: Seq<char>) -> nat {
    marks_before(t, t.len() as int)
}

/// Counts the positions of `text` that may open a nested collection.
pub fn count_nesting_marks(text: &str) -> (r: usize)
    ensures
        r == nesting_marks(text@),
{
    let t = chars_of(text);
    let n = t.len();
    let mut count: usize = 0;
    let mut k: usize = 0;
    while k < n
        invariant
            n == t@.len(),
            t@ == text@,
            k <= n,
            count == marks_before(t@, k as int),
            count <= k,
        decreases n - k,
    {
        let c = t[k];
        let opens = if c == '[' || c == '{' {
            true
        } else if c == '-' || c == '?' || c == ':' {
            if k + 1 == n {
                true
            } else {
                let d = t[k + 1];
                d == ' ' || d == '\t' || d == '\r' || d == '\n' || d == '\0'
            }
        } else {
            false
        };
        if opens {
            count = count + 1;
        }
        k = k + 1;
    }
    count
}

/// What a YAML text holds under `key` in its first document: `None` where the text is not
/// YAML, holds no document, or its first document is not a key-value mapping; `Some(None)`
/// where that mapping has no string value under `key`.
pub uninterp spec fn yaml_string_field(text: Seq<char>, key: Seq<char>) -> Option<Option<Seq<char>>>;

/// Relies on `yaml_rust::YamlLoader::load_from_str` to read `text` as YAML, on the
/// `yaml_rust::Yaml::Hash` variant to tell a mapping, on indexing a `Yaml` by `key` and on
/// `Yaml::as_str` to read the string value found there. The result depends on the two texts
/// alone.
#[verifier::external_body]
pub(crate) fn yaml_field(text: &str, key: &str) -> (r: Option<Option<String>>)
    requires
        nesting_marks(text@) <= MAX_NESTING_MARKS,
    ensures
        match r {
            None => yaml_string_field(text@, key@) is None,
            Some(None) => yaml_string_field(text@, key@) == Some(None::<Seq<char>>),
            Some(Some(v)) => yaml_string_field(text@, key@) == Some(Some(v@)),
        },
{
    match yaml_rust::YamlLoader::load_from_str(text) {
        Ok(docs) => match docs.first() {
            Some(doc @ yaml_rust::Yaml::Hash(_)) => Some(doc[key].as_str().map(String::from)),
            _ => None,
        },
        Err(_) => None,
    }
}

} // verus!
