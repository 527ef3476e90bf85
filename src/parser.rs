use vstd::prelude::*;

use crate::text::{
    blank_end, chars_of, digits_end, digits_value, eol_at, eol_end, find_line, has_at, is_digit,
    lemma_blank_end_bounds, lemma_digits_end_bounds, lemma_digits_value_grows, lemma_line_stop_bounds,
    lemma_run_end_bounds, line_at, run_end, skip_blank, skip_digits, skip_run,
    starts_at, text_between,
};
use crate::types::{
    parse_status, project_model, status_of, task_model, tasks_model, Project, ProjectModel, Status,
    Task, TaskModel,
};
use crate::yaml::{
    count_nesting_marks, nesting_marks, yaml_field, yaml_string_field, MAX_NESTING_MARKS,
};

verus! {

/// Why a document could not be read as a project.
#[derive(Clone, Copy, Debug, PartialEq, Eq, Structural)]
pub enum ParseFailure {
    /// A header block stands there, but its content is no key-value mapping, or may nest too
    /// deep to be read.
    MalformedHeader,
    /// Neither heading form gives a title.
    MissingTitle,
    /// The task section's `## Tasks` line is missing, or not ended by a line break.
    MissingTaskMarker,
}

/// The diagnostic text of a failure.
pub open spec fn failure_message(f: ParseFailure) -> Seq<char> {
    match f {
        ParseFailure::MalformedHeader => "malformed header block"@,
        ParseFailure::MissingTitle => "missing title"@,
        ParseFailure::MissingTaskMarker => "missing task section marker"@,
    }
}

impl ParseFailure {
    /// The diagnostic text of this failure.
    pub fn message(&self) -> (r: String)
        ensures
            r@ == failure_message(*self),
    {
        match self {
            ParseFailure::MalformedHeader => String::from_str("malformed header block"),
            ParseFailure::MissingTitle => String::from_str("missing title"),
            ParseFailure::MissingTaskMarker => String::from_str("missing task section marker"),
        }
    }
}

/// The metadata of a header block.
#[derive(Debug, PartialEq)]
pub struct MetaData {
    pub status: Option<Status>,
    pub tags: Vec<String>,
}

/// The first position at or after `p` where `lit` stands.
pub open spec fn find_from(s: Seq<char>, p: int, lit: Seq<char>) -> Option<int>
    decreases s.len() - p,
{
    if p < 0 || p >= s.len() {
        None
    } else if has_at(s, p, lit) {
        Some(p)
    } else {
        find_from(s, p + 1, lit)
    }
}

// ---- Titles ----

/// `#`, one or more blanks, then the rest of the line as the title.
pub open spec fn title_hash_spec(s: Seq<char>, p: int) -> Option<(int, Seq<char>)> {
    if 0 <= p < s.len() && s[p] == '#' && run_end(s, p + 1, ' ', '\t') > p + 1 {
        let e = run_end(s, p + 1, ' ', '\t');
        match line_at(s, e) {
            Some((q, n)) => Some((n, s.subrange(e, q))),
            None => None,
        }
    } else {
        None
    }
}

/// A line of text (leading blanks skipped, not empty), then a line of one or more `=`.
pub open spec fn title_underline_spec(s: Seq<char>, p: int) -> Option<(int, Seq<char>)> {
    let e = run_end(s, p, ' ', '\t');
    match line_at(s, e) {
        Some((q, n)) => {
            let k = run_end(s, n, '=', '=');
            if q > e && k > n {
                match eol_end(s, k) {
                    Some(m) => Some((m, s.subrange(e, q))),
                    None => None,
                }
            } else {
                None
            }
        },
        None => None,
    }
}

/// The title at `p` and the position after it: the `#` form first, then the underlined one.
pub open spec fn title_spec(s: Seq<char>, p: int) -> Option<(int, Seq<char>)> {
    match title_hash_spec(s, p) {
        Some(r) => Some(r),
        None => title_underline_spec(s, p),
    }
}

// ---- Description ----

/// Everything from `p` up to the first line break followed by `## Tasks`.
pub open spec fn description_spec(s: Seq<char>, p: int) -> Option<(int, Seq<char>)> {
    match find_from(s, p, "\n## Tasks"@) {
        Some(i) => Some((i, s.subrange(p, i))),
        None => None,
    }
}

// ---- Tasks ----

/// `p` starts `level` two-space indentation units.
pub open spec fn indent_ok(s: Seq<char>, p: int, level: nat) -> bool {
    0 <= p && p + 2 * level <= s.len() && forall|k: int| p <= k < p + 2 * level ==> s[k] == ' '
}

/// The completion flag at `p`, and the position after the checkbox if there is one.
pub open spec fn checkbox_spec(s: Seq<char>, p: int) -> (bool, int) {
    if has_at(s, p, "[x] "@) {
        (true, p + 4)
    } else if has_at(s, p, "[ ] "@) {
        (false, p + 4)
    } else {
        (false, p)
    }
}

/// The minutes that a unit stands for, and the position after the unit.
pub open spec fn unit_spec(s: Seq<char>, d: int) -> Option<(nat, int)> {
    if 0 <= d < s.len() && (s[d] == 'j' || s[d] == 'd') {
        Some((1440, d + 1))
    } else if 0 <= d < s.len() && s[d] == 'h' {
        Some((60, d + 1))
    } else if 0 <= d && d + 1 < s.len() && s[d] == 'm' && s[d + 1] == 'n' {
        Some((1, d + 2))
    } else {
        None
    }
}

/// A time estimate at `p` (digits, a unit, a space) in minutes, and the position after it.
/// An estimate whose minutes do not fit in `usize` is no estimate.
pub open spec fn estimate_spec(s: Seq<char>, p: int) -> Option<(int, usize)> {
    let d = digits_end(s, p);
    if d > p {
        match unit_spec(s, d) {
            Some((m, u)) => {
                if 0 <= u < s.len() && s[u] == ' ' && digits_value(s, p, d) * m <= usize::MAX {
                    Some((u + 1, (digits_value(s, p, d) * m) as usize))
                } else {
                    None
                }
            },
            None => None,
        }
    } else {
        None
    }
}

/// The line of one task at `level`: the position of the next line, the title, the completion
/// flag and the estimate.
pub open spec fn task_head_spec(s: Seq<char>, p: int, level: nat) -> Option<
    (int, Seq<char>, bool, Option<usize>),
> {
    let b = p + 2 * level;
    if indent_ok(s, p, level) && has_at(s, b, "* "@) {
        let (done, c) = checkbox_spec(s, b + 2);
        let (est, t) = match estimate_spec(s, c) {
            Some((e, v)) => (Some(v), e),
            None => (None::<usize>, c),
        };
        match line_at(s, t) {
            Some((q, n)) => Some((n, s.subrange(t, q), done, est)),
            None => None,
        }
    } else {
        None
    }
}

/// One task at `level` with all its subtasks, and the position after them.
pub open spec fn task_spec(s: Seq<char>, p: int, level: nat) -> Option<(int, TaskModel)>
    decreases s.len() - p, 0int,
{
    match task_head_spec(s, p, level) {
        Some((n, title, done, est)) => {
            if p < n <= s.len() {
                let (m, kids) = task_list_spec(s, n, level + 1);
                Some(
                    (
                        m,
                        TaskModel {
                            title: title,
                            done: done,
                            time_spent: 0,
                            time_estimate: est,
                            tasks: kids,
                        },
                    ),
                )
            } else {
                None
            }
        },
        None => None,
    }
}

/// As many tasks at `level` as follow one another from `p`, and the position after them.
pub open spec fn task_list_spec(s: Seq<char>, p: int, level: nat) -> (int, Seq<TaskModel>)
    decreases s.len() - p, 1int,
{
    match task_spec(s, p, level) {
        Some((n, t)) => {
            if p < n <= s.len() {
                let (m, ts) = task_list_spec(s, n, level);
                (m, seq![t] + ts)
            } else {
                (p, Seq::empty())
            }
        },
        None => (p, Seq::empty()),
    }
}

/// The `## Tasks` line, after optional blank lines: the position after it and the blank
/// lines that follow it.
pub open spec fn tasks_head_spec(s: Seq<char>, p: int) -> Option<int> {
    let b = blank_end(s, p);
    if has_at(s, b, "## Tasks"@) {
        match eol_end(s, b + 8) {
            Some(n) => Some(blank_end(s, n)),
            None => None,
        }
    } else {
        None
    }
}

/// The task section at `p`: its top-level tasks and the position after them.
pub open spec fn tasks_spec(s: Seq<char>, p: int) -> Option<(int, Seq<TaskModel>)> {
    match tasks_head_spec(s, p) {
        Some(h) => Some(task_list_spec(s, h, 0)),
        None => None,
    }
}

// ---- Header block ----

/// A delimiter line `---` at `p`, after an optional line break: the position after it.
pub open spec fn delimiter_spec(s: Seq<char>, p: int) -> Option<int> {
    let a = match eol_end(s, p) {
        Some(n) => n,
        None => p,
    };
    if has_at(s, a, "---"@) {
        eol_end(s, a + 3)
    } else {
        None
    }
}

/// The header block at `p`: where its content starts and stops, and the position after it.
pub open spec fn header_spec(s: Seq<char>, p: int) -> Option<(int, int, int)> {
    match delimiter_spec(s, p) {
        Some(c) => match find_from(s, c, "\n---"@) {
            Some(i) => match delimiter_spec(s, i) {
                Some(e) => Some((c, i, e)),
                None => None,
            },
            None => None,
        },
        None => None,
    }
}

/// The status that a header's `status` value names.
pub open spec fn header_status(v: Option<Seq<char>>) -> Option<Status> {
    match v {
        Some(t) => status_of(t),
        None => None,
    }
}

/// The header block at `p`, if one stands there: the position after it and its status.
/// Content that is no key-value mapping, or that may nest collections deeper than the YAML
/// reader can go (more than `MAX_NESTING_MARKS` marks), makes the header malformed.
pub open spec fn front_matter_spec(s: Seq<char>, p: int) -> Result<
    Option<(int, Option<Status>)>,
    ParseFailure,
> {
    match header_spec(s, p) {
        Some((c, i, e)) => if nesting_marks(s.subrange(c, i)) > MAX_NESTING_MARKS {
            Err(ParseFailure::MalformedHeader)
        } else {
            match yaml_string_field(s.subrange(c, i), "status"@) {
                Some(v) => Ok(Some((e, header_status(v)))),
                None => Err(ParseFailure::MalformedHeader),
            }
        },
        None => Ok(None),
    }
}

// ---- Project ----

/// A whole document read as a project, and the position where reading stopped.
pub open spec fn project_spec(s: Seq<char>) -> Result<(int, ProjectModel), ParseFailure> {
    match front_matter_spec(s, 0) {
        Err(e) => Err(e),
        Ok(meta) => {
            let (p1, status) = match meta {
                Some((n, st)) => (n, st),
                None => (0int, None::<Status>),
            };
            let p2 = blank_end(s, p1);
            match title_spec(s, p2) {
                None => Err(ParseFailure::MissingTitle),
                Some((p3, title)) => match description_spec(s, p3) {
                    None => Err(ParseFailure::MissingTaskMarker),
                    Some((p4, _)) => match tasks_spec(s, p4) {
                        None => Err(ParseFailure::MissingTaskMarker),
                        Some((p5, tasks)) => Ok(
                            (
                                p5,
                                ProjectModel {
                                    title: title,
                                    status: Some(
                                        match status {
                                            Some(st) => st,
                                            None => Status::Maybe,
                                        },
                                    ),
                                    tasks: tasks,
                                },
                            ),
                        ),
                    },
                },
            }
        },
    }
}

// ---- Facts ----

proof fn lemma_line_at_bounds(s: Seq<char>, p: int)
    requires
        0 <= p <= s.len(),
    ensures
        line_at(s, p) matches Some((q, n)) ==> p <= q < n <= s.len(),
{
    lemma_line_stop_bounds(s, p);
}

// ---- Reading ----

/// The first position at or after `p` where `lit` stands.
fn find_at(s: &Vec<char>, p: usize, lit: &str) -> (r: Option<usize>)
    requires
        p <= s@.len(),
    ensures
        match r {
            Some(i) => find_from(s@, p as int, lit@) == Some(i as int) && p <= i < s@.len(),
            None => find_from(s@, p as int, lit@) is None,
        },
{
    let mut i = p;
    while i < s.len()
        invariant
            p <= i <= s@.len(),
            find_from(s@, i as int, lit@) == find_from(s@, p as int, lit@),
        decreases s@.len() - i,
    {
        if starts_at(s, i, lit) {
            return Some(i);
        }
        i = i + 1;
    }
    None
}

/// The `#` form of a title at `p`: the next position and where the title starts and stops.
fn title_hash_at(s: &Vec<char>, p: usize) -> (r: Option<(usize, usize, usize)>)
    requires
        p <= s@.len(),
    ensures
        match r {
            Some((n, a, b)) => a <= b <= s@.len() && n <= s@.len() && title_hash_spec(s@, p as int) == Some(
                (n as int, s@.subrange(a as int, b as int)),
            ),
            None => title_hash_spec(s@, p as int) is None,
        },
{
    if p < s.len() && s[p] == '#' {
        let e = skip_run(s, p + 1, ' ', '\t');
        proof {
            lemma_run_end_bounds(s@, p + 1, ' ', '\t');
        }
        if e > p + 1 {
            proof {
                lemma_line_at_bounds(s@, e as int);
            }
            match find_line(s, e) {
                Some((q, n)) => Some((n, e, q)),
                None => None,
            }
        } else {
            None
        }
    } else {
        None
    }
}

/// The underlined form of a title at `p`: the next position and where the title starts and
/// stops.
fn title_underline_at(s: &Vec<char>, p: usize) -> (r: Option<(usize, usize, usize)>)
    requires
        p <= s@.len(),
    ensures
        match r {
            Some((n, a, b)) => a <= b <= s@.len() && n <= s@.len() && title_underline_spec(s@, p as int) == Some(
                (n as int, s@.subrange(a as int, b as int)),
            ),
            None => title_underline_spec(s@, p as int) is None,
        },
{
    let e = skip_run(s, p, ' ', '\t');
    proof {
        lemma_run_end_bounds(s@, p as int, ' ', '\t');
        lemma_line_at_bounds(s@, e as int);
    }
    match find_line(s, e) {
        Some((q, n)) => {
            let k = skip_run(s, n, '=', '=');
            proof {
                lemma_run_end_bounds(s@, n as int, '=', '=');
            }
            if q > e && k > n {
                match eol_at(s, k) {
                    Some(m) => Some((m, e, q)),
                    None => None,
                }
            } else {
                None
            }
        },
        None => None,
    }
}

/// A title at `p` in either form: the next position and where the title starts and stops.
fn title_at(s: &Vec<char>, p: usize) -> (r: Option<(usize, usize, usize)>)
    requires
        p <= s@.len(),
    ensures
        match r {
            Some((n, a, b)) => a <= b <= s@.len() && n <= s@.len() && title_spec(s@, p as int) == Some(
                (n as int, s@.subrange(a as int, b as int)),
            ),
            None => title_spec(s@, p as int) is None,
        },
{
    match title_hash_at(s, p) {
        Some(r) => Some(r),
        None => title_underline_at(s, p),
    }
}

/// A time estimate at `p`: the position after it and its minutes.
fn estimate_at(s: &Vec<char>, p: usize) -> (r: Option<(usize, usize)>)
    requires
        p <= s@.len(),
    ensures
        match r {
            Some((e, v)) => estimate_spec(s@, p as int) == Some((e as int, v)) && p < e <= s@.len(),
            None => estimate_spec(s@, p as int) is None,
        },
{
    let d = skip_digits(s, p);
    proof {
        lemma_digits_end_bounds(s@, p as int);
    }
    if d == p || d >= s.len() {
        return None;
    }
    let (m, u): (usize, usize) = if s[d] == 'j' || s[d] == 'd' {
        (1440, d + 1)
    } else if s[d] == 'h' {
        (60, d + 1)
    } else if d + 1 < s.len() && s[d] == 'm' && s[d + 1] == 'n' {
        (1, d + 2)
    } else {
        return None;
    };
    assert(unit_spec(s@, d as int) == Some((m as nat, u as int)));
    if u >= s.len() || s[u] != ' ' {
        return None;
    }
    let mut v: usize = 0;
    let mut i = p;
    while i < d
        invariant
            p <= i <= d,
            d < u < s@.len(),
            s@[u as int] == ' ',
            1 <= m,
            unit_spec(s@, d as int) == Some((m as nat, u as int)),
            d == digits_end(s@, p as int),
            forall|k: int| p <= k < d ==> is_digit(#[trigger] s@[k]),
            v == digits_value(s@, p as int, i as int),
        decreases d - i,
    {
        assert(is_digit(s@[i as int]));
        let digit = (s[i] as u32 - '0' as u32) as usize;
        assert(digit == (s@[i as int] as nat - '0' as nat));
        if v > (usize::MAX - digit) / 10 {
            proof {
                assert(v * 10 + digit > usize::MAX) by (nonlinear_arith)
                    requires
                        v > (usize::MAX - digit) / 10,
                        digit <= 9,
                ;
                assert(digits_value(s@, p as int, i + 1) == v * 10 + digit);
                lemma_digits_value_grows(s@, p as int, i + 1, d as int);
                let total = digits_value(s@, p as int, d as int);
                assert(total * m > usize::MAX) by (nonlinear_arith)
                    requires
                        total > usize::MAX,
                        m >= 1,
                ;
            }
            return None;
        }
        proof {
            assert(v * 10 + digit <= usize::MAX) by (nonlinear_arith)
                requires
                    v <= (usize::MAX - digit) / 10,
                    digit <= 9,
            ;
        }
        v = v * 10 + digit;
        i = i + 1;
    }
    if v > usize::MAX / m {
        proof {
            assert(v * m > usize::MAX) by (nonlinear_arith)
                requires
                    v > usize::MAX / m,
                    m >= 1,
            ;
        }
        return None;
    }
    proof {
        assert(v * m <= usize::MAX) by (nonlinear_arith)
            requires
                v <= usize::MAX / m,
                m >= 1,
        ;
    }
    Some((u + 1, v * m))
}

/// The checkbox at `p`: the completion flag and the position after the checkbox.
fn checkbox_at(s: &Vec<char>, p: usize) -> (r: (bool, usize))
    requires
        p <= s@.len(),
    ensures
        checkbox_spec(s@, p as int) == (r.0, r.1 as int),
        p <= r.1 <= s@.len(),
{
    proof {
        reveal_strlit("[x] ");
        reveal_strlit("[ ] ");
        assert(s@.len() == s.len());
    }
    if starts_at(s, p, "[x] ") {
        (true, p + 4)
    } else if starts_at(s, p, "[ ] ") {
        (false, p + 4)
    } else {
        (false, p)
    }
}

/// One task at `level` from `p`, with its subtasks: the position after them and the task.
fn task_at(s: &Vec<char>, text: &str, p: usize, level: usize) -> (r: Option<(usize, Task)>)
    requires
        s@ == text@,
        p <= s@.len(),
    ensures
        match r {
            Some((m, t)) => task_spec(s@, p as int, level as nat) == Some(
                (m as int, task_model(t)),
            ) && p < m <= s@.len(),
            None => task_spec(s@, p as int, level as nat) is None,
        },
    decreases s@.len() - p, 0int,
{
    proof {
        reveal_strlit("* ");
    }
    if level > (s.len() - p) / 2 {
        return None;
    }
    let b = p + 2 * level;
    let mut k = p;
    while k < b
        invariant
            p <= k <= b,
            b == p + 2 * level,
            b <= s@.len(),
            forall|j: int| p <= j < k ==> s@[j] == ' ',
        decreases b - k,
    {
        if s[k] != ' ' {
            return None;
        }
        k = k + 1;
    }
    assert(indent_ok(s@, p as int, level as nat));
    if !starts_at(s, b, "* ") {
        return None;
    }
    let (done, c) = checkbox_at(s, b + 2);
    let (est, t) = match estimate_at(s, c) {
        Some((e, v)) => (Some(v), e),
        None => (None, c),
    };
    let (q, n) = match find_line(s, t) {
        Some(line) => line,
        None => {
            return None;
        },
    };
    assert(task_head_spec(s@, p as int, level as nat) == Some(
        (n as int, s@.subrange(t as int, q as int), done, est),
    ));
    let (m, kids) = task_list_at(s, text, n, level + 1);
    let title = text_between(text, t, q);
    let task = Task { title, done, time_spent: 0, time_estimate: est, tasks: kids };
    assert(task_model(task).tasks =~= tasks_model(kids@));
    Some((m, task))
}

/// As many tasks at `level` as follow one another from `p`: the position after them and the
/// tasks in order.
fn task_list_at(s: &Vec<char>, text: &str, p: usize, level: usize) -> (r: (usize, Vec<Task>))
    requires
        s@ == text@,
        p <= s@.len(),
    ensures
        task_list_spec(s@, p as int, level as nat) == (r.0 as int, tasks_model(r.1@)),
        p <= r.0 <= s@.len(),
    decreases s@.len() - p, 1int,
{
    let mut acc: Vec<Task> = Vec::new();
    let mut q = p;
    loop
        invariant
            s@ == text@,
            p <= q <= s@.len(),
            task_list_spec(s@, p as int, level as nat) == (
                task_list_spec(s@, q as int, level as nat).0,
                tasks_model(acc@) + task_list_spec(s@, q as int, level as nat).1,
            ),
        decreases s@.len() - q,
    {
        match task_at(s, text, q, level) {
            Some((n, t)) => {
                let ghost rest = task_list_spec(s@, n as int, level as nat);
                assert(task_list_spec(s@, q as int, level as nat) == (
                    rest.0,
                    seq![task_model(t)] + rest.1,
                ));
                let ghost before = acc@;
                let ghost tm = task_model(t);
                acc.push(t);
                assert(tasks_model(acc@) =~= tasks_model(before) + seq![tm]);
                assert((tasks_model(before) + seq![tm]) + rest.1 =~= tasks_model(before) + (seq![
                    tm,
                ] + rest.1));
                q = n;
            },
            None => {
                assert(tasks_model(acc@) + Seq::<TaskModel>::empty() =~= tasks_model(acc@));
                return (q, acc);
            },
        }
    }
}

/// The description at `p`: the position of the line break before `## Tasks`.
fn description_at(s: &Vec<char>, p: usize) -> (r: Option<usize>)
    requires
        p <= s@.len(),
    ensures
        match r {
            Some(i) => description_spec(s@, p as int) == Some(
                (i as int, s@.subrange(p as int, i as int)),
            ) && p <= i < s@.len(),
            None => description_spec(s@, p as int) is None,
        },
{
    find_at(s, p, "\n## Tasks")
}

/// The `## Tasks` line at `p`: the position after it and the blank lines that follow.
fn tasks_head_at(s: &Vec<char>, p: usize) -> (r: Option<usize>)
    requires
        p <= s@.len(),
    ensures
        match r {
            Some(h) => tasks_head_spec(s@, p as int) == Some(h as int) && p <= h <= s@.len(),
            None => tasks_head_spec(s@, p as int) is None,
        },
{
    proof {
        reveal_strlit("## Tasks");
        assert(s@.len() == s.len());
    }
    let b = skip_blank(s, p);
    proof {
        lemma_blank_end_bounds(s@, p as int);
    }
    if !starts_at(s, b, "## Tasks") {
        return None;
    }
    match eol_at(s, b + 8) {
        Some(n) => {
            let h = skip_blank(s, n);
            proof {
                lemma_blank_end_bounds(s@, n as int);
            }
            Some(h)
        },
        None => None,
    }
}

/// The task section at `p`: the position after it and its top-level tasks.
fn tasks_at(s: &Vec<char>, text: &str, p: usize) -> (r: Option<(usize, Vec<Task>)>)
    requires
        s@ == text@,
        p <= s@.len(),
    ensures
        match r {
            Some((m, ts)) => tasks_spec(s@, p as int) == Some((m as int, tasks_model(ts@))) && p
                <= m <= s@.len(),
            None => tasks_spec(s@, p as int) is None,
        },
{
    match tasks_head_at(s, p) {
        Some(h) => {
            let (m, ts) = task_list_at(s, text, h, 0);
            Some((m, ts))
        },
        None => None,
    }
}

/// A delimiter line `---` at `p`: the position after it.
fn delimiter_at(s: &Vec<char>, p: usize) -> (r: Option<usize>)
    requires
        p <= s@.len(),
    ensures
        match r {
            Some(e) => delimiter_spec(s@, p as int) == Some(e as int) && p < e <= s@.len(),
            None => delimiter_spec(s@, p as int) is None,
        },
{
    proof {
        reveal_strlit("---");
        assert(s@.len() == s.len());
    }
    let a = match eol_at(s, p) {
        Some(n) => n,
        None => p,
    };
    if starts_at(s, a, "---") {
        eol_at(s, a + 3)
    } else {
        None
    }
}

/// The header block at `p`: where its content starts and stops, and the position after it.
fn header_at(s: &Vec<char>, p: usize) -> (r: Option<(usize, usize, usize)>)
    requires
        p <= s@.len(),
    ensures
        match r {
            Some((c, i, e)) => header_spec(s@, p as int) == Some((c as int, i as int, e as int))
                && p < c <= i < e <= s@.len(),
            None => header_spec(s@, p as int) is None,
        },
{
    let c = match delimiter_at(s, p) {
        Some(c) => c,
        None => {
            return None;
        },
    };
    let i = match find_at(s, c, "\n---") {
        Some(i) => i,
        None => {
            return None;
        },
    };
    match delimiter_at(s, i) {
        Some(e) => Some((c, i, e)),
        None => None,
    }
}

/// The metadata of a header block whose `status` field holds `value`, if it holds a string.
pub fn header_metadata(value: Option<&str>) -> (r: MetaData)
    ensures
        r.status == header_status(
            match value {
                Some(t) => Some(t@),
                None => None,
            },
        ),
        r.tags@.len() == 0,
{
    let status = match value {
        Some(token) => parse_status(token),
        None => None,
    };
    MetaData { status, tags: Vec::new() }
}

/// The header block at `p`, if one stands there: the position after it and its metadata.
fn front_matter_at(s: &Vec<char>, text: &str, p: usize) -> (r: Result<
    Option<(usize, MetaData)>,
    ParseFailure,
>)
    requires
        s@ == text@,
        p <= s@.len(),
    ensures
        match r {
            Ok(Some((e, meta))) => front_matter_spec(s@, p as int) == Ok::<
                Option<(int, Option<Status>)>,
                ParseFailure,
            >(Some((e as int, meta.status))) && p < e <= s@.len() && meta.tags@.len() == 0,
            Ok(None) => front_matter_spec(s@, p as int) == Ok::<
                Option<(int, Option<Status>)>,
                ParseFailure,
            >(None),
            Err(f) => front_matter_spec(s@, p as int) == Err::<
                Option<(int, Option<Status>)>,
                ParseFailure,
            >(f),
        },
{
    let (c, i, e) = match header_at(s, p) {
        Some(h) => h,
        None => {
            return Ok(None);
        },
    };
    let content = text.substring_char(c, i);
    if count_nesting_marks(content) > MAX_NESTING_MARKS {
        return Err(ParseFailure::MalformedHeader);
    }
    match yaml_field(content, "status") {
        Some(Some(token)) => Ok(Some((e, header_metadata(Some(token.as_str()))))),
        Some(None) => Ok(Some((e, header_metadata(None)))),
        None => Err(ParseFailure::MalformedHeader),
    }
}

/// A whole document read as a project: the position where reading stopped and the project.
fn project_at(s: &Vec<char>, text: &str) -> (r: Result<(usize, Project), ParseFailure>)
    requires
        s@ == text@,
    ensures
        match r {
            Ok((n, pr)) => project_spec(s@) == Ok::<(int, ProjectModel), ParseFailure>(
                (n as int, project_model(pr)),
            ) && n <= s@.len(),
            Err(f) => project_spec(s@) == Err::<(int, ProjectModel), ParseFailure>(f),
        },
{
    let (p1, status) = match front_matter_at(s, text, 0) {
        Err(f) => {
            return Err(f);
        },
        Ok(Some((n, meta))) => (n, meta.status),
        Ok(None) => (0, None),
    };
    let p2 = skip_blank(s, p1);
    proof {
        lemma_blank_end_bounds(s@, p1 as int);
    }
    let (p3, a, b) = match title_at(s, p2) {
        Some(t) => t,
        None => {
            return Err(ParseFailure::MissingTitle);
        },
    };
    let p4 = match description_at(s, p3) {
        Some(i) => i,
        None => {
            return Err(ParseFailure::MissingTaskMarker);
        },
    };
    let (p5, tasks) = match tasks_at(s, text, p4) {
        Some(r) => r,
        None => {
            return Err(ParseFailure::MissingTaskMarker);
        },
    };
    let status = match status {
        Some(st) => st,
        None => Status::Maybe,
    };
    let title = text_between(text, a, b);
    Ok((p5, Project { title, status: Some(status), tasks }))
}

// ---- Entry points ----

/// Reads a whole document as a project. Gives the text where reading stopped, and the
/// project; or the first failure met.
pub fn project<'a>(input: &'a str) -> (r: Result<(&'a str, Project), ParseFailure>)
    ensures
        match project_spec(input@) {
            Ok((n, m)) => r matches Ok((rest, pr)) && rest@ == input@.skip(n) && project_model(pr)
                == m,
            Err(f) => r matches Err(g) && g == f,
        },
{
    let s = chars_of(input);
    match project_at(&s, input) {
        Ok((n, pr)) => Ok((input.substring_char(n, s.len()), pr)),
        Err(f) => Err(f),
    }
}

/// Reads the header block at the start of `input`, if one stands there. Gives the text after
/// it and its metadata; `None` where no header block stands there; an error where its content
/// cannot be read.
pub fn front_matter<'a>(input: &'a str) -> (r: Result<Option<(&'a str, MetaData)>, ParseFailure>)
    ensures
        match front_matter_spec(input@, 0) {
            Ok(Some((n, st))) => r matches Ok(Some((rest, meta))) && rest@ == input@.skip(n)
                && meta.status == st && meta.tags@.len() == 0,
            Ok(None) => r matches Ok(None),
            Err(f) => r matches Err(g) && g == f,
        },
{
    let s = chars_of(input);
    match front_matter_at(&s, input, 0) {
        Ok(Some((e, meta))) => Ok(Some((input.substring_char(e, s.len()), meta))),
        Ok(None) => Ok(None),
        Err(f) => Err(f),
    }
}

/// Reads the description at the start of `input`: the text after it (from the line break
/// before `## Tasks`) and the description.
pub fn description<'a>(input: &'a str) -> (r: Result<(&'a str, String), ParseFailure>)
    ensures
        match description_spec(input@, 0) {
            Some((n, d)) => r matches Ok((rest, text)) && rest@ == input@.skip(n) && text@ == d,
            None => r == Err::<(&'a str, String), ParseFailure>(ParseFailure::MissingTaskMarker),
        },
{
    let s = chars_of(input);
    match description_at(&s, 0) {
        Some(i) => Ok((input.substring_char(i, s.len()), text_between(input, 0, i))),
        None => Err(ParseFailure::MissingTaskMarker),
    }
}

/// Reads the task section at the start of `input`: the text after it and its top-level tasks.
pub fn tasks<'a>(input: &'a str) -> (r: Result<(&'a str, Vec<Task>), ParseFailure>)
    ensures
        match tasks_spec(input@, 0) {
            Some((n, ts)) => r matches Ok((rest, v)) && rest@ == input@.skip(n) && tasks_model(v@)
                == ts,
            None => r matches Err(g) && g == ParseFailure::MissingTaskMarker,
        },
{
    let s = chars_of(input);
    match tasks_at(&s, input, 0) {
        Some((m, ts)) => Ok((input.substring_char(m, s.len()), ts)),
        None => Err(ParseFailure::MissingTaskMarker),
    }
}

/// Reads one task at `level` at the start of `input`, with its subtasks: the text after them
/// and the task.
pub fn task<'a>(level: usize, input: &'a str) -> (r: Option<(&'a str, Task)>)
    ensures
        match task_spec(input@, 0, level as nat) {
            Some((n, t)) => r matches Some((rest, v)) && rest@ == input@.skip(n) && task_model(v)
                == t,
            None => r is None,
        },
{
    let s = chars_of(input);
    match task_at(&s, input, 0, level) {
        Some((m, t)) => Some((input.substring_char(m, s.len()), t)),
        None => None,
    }
}

/// Turns a title found in `input` (next position `n`, text from `a` to `b`) into the rest of
/// the text and the title.
fn title_result<'a>(input: &'a str, len: usize, found: Option<(usize, usize, usize)>) -> (r: Result<
    (&'a str, &'a str),
    ParseFailure,
>)
    requires
        len == input@.len(),
        found matches Some((n, a, b)) ==> n <= len && a <= b <= len,
    ensures
        match found {
            Some((n, a, b)) => r matches Ok((rest, t)) && rest@ == input@.skip(n as int) && t@
                == input@.subrange(a as int, b as int),
            None => r == Err::<(&'a str, &'a str), ParseFailure>(ParseFailure::MissingTitle),
        },
{
    match found {
        Some((n, a, b)) => Ok((input.substring_char(n, len), input.substring_char(a, b))),
        None => Err(ParseFailure::MissingTitle),
    }
}

/// Reads a title in the `#` form at the start of `input`: the text after it and the title.
pub fn title_hash<'a>(input: &'a str) -> (r: Result<(&'a str, &'a str), ParseFailure>)
    ensures
        match title_hash_spec(input@, 0) {
            Some((n, t)) => r matches Ok((rest, v)) && rest@ == input@.skip(n) && v@ == t,
            None => r == Err::<(&'a str, &'a str), ParseFailure>(ParseFailure::MissingTitle),
        },
{
    let s = chars_of(input);
    title_result(input, s.len(), title_hash_at(&s, 0))
}

/// Reads an underlined title at the start of `input`: the text after it and the title.
pub fn title_underline<'a>(input: &'a str) -> (r: Result<(&'a str, &'a str), ParseFailure>)
    ensures
        match title_underline_spec(input@, 0) {
            Some((n, t)) => r matches Ok((rest, v)) && rest@ == input@.skip(n) && v@ == t,
            None => r == Err::<(&'a str, &'a str), ParseFailure>(ParseFailure::MissingTitle),
        },
{
    let s = chars_of(input);
    title_result(input, s.len(), title_underline_at(&s, 0))
}

/// Reads a title in either form at the start of `input`: the text after it and the title.
pub fn title<'a>(input: &'a str) -> (r: Result<(&'a str, &'a str), ParseFailure>)
    ensures
        match title_spec(input@, 0) {
            Some((n, t)) => r matches Ok((rest, v)) && rest@ == input@.skip(n) && v@ == t,
            None => r == Err::<(&'a str, &'a str), ParseFailure>(ParseFailure::MissingTitle),
        },
{
    let s = chars_of(input);
    title_result(input, s.len(), title_at(&s, 0))
}

} // verus!
