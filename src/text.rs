use vstd::prelude::*;

verus! {

/// `lit` stands at position `p` of `s`.
pub open spec fn has_at(s: Seq<char>, p: int, lit: Seq<char>) -> bool {
    0 <= p && p + lit.len() <= s.len() && s.subrange(p, p + lit.len()) == lit
}

/// The position after a line ending (`"\n"` or `"\r\n"`) that starts at `p`.
pub open spec fn eol_end(s: Seq<char>, p: int) -> Option<int> {
    if 0 <= p < s.len() && s[p] == '\n' {
        Some(p + 1)
    } else if 0 <= p && p + 1 < s.len() && s[p] == '\r' && s[p + 1] == '\n' {
        Some(p + 2)
    } else {
        None
    }
}

/// The position after all consecutive line endings from `p` on.
pub open spec fn blank_end(s: Seq<char>, p: int) -> int
    decreases s.len() - p,
{
    if 0 <= p < s.len() && s[p] == '\n' {
        blank_end(s, p + 1)
    } else if 0 <= p && p + 1 < s.len() && s[p] == '\r' && s[p + 1] == '\n' {
        blank_end(s, p + 2)
    } else {
        p
    }
}

/// The first position at or after `p` that holds `'\r'` or `'\n'`, or the end of `s`.
pub open spec fn line_stop(s: Seq<char>, p: int) -> int
    decreases s.len() - p,
{
    if p >= s.len() {
        p
    } else if s[p] == '\r' || s[p] == '\n' {
        p
    } else {
        line_stop(s, p + 1)
    }
}

/// The rest of the line from `p`, ended by a line ending: the position where its text
/// stops, and the position after the line ending.
pub open spec fn line_at(s: Seq<char>, p: int) -> Option<(int, int)> {
    match eol_end(s, line_stop(s, p)) {
        Some(n) => Some((line_stop(s, p), n)),
        None => None,
    }
}

/// The first position at or after `p` whose character is neither `a` nor `b`, or the end.
pub open spec fn run_end(s: Seq<char>, p: int, a: char, b: char) -> int
    decreases s.len() - p,
{
    if p >= s.len() {
        p
    } else if s[p] == a || s[p] == b {
        run_end(s, p + 1, a, b)
    } else {
        p
    }
}

pub open spec fn is_digit(c: char) -> bool {
    '0' <= c <= '9'
}

/// The first position at or after `p` that holds no ASCII digit, or the end.
pub open spec fn digits_end(s: Seq<char>, p: int) -> int
    decreases s.len() - p,
{
    if p >= s.len() {
        p
    } else if is_digit(s[p]) {
        digits_end(s, p + 1)
    } else {
        p
    }
}

/// The number that the decimal digits in `s[p..e]` write.
pub open spec fn digits_value(s: Seq<char>, p: int, e: int) -> nat
    decreases e - p,
{
    if e <= p {
        0
    } else {
        digits_value(s, p, e - 1) * 10 + (s[e - 1] as nat - '0' as nat) as nat
    }
}

pub proof fn lemma_line_stop_bounds(s: Seq<char>, p: int)
    requires
        0 <= p <= s.len(),
    ensures
        p <= line_stop(s, p) <= s.len(),
        forall|k: int| p <= k < line_stop(s, p) ==> s[k] != '\r' && s[k] != '\n',
    decreases s.len() - p,
{
    if p < s.len() && s[p] != '\r' && s[p] != '\n' {
        lemma_line_stop_bounds(s, p + 1);
    }
}

pub proof fn lemma_run_end_bounds(s: Seq<char>, p: int, a: char, b: char)
    requires
        0 <= p <= s.len(),
    ensures
        p <= run_end(s, p, a, b) <= s.len(),
        forall|k: int| p <= k < run_end(s, p, a, b) ==> s[k] == a || s[k] == b,
    decreases s.len() - p,
{
    if p < s.len() && (s[p] == a || s[p] == b) {
        lemma_run_end_bounds(s, p + 1, a, b);
    }
}

pub proof fn lemma_digits_end_bounds(s: Seq<char>, p: int)
    requires
        0 <= p <= s.len(),
    ensures
        p <= digits_end(s, p) <= s.len(),
        forall|k: int| p <= k < digits_end(s, p) ==> is_digit(#[trigger] s[k]),
    decreases s.len() - p,
{
    if p < s.len() && is_digit(s[p]) {
        lemma_digits_end_bounds(s, p + 1);
    }
}

pub proof fn lemma_blank_end_bounds(s: Seq<char>, p: int)
    requires
        0 <= p <= s.len(),
    ensures
        p <= blank_end(s, p) <= s.len(),
    decreases s.len() - p,
{
    if p < s.len() && s[p] == '\n' {
        lemma_blank_end_bounds(s, p + 1);
    } else if p + 1 < s.len() && s[p] == '\r' && s[p + 1] == '\n' {
        lemma_blank_end_bounds(s, p + 2);
    }
}

/// Digit values never shrink as more digits are read.
pub proof fn lemma_digits_value_grows(s: Seq<char>, p: int, e: int, f: int)
    requires
        p <= e <= f,
        forall|k: int| p <= k < f ==> is_digit(#[trigger] s[k]),
    ensures
        digits_value(s, p, e) <= digits_value(s, p, f),
    decreases f - e,
{
    if e < f {
        lemma_digits_value_grows(s, p, e, f - 1);
        assert(is_digit(s[f - 1]));
    }
}

/// The characters of `text`, one per element.
pub fn chars_of(text: &str) -> (r: Vec<char>)
    ensures
        r@ == text@,
{
    let n = text.unicode_len();
    let mut r: Vec<char> = Vec::new();
    let mut i: usize = 0;
    while i < n
        invariant
            n == text@.len(),
            i <= n,
            r@ == text@.subrange(0, i as int),
        decreases n - i,
    {
        r.push(text.get_char(i));
        i = i + 1;
        assert(r@ =~= text@.subrange(0, i as int));
    }
    assert(r@ =~= text@);
    r
}

/// The characters of `text` from position `from` up to `to`, as a string.
pub fn text_between(text: &str, from: usize, to: usize) -> (r: String)
    requires
        from <= to <= text@.len(),
    ensures
        r@ == text@.subrange(from as int, to as int),
{
    String::from_str(text.substring_char(from, to))
}

/// Whether `lit` stands at position `p` of `s`.
pub fn starts_at(s: &Vec<char>, p: usize, lit: &str) -> (r: bool)
    ensures
        r == has_at(s@, p as int, lit@),
{
    let n = lit.unicode_len();
    if p > s.len() || n > s.len() - p {
        return false;
    }
    let mut i: usize = 0;
    while i < n
        invariant
            n == lit@.len(),
            p + n <= s@.len(),
            p + n <= usize::MAX,
            i <= n,
            forall|k: int| 0 <= k < i ==> s@[p + k] == lit@[k],
        decreases n - i,
    {
        if s[p + i] != lit.get_char(i) {
            assert(s@.subrange(p as int, p + n)[i as int] != lit@[i as int]);
            return false;
        }
        i = i + 1;
    }
    assert(s@.subrange(p as int, p + n) =~= lit@);
    true
}

/// The position after a line ending at `p`, if one stands there.
pub fn eol_at(s: &Vec<char>, p: usize) -> (r: Option<usize>)
    ensures
        match r {
            Some(n) => eol_end(s@, p as int) == Some(n as int) && p < n <= s@.len(),
            None => eol_end(s@, p as int) is None,
        },
{
    if p < s.len() && s[p] == '\n' {
        Some(p + 1)
    } else if p < s.len() && s.len() - p > 1 && s[p] == '\r' && s[p + 1] == '\n' {
        Some(p + 2)
    } else {
        None
    }
}

/// Skips all consecutive line endings from `p` on.
pub fn skip_blank(s: &Vec<char>, p: usize) -> (r: usize)
    requires
        p <= s@.len(),
    ensures
        r == blank_end(s@, p as int),
{
    let mut q = p;
    while q < s.len()
        invariant
            p <= q <= s@.len(),
            blank_end(s@, q as int) == blank_end(s@, p as int),
        decreases s@.len() - q,
    {
        match eol_at(s, q) {
            Some(n) => {
                q = n;
            },
            None => {
                return q;
            },
        }
    }
    q
}

/// The first position at or after `p` that holds `'\r'` or `'\n'`, or the end.
pub fn find_line_stop(s: &Vec<char>, p: usize) -> (r: usize)
    requires
        p <= s@.len(),
    ensures
        r == line_stop(s@, p as int),
{
    let mut q = p;
    while q < s.len() && s[q] != '\r' && s[q] != '\n'
        invariant
            p <= q <= s@.len(),
            line_stop(s@, q as int) == line_stop(s@, p as int),
        decreases s@.len() - q,
    {
        q = q + 1;
    }
    q
}

/// The rest of the line from `p`: where its text stops and where the next line starts.
pub fn find_line(s: &Vec<char>, p: usize) -> (r: Option<(usize, usize)>)
    requires
        p <= s@.len(),
    ensures
        match r {
            Some((q, n)) => line_at(s@, p as int) == Some((q as int, n as int)) && p <= q < n
                <= s@.len(),
            None => line_at(s@, p as int) is None,
        },
{
    let q = find_line_stop(s, p);
    proof {
        lemma_line_stop_bounds(s@, p as int);
    }
    match eol_at(s, q) {
        Some(n) => Some((q, n)),
        None => None,
    }
}

/// The first position at or after `p` whose character is neither `a` nor `b`.
pub fn skip_run(s: &Vec<char>, p: usize, a: char, b: char) -> (r: usize)
    requires
        p <= s@.len(),
    ensures
        r == run_end(s@, p as int, a, b),
{
    let mut q = p;
    while q < s.len() && (s[q] == a || s[q] == b)
        invariant
            p <= q <= s@.len(),
            run_end(s@, q as int, a, b) == run_end(s@, p as int, a, b),
        decreases s@.len() - q,
    {
        q = q + 1;
    }
    q
}

/// The first position at or after `p` that holds no ASCII digit.
pub fn skip_digits(s: &Vec<char>, p: usize) -> (r: usize)
    requires
        p <= s@.len(),
    ensures
        r == digits_end(s@, p as int),
{
    let mut q = p;
    while q < s.len() && '0' <= s[q] && s[q] <= '9'
        invariant
            p <= q <= s@.len(),
            digits_end(s@, q as int) == digits_end(s@, p as int),
        decreases s@.len() - q,
    {
        q = q + 1;
    }
    q
}

} // verus!
