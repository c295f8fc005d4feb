//! The comment rules: which part of one line is an annotation's message.
//!
//! Lines are sequences of characters; all positions here are character
//! indices into the line. The scanner turns them into byte offsets.

use vstd::prelude::*;

verus! {

/// Unicode `White_Space`, the set that `char::is_whitespace` and `trim` use.
pub open spec fn is_ws(c: char) -> bool {
    let u = c as u32;
    (0x09 <= u && u <= 0x0D) || u == 0x20 || u == 0x85 || u == 0xA0 || u == 0x1680 || (0x2000
        <= u && u <= 0x200A) || u == 0x2028 || u == 0x2029 || u == 0x202F || u == 0x205F || u
        == 0x3000
}

/// `c` is the ASCII lower-case letter `l` in either case.
pub open spec fn ci_eq(c: char, l: char) -> bool {
    c == l || (c as u32) + 32 == (l as u32)
}

/// What may follow the keyword: `:`, `=` or one whitespace character.
pub open spec fn is_sep(c: char) -> bool {
    c == ':' || c == '=' || is_ws(c)
}

/// Number of whitespace characters in the run that starts at `i`.
pub open spec fn ws_run(line: Seq<char>, i: int) -> int
    decreases line.len() - i,
{
    if 0 <= i < line.len() && is_ws(line[i]) {
        1 + ws_run(line, i + 1)
    } else {
        0
    }
}

/// Number of characters other than `*` in the run that starts at `i`.
pub open spec fn non_star_run(line: Seq<char>, i: int) -> int
    decreases line.len() - i,
{
    if 0 <= i < line.len() && line[i] != '*' {
        1 + non_star_run(line, i + 1)
    } else {
        0
    }
}

/// Number of `*` characters in the run that starts at `i`.
pub open spec fn star_run(line: Seq<char>, i: int) -> int
    decreases line.len() - i,
{
    if 0 <= i < line.len() && line[i] == '*' {
        1 + star_run(line, i + 1)
    } else {
        0
    }
}

pub open spec fn todo_at(line: Seq<char>, i: int) -> bool {
    0 <= i && i + 4 <= line.len() && ci_eq(line[i], 't') && ci_eq(line[i + 1], 'o') && ci_eq(
        line[i + 2],
        'd',
    ) && ci_eq(line[i + 3], 'o')
}

pub open spec fn fixme_at(line: Seq<char>, i: int) -> bool {
    0 <= i && i + 5 <= line.len() && ci_eq(line[i], 'f') && ci_eq(line[i + 1], 'i') && ci_eq(
        line[i + 2],
        'x',
    ) && ci_eq(line[i + 3], 'm') && ci_eq(line[i + 4], 'e')
}

/// Length of the keyword (`TODO` or `FIXME`, any case) at `i`, or 0.
pub open spec fn keyword_len(line: Seq<char>, i: int) -> int {
    if todo_at(line, i) {
        4
    } else if fixme_at(line, i) {
        5
    } else {
        0
    }
}

/// Where the text after `keyword separator` starts, for a keyword at `j`,
/// or -1 when there is no keyword and separator there.
pub open spec fn after_keyword(line: Seq<char>, j: int) -> int {
    let k = keyword_len(line, j);
    if k > 0 && j + k < line.len() && is_sep(line[j + k]) {
        j + k + 1
    } else {
        -1
    }
}

/// The line-comment rule tried at `i`: `//`, whitespace, keyword, separator,
/// whitespace, then at least one character; the message runs to the end of
/// the line. The result is the message's span `(start, end)`.
pub open spec fn line_rule_at(line: Seq<char>, i: int) -> Option<(int, int)> {
    if 0 <= i && i + 2 <= line.len() && line[i] == '/' && line[i + 1] == '/' {
        let p = after_keyword(line, i + 2 + ws_run(line, i + 2));
        if 0 <= p < line.len() {
            let w = ws_run(line, p);
            Some((if p + w < line.len() { p + w } else { line.len() - 1 }, line.len() as int))
        } else {
            None
        }
    } else {
        None
    }
}

/// The block-comment rule tried at `i`: `/`, one or more `*`, whitespace,
/// keyword, separator, whitespace, then at least one character other than
/// `*`, closed by `*/` on the same line. The message stops before the `*/`.
pub open spec fn block_rule_at(line: Seq<char>, i: int) -> Option<(int, int)> {
    if 0 <= i && i + 2 <= line.len() && line[i] == '/' && line[i + 1] == '*' {
        let s = i + 1 + star_run(line, i + 1);
        let p = after_keyword(line, s + ws_run(line, s));
        if p >= 0 {
            let q = p + non_star_run(line, p);
            if q > p && q + 1 < line.len() && line[q + 1] == '/' {
                let w = ws_run(line, p);
                Some((if p + w < q { p + w } else { q - 1 }, q))
            } else {
                None
            }
        } else {
            None
        }
    } else {
        None
    }
}

/// The leftmost line-comment match at or after `i`.
pub open spec fn line_rule_from(line: Seq<char>, i: int) -> Option<(int, int)>
    decreases line.len() - i,
{
    if i < 0 || i >= line.len() {
        None
    } else if line_rule_at(line, i) is Some {
        line_rule_at(line, i)
    } else {
        line_rule_from(line, i + 1)
    }
}

/// The leftmost block-comment match at or after `i`.
pub open spec fn block_rule_from(line: Seq<char>, i: int) -> Option<(int, int)>
    decreases line.len() - i,
{
    if i < 0 || i >= line.len() {
        None
    } else if block_rule_at(line, i) is Some {
        block_rule_at(line, i)
    } else {
        block_rule_from(line, i + 1)
    }
}

/// The message span of the line-comment rule on a line, if it fires.
pub open spec fn line_rule(line: Seq<char>) -> Option<(int, int)> {
    line_rule_from(line, 0)
}

/// The message span of the block-comment rule on a line, if it fires.
pub open spec fn block_rule(line: Seq<char>) -> Option<(int, int)> {
    block_rule_from(line, 0)
}

/// `fixme`, in any case, occurs somewhere at or after `i`.
pub open spec fn has_fixme_from(line: Seq<char>, i: int) -> bool
    decreases line.len() - i,
{
    if i < 0 || i >= line.len() {
        false
    } else {
        fixme_at(line, i) || has_fixme_from(line, i + 1)
    }
}

pub open spec fn has_fixme(line: Seq<char>) -> bool {
    has_fixme_from(line, 0)
}

/// Number of whitespace characters that end `s.take(e)`.
pub open spec fn trailing_ws(s: Seq<char>, e: int) -> int
    decreases e,
{
    if 0 < e <= s.len() && is_ws(s[e - 1]) {
        1 + trailing_ws(s, e - 1)
    } else {
        0
    }
}

/// `s` without its leading and trailing whitespace, as `str::trim` gives it.
pub open spec fn trim(s: Seq<char>) -> Seq<char> {
    let a = ws_run(s, 0);
    if a >= s.len() {
        Seq::empty()
    } else {
        s.subrange(a, s.len() - trailing_ws(s, s.len() as int))
    }
}

fn is_whitespace(c: char) -> (r: bool)
    ensures
        r == is_ws(c),
{
    let u = c as u32;
    (0x09 <= u && u <= 0x0D) || u == 0x20 || u == 0x85 || u == 0xA0 || u == 0x1680 || (0x2000
        <= u && u <= 0x200A) || u == 0x2028 || u == 0x2029 || u == 0x202F || u == 0x205F || u
        == 0x3000
}

fn eq_ignore_case(c: char, l: char) -> (r: bool)
    requires
        'a' <= l <= 'z',
    ensures
        r == ci_eq(c, l),
{
    c == l || (c as u32) + 32 == (l as u32)
}


fn ws_count(line: &Vec<char>, i: usize) -> (r: usize)
    requires
        i <= line.len(),
    ensures
        r == ws_run(line@, i as int),
        i + r <= line.len(),
        i + r < line.len() ==> !is_ws(line@[i + r]),
{
    let mut j = i;
    while j < line.len() && is_whitespace(line[j])
        invariant
            i <= j <= line.len(),
            ws_run(line@, i as int) == (j - i) + ws_run(line@, j as int),
        decreases line.len() - j,
    {
        j += 1;
    }
    j - i
}

fn star_count(line: &Vec<char>, i: usize) -> (r: usize)
    requires
        i <= line.len(),
    ensures
        r == star_run(line@, i as int),
        i + r <= line.len(),
{
    let mut j = i;
    while j < line.len() && line[j] == '*'
        invariant
            i <= j <= line.len(),
            star_run(line@, i as int) == (j - i) + star_run(line@, j as int),
        decreases line.len() - j,
    {
        j += 1;
    }
    j - i
}

fn non_star_count(line: &Vec<char>, i: usize) -> (r: usize)
    requires
        i <= line.len(),
    ensures
        r == non_star_run(line@, i as int),
        i + r <= line.len(),
{
    let mut j = i;
    while j < line.len() && line[j] != '*'
        invariant
            i <= j <= line.len(),
            non_star_run(line@, i as int) == (j - i) + non_star_run(line@, j as int),
        decreases line.len() - j,
    {
        j += 1;
    }
    j - i
}

fn is_todo_at(line: &Vec<char>, i: usize) -> (r: bool)
    ensures
        r == todo_at(line@, i as int),
{
    i <= line.len() && line.len() - i >= 4 && eq_ignore_case(line[i], 't') && eq_ignore_case(
        line[i + 1],
        'o',
    ) && eq_ignore_case(line[i + 2], 'd') && eq_ignore_case(line[i + 3], 'o')
}

fn is_fixme_at(line: &Vec<char>, i: usize) -> (r: bool)
    ensures
        r == fixme_at(line@, i as int),
{
    i <= line.len() && line.len() - i >= 5 && eq_ignore_case(line[i], 'f') && eq_ignore_case(
        line[i + 1],
        'i',
    ) && eq_ignore_case(line[i + 2], 'x') && eq_ignore_case(line[i + 3], 'm') && eq_ignore_case(
        line[i + 4],
        'e',
    )
}

/// Position just past `keyword separator` at `j`, if they stand there.
fn keyword_end(line: &Vec<char>, j: usize) -> (r: Option<usize>)
    requires
        j <= line.len(),
    ensures
        after_keyword(line@, j as int) >= 0 ==> r == Some(after_keyword(line@, j as int) as usize),
        after_keyword(line@, j as int) < 0 ==> r is None,
        r matches Some(p) ==> p <= line.len(),
{
    let k: usize = if is_todo_at(line, j) {
        4
    } else if is_fixme_at(line, j) {
        5
    } else {
        0
    };
    if k > 0 && line.len() - j > k {
        let c = line[j + k];
        if c == ':' || c == '=' || is_whitespace(c) {
            return Some(j + k + 1);
        }
    }
    None
}

fn line_rule_try(line: &Vec<char>, i: usize) -> (r: Option<(usize, usize)>)
    requires
        i < line.len(),
    ensures
        r matches Some(m) ==> line_rule_at(line@, i as int) == Some((m.0 as int, m.1 as int)),
        r is None ==> line_rule_at(line@, i as int) is None,
        r matches Some(m) ==> m.0 < m.1 <= line.len(),
{
    if line.len() - i >= 2 && line[i] == '/' && line[i + 1] == '/' {
        let w0 = ws_count(line, i + 2);
        match keyword_end(line, i + 2 + w0) {
            Some(p) => {
                if p < line.len() {
                    let w = ws_count(line, p);
                    let start = if p + w < line.len() {
                        p + w
                    } else {
                        line.len() - 1
                    };
                    Some((start, line.len()))
                } else {
                    None
                }
            },
            None => None,
        }
    } else {
        None
    }
}

fn block_rule_try(line: &Vec<char>, i: usize) -> (r: Option<(usize, usize)>)
    requires
        i < line.len(),
    ensures
        r matches Some(m) ==> block_rule_at(line@, i as int) == Some((m.0 as int, m.1 as int)),
        r is None ==> block_rule_at(line@, i as int) is None,
        r matches Some(m) ==> m.0 < m.1 <= line.len(),
{
    if line.len() - i >= 2 && line[i] == '/' && line[i + 1] == '*' {
        let s = i + 1 + star_count(line, i + 1);
        let w0 = ws_count(line, s);
        match keyword_end(line, s + w0) {
            Some(p) => {
                let q = p + non_star_count(line, p);
                if q > p && line.len() - q > 1 && line[q + 1] == '/' {
                    let w = ws_count(line, p);
                    let start = if p + w < q {
                        p + w
                    } else {
                        q - 1
                    };
                    Some((start, q))
                } else {
                    None
                }
            },
            None => None,
        }
    } else {
        None
    }
}

/// The message span that the line-comment rule finds on `line`.
pub fn find_line_comment(line: &Vec<char>) -> (r: Option<(usize, usize)>)
    ensures
        r matches Some(m) ==> line_rule(line@) == Some((m.0 as int, m.1 as int)),
        r is None ==> line_rule(line@) is None,
        r matches Some(m) ==> m.0 < m.1 <= line.len(),
{
    let mut i: usize = 0;
    while i < line.len()
        invariant
            i <= line.len(),
            line_rule_from(line@, 0) == line_rule_from(line@, i as int),
        decreases line.len() - i,
    {
        let m = line_rule_try(line, i);
        if m.is_some() {
            return m;
        }
        i += 1;
    }
    None
}

/// The message span that the block-comment rule finds on `line`.
pub fn find_block_comment(line: &Vec<char>) -> (r: Option<(usize, usize)>)
    ensures
        r matches Some(m) ==> block_rule(line@) == Some((m.0 as int, m.1 as int)),
        r is None ==> block_rule(line@) is None,
        r matches Some(m) ==> m.0 < m.1 <= line.len(),
{
    let mut i: usize = 0;
    while i < line.len()
        invariant
            i <= line.len(),
            block_rule_from(line@, 0) == block_rule_from(line@, i as int),
        decreases line.len() - i,
    {
        let m = block_rule_try(line, i);
        if m.is_some() {
            return m;
        }
        i += 1;
    }
    None
}

/// Whether `fixme` occurs in `line`, in any case.
pub fn contains_fixme(line: &Vec<char>) -> (r: bool)
    ensures
        r == has_fixme(line@),
{
    let mut i: usize = 0;
    while i < line.len()
        invariant
            i <= line.len(),
            has_fixme_from(line@, 0) == has_fixme_from(line@, i as int),
        decreases line.len() - i,
    {
        if is_fixme_at(line, i) {
            return true;
        }
        i += 1;
    }
    false
}


/// Relies on `String::push`: appends one character.
#[verifier::external_body]
fn push_char(s: &mut String, c: char)
    ensures
        final(s)@ == old(s)@.push(c),
{
    s.push(c)
}

/// The characters `line[a..b]` without leading and trailing whitespace.
pub fn trimmed(line: &Vec<char>, a: usize, b: usize) -> (r: String)
    requires
        a <= b <= line.len(),
    ensures
        r@ == trim(line@.subrange(a as int, b as int)),
{
    let mut span: Vec<char> = Vec::new();
    for k in a..b
        invariant
            b <= line.len(),
            span@ == line@.subrange(a as int, k as int),
    {
        span.push(line[k]);
    }
    assert(span@ == line@.subrange(a as int, b as int));
    let lead = ws_count(&span, 0);
    let mut out = String::new();
    if lead < span.len() {
        let mut e = span.len();
        while is_whitespace(span[e - 1])
            invariant
                lead < e <= span.len(),
                !is_ws(span@[lead as int]),
                trailing_ws(span@, span.len() as int) == (span.len() - e) + trailing_ws(
                    span@,
                    e as int,
                ),
            decreases e,
        {
            e -= 1;
        }
        for k in lead..e
            invariant
                e <= span.len(),
                out@ == span@.subrange(lead as int, k as int),
        {
            push_char(&mut out, span[k]);
            assert(out@ == span@.subrange(lead as int, k + 1));
        }
    }
    out
}

} // verus!
