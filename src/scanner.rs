//! Scanning a whole text, line by line, into an ordered list of annotations.

use vstd::prelude::*;
use vstd::utf8::{encode_scalar, encode_utf8};

use crate::matcher::{
    block_rule, contains_fixme, find_block_comment, find_line_comment, has_fixme, line_rule,
    trim, trimmed,
};

verus! {

/// The two kinds of annotation.
#[derive(Clone, Copy, Debug, PartialEq, Eq, Structural)]
pub enum TodoKind {
    Todo,
    Fixme,
}

/// One annotation found in a text.
///
/// `line` is 1-based; `start..end` is the span of the matched message in
/// that line, as byte offsets into its UTF-8 text; `message` is that span
/// trimmed.
#[derive(Clone, Debug, PartialEq, Eq)]
pub struct TodoLocation {
    pub line: usize,
    pub kind: TodoKind,
    pub message: String,
    pub start: usize,
    pub end: usize,
}

/// An annotation together with the file that it was found in.
#[derive(Clone, Debug, PartialEq, Eq)]
pub struct TodoEntry {
    pub file_path: String,
    pub todo: TodoLocation,
}

/// The mathematical value of a [`TodoLocation`].
pub struct TodoView {
    pub line: nat,
    pub kind: TodoKind,
    pub message: Seq<char>,
    pub start: nat,
    pub end: nat,
}

impl View for TodoLocation {
    type V = TodoView;

    open spec fn view(&self) -> TodoView {
        TodoView {
            line: self.line as nat,
            kind: self.kind,
            message: self.message@,
            start: self.start as nat,
            end: self.end as nat,
        }
    }
}

pub open spec fn views(v: Seq<TodoLocation>) -> Seq<TodoView> {
    v.map_values(|t: TodoLocation| t@)
}

/// Number of characters before the first `\n` at or after `i`.
pub open spec fn line_len(s: Seq<char>, i: int) -> nat
    decreases s.len() - i,
{
    if 0 <= i < s.len() && s[i] != '\n' {
        1 + line_len(s, i + 1)
    } else {
        0
    }
}

/// A line that ended with `\n` loses a `\r` before it.
pub open spec fn strip_cr(l: Seq<char>) -> Seq<char> {
    if l.len() > 0 && l.last() == '\r' {
        l.drop_last()
    } else {
        l
    }
}

/// The lines of `s` from position `i` on, as `str::lines` yields them:
/// split at `\n`, a `\r` before the `\n` dropped, no empty line after a
/// final `\n`.
pub open spec fn lines_from(s: Seq<char>, i: int) -> Seq<Seq<char>>
    decreases s.len() - i,
{
    if i < 0 || i >= s.len() {
        Seq::empty()
    } else {
        let e = i + line_len(s, i);
        if e < s.len() {
            seq![strip_cr(s.subrange(i, e))] + lines_from(s, e + 1)
        } else {
            seq![s.subrange(i, e)]
        }
    }
}

pub open spec fn lines_of(s: Seq<char>) -> Seq<Seq<char>> {
    lines_from(s, 0)
}

/// Fixme when the whole line holds `fixme` in any case, else Todo.
pub open spec fn kind_of(line: Seq<char>) -> TodoKind {
    if has_fixme(line) {
        TodoKind::Fixme
    } else {
        TodoKind::Todo
    }
}

/// Number of bytes of the UTF-8 encoding of `c`.
pub open spec fn utf8_len(c: char) -> nat {
    let u = c as u32;
    if u < 0x80 {
        1
    } else if u < 0x800 {
        2
    } else if u < 0x10000 {
        3
    } else {
        4
    }
}

/// Byte offset of character `i` of `s` in its UTF-8 encoding: the sum of
/// `utf8_len(s[j])` for `j < i`.
pub open spec fn byte_offset(s: Seq<char>, i: int) -> nat
    decreases i,
{
    if i <= 0 {
        0
    } else {
        byte_offset(s, i - 1) + utf8_len(s[i - 1])
    }
}

/// The annotation for a match whose message spans characters
/// `span.0..span.1` of `line`; its columns are byte offsets.
pub open spec fn entry_for(line: Seq<char>, number: int, span: (int, int)) -> TodoView {
    TodoView {
        line: number as nat,
        kind: kind_of(line),
        message: trim(line.subrange(span.0, span.1)),
        start: byte_offset(line, span.0),
        end: byte_offset(line, span.1),
    }
}

proof fn byte_offset_monotone(s: Seq<char>, i: int, j: int)
    requires
        0 <= i <= j,
    ensures
        byte_offset(s, i) <= byte_offset(s, j),
    decreases j,
{
    if i < j {
        byte_offset_monotone(s, i, j - 1);
    }
}

proof fn byte_offset_subrange(s: Seq<char>, a: int, b: int, k: int)
    requires
        0 <= a <= b <= s.len(),
        0 <= k <= b - a,
    ensures
        byte_offset(s.subrange(a, b), k) + byte_offset(s, a) == byte_offset(s, a + k),
    decreases k,
{
    if k > 0 {
        byte_offset_subrange(s, a, b, k - 1);
    }
}

proof fn byte_offset_drop_first(s: Seq<char>, i: int)
    requires
        1 <= i <= s.len(),
    ensures
        byte_offset(s, i) == utf8_len(s[0]) + byte_offset(s.drop_first(), i - 1),
    decreases i,
{
    if i > 1 {
        byte_offset_drop_first(s, i - 1);
        assert(s.drop_first()[i - 2] == s[i - 1]);
    } else {
        assert(byte_offset(s, 0) == 0);
        assert(byte_offset(s.drop_first(), 0) == 0);
    }
}

/// The byte offsets never pass the length of the UTF-8 encoding.
proof fn byte_offset_within_encoding(s: Seq<char>)
    ensures
        byte_offset(s, s.len() as int) <= encode_utf8(s).len(),
    decreases s.len(),
{
    if s.len() > 0 {
        byte_offset_within_encoding(s.drop_first());
        byte_offset_drop_first(s, s.len() as int);
        let u = s[0] as u32;
        if u < 0x80 {
            assert(encode_scalar(u).len() == 1);
        } else if u < 0x800 {
            assert(encode_scalar(u).len() == 2);
        } else {
            assert(encode_scalar(u).len() >= 3);
        }
    }
}

/// What line number `number` yields: the line-comment match, then the
/// block-comment match.
pub open spec fn line_todos(line: Seq<char>, number: int) -> Seq<TodoView> {
    let a = match line_rule(line) {
        Some(m) => seq![entry_for(line, number, m)],
        None => Seq::empty(),
    };
    let b = match block_rule(line) {
        Some(m) => seq![entry_for(line, number, m)],
        None => Seq::empty(),
    };
    a + b
}

/// What a run of lines yields, numbered from 1.
pub open spec fn todos_in_lines(lines: Seq<Seq<char>>) -> Seq<TodoView>
    decreases lines.len(),
{
    if lines.len() == 0 {
        Seq::empty()
    } else {
        todos_in_lines(lines.drop_last()) + line_todos(lines.last(), lines.len() as int)
    }
}

/// What a scan of `text` yields.
pub open spec fn scan_model(text: Seq<char>) -> Seq<TodoView> {
    todos_in_lines(lines_of(text))
}

/// Finds the annotations in a text.
pub struct TodoScanner;

impl TodoScanner {
    pub fn new() -> Self {
        TodoScanner
    }

    /// All annotations of `text`, in line order; on one line, the
    /// line-comment match comes before the block-comment match.
    pub fn scan_todos(&self, text: &str) -> (r: Vec<TodoLocation>)
        ensures
            views(r@) == scan_model(text@),
            forall|k: int|
                0 <= k < r.len() ==> 1 <= #[trigger] r@[k].line <= lines_of(text@).len(),
    {
        let chars = chars_of(text);
        let bytes = text.as_bytes();
        proof {
            assert(bytes@.len() == bytes.len());
            byte_offset_within_encoding(text@);
        }
        let mut out: Vec<TodoLocation> = Vec::new();
        let mut i: usize = 0;
        let mut number: usize = 0;
        let ghost mut done: Seq<Seq<char>> = Seq::empty();
        while i < chars.len()
            invariant
                chars@ == text@,
                byte_offset(text@, text@.len() as int) <= usize::MAX,
                i <= chars.len(),
                number <= i,
                number == done.len(),
                lines_of(text@) == done + lines_from(text@, i as int),
                views(out@) == todos_in_lines(done),
            decreases chars.len() - i,
        {
            let e = line_end(&chars, i);
            let mut line: Vec<char> = Vec::new();
            for k in i..e
                invariant
                    i <= e <= chars.len(),
                    line@ == chars@.subrange(i as int, k as int),
            {
                line.push(chars[k]);
            }
            if e < chars.len() && line.len() > 0 && line[line.len() - 1] == '\r' {
                line.pop();
            }
            let ghost l = line@;
            proof {
                assert(l == text@.subrange(i as int, i + l.len()));
                byte_offset_subrange(text@, i as int, i + l.len(), l.len() as int);
                byte_offset_monotone(text@, i + l.len(), text@.len() as int);
            }
            assert(l == if e < chars.len() {
                strip_cr(text@.subrange(i as int, e as int))
            } else {
                text@.subrange(i as int, e as int)
            });
            number += 1;
            scan_line(&line, number, &mut out);
            proof {
                assert(done.push(l).drop_last() == done);
                assert(done.push(l) + lines_from(text@, (e + 1) as int) == done + (seq![l]
                    + lines_from(text@, (e + 1) as int)));
                done = done.push(l);
            }
            i = if e < chars.len() {
                e + 1
            } else {
                e
            };
        }
        assert(done + lines_from(text@, i as int) == done);
        proof {
            scan_lines_in_range(text@);
            assert(done == lines_of(text@));
            assert(views(out@) == scan_model(text@));
            assert forall|k: int| 0 <= k < out.len() implies 1 <= #[trigger] out@[k].line
                <= lines_of(text@).len() by {
                assert(views(out@)[k] == out@[k]@);
                assert(scan_model(text@)[k].line == out@[k].line);
            }
        }
        out
    }
}

proof fn todos_in_lines_numbered(lines: Seq<Seq<char>>)
    ensures
        forall|k: int|
            0 <= k < todos_in_lines(lines).len() ==> 1 <= #[trigger] todos_in_lines(lines)[k].line
                <= lines.len(),
    decreases lines.len(),
{
    if lines.len() > 0 {
        todos_in_lines_numbered(lines.drop_last());
    }
}

/// Every annotation that a scan yields names a line of the text: its number
/// lies between 1 and the number of lines.
pub proof fn scan_lines_in_range(text: Seq<char>)
    ensures
        forall|k: int|
            0 <= k < scan_model(text).len() ==> 1 <= #[trigger] scan_model(text)[k].line
                <= lines_of(text).len(),
{
    todos_in_lines_numbered(lines_of(text));
}

/// A scan is a function of the text alone: two scans of one text yield the
/// same annotations.
pub proof fn scan_is_deterministic(
    text: Seq<char>,
    first: Seq<TodoLocation>,
    second: Seq<TodoLocation>,
)
    requires
        views(first) == scan_model(text),
        views(second) == scan_model(text),
    ensures
        first.len() == second.len(),
        forall|k: int| 0 <= k < first.len() ==> #[trigger] first[k]@ == second[k]@,
{
    assert(first.len() == views(first).len());
    assert forall|k: int| 0 <= k < first.len() implies #[trigger] first[k]@ == second[k]@ by {
        assert(views(first)[k] == first[k]@);
        assert(views(second)[k] == second[k]@);
    }
}

impl TodoScanner {
    /// All annotations of the text of one file, each tagged with that file,
    /// in the order of [`TodoScanner::scan_todos`].
    pub fn scan_file(&self, file_path: &String, text: &str) -> (r: Vec<TodoEntry>)
        ensures
            r.len() == scan_model(text@).len(),
            forall|k: int|
                0 <= k < r.len() ==> (#[trigger] r@[k]).file_path@ == file_path@ && r@[k].todo@
                    == scan_model(text@)[k],
    {
        let todos = self.scan_todos(text);
        let mut r: Vec<TodoEntry> = Vec::new();
        for k in 0..todos.len()
            invariant
                views(todos@) == scan_model(text@),
                r.len() == k,
                forall|j: int|
                    0 <= j < k ==> (#[trigger] r@[j]).file_path@ == file_path@ && r@[j].todo@
                        == scan_model(text@)[j],
        {
            assert(views(todos@)[k as int] == todos@[k as int]@);
            let t = TodoLocation {
                line: todos[k].line,
                kind: todos[k].kind,
                message: todos[k].message.clone(),
                start: todos[k].start,
                end: todos[k].end,
            };
            r.push(TodoEntry { file_path: file_path.clone(), todo: t });
        }
        r
    }
}

/// The characters of `text`, in order.
fn chars_of(text: &str) -> (r: Vec<char>)
    ensures
        r@ == text@,
{
    let mut r: Vec<char> = Vec::new();
    for c in it: text.chars()
        invariant
            r@ == it.seq().take(it.index() as int),
    {
        r.push(c);
    }
    r
}

/// Position of the first `\n` at or after `i`, or the end.
fn line_end(s: &Vec<char>, i: usize) -> (r: usize)
    requires
        i <= s.len(),
    ensures
        r == i + line_len(s@, i as int),
        r <= s.len(),
        r < s.len() ==> s@[r as int] == '\n',
{
    let mut j = i;
    while j < s.len() && s[j] != '\n'
        invariant
            i <= j <= s.len(),
            line_len(s@, i as int) == (j - i) + line_len(s@, j as int),
        decreases s.len() - j,
    {
        j += 1;
    }
    j
}

/// Number of bytes of the UTF-8 encoding of `c`.
fn char_width(c: char) -> (r: usize)
    ensures
        r == utf8_len(c),
{
    let u = c as u32;
    if u < 0x80 {
        1
    } else if u < 0x800 {
        2
    } else if u < 0x10000 {
        3
    } else {
        4
    }
}

/// Byte offset of character `k` of `line`.
fn byte_column(line: &Vec<char>, k: usize) -> (r: usize)
    requires
        k <= line.len(),
        byte_offset(line@, line.len() as int) <= usize::MAX,
    ensures
        r == byte_offset(line@, k as int),
{
    let mut acc: usize = 0;
    for j in 0..k
        invariant
            k <= line.len(),
            byte_offset(line@, line.len() as int) <= usize::MAX,
            acc == byte_offset(line@, j as int),
    {
        proof {
            byte_offset_monotone(line@, j + 1, line.len() as int);
        }
        acc = acc + char_width(line[j]);
    }
    acc
}

fn entry(line: &Vec<char>, number: usize, span: (usize, usize)) -> (r: TodoLocation)
    requires
        span.0 <= span.1 <= line.len(),
        byte_offset(line@, line.len() as int) <= usize::MAX,
    ensures
        r@ == entry_for(line@, number as int, (span.0 as int, span.1 as int)),
{
    let kind = if contains_fixme(line) {
        TodoKind::Fixme
    } else {
        TodoKind::Todo
    };
    TodoLocation {
        line: number,
        kind,
        message: trimmed(line, span.0, span.1),
        start: byte_column(line, span.0),
        end: byte_column(line, span.1),
    }
}

/// Appends what one line yields.
fn scan_line(line: &Vec<char>, number: usize, out: &mut Vec<TodoLocation>)
    requires
        byte_offset(line@, line.len() as int) <= usize::MAX,
    ensures
        views(final(out)@) == views(old(out)@) + line_todos(line@, number as int),
{
    let ghost start = out@;
    let ghost number_i = number as int;
    if let Some(m) = find_line_comment(line) {
        let t = entry(line, number, m);
        out.push(t);
        assert(views(out@) =~= views(start).push(t@));
    }
    let ghost mid = out@;
    assert(views(mid) =~= views(start) + match line_rule(line@) {
        Some(m) => seq![entry_for(line@, number_i, m)],
        None => Seq::<TodoView>::empty(),
    });
    if let Some(m) = find_block_comment(line) {
        let t = entry(line, number, m);
        out.push(t);
        assert(views(out@) =~= views(mid).push(t@));
    }
    assert(views(out@) =~= views(start) + line_todos(line@, number_i));
}

} // verus!
