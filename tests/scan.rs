use search_todos::matcher::{find_block_comment, find_line_comment, trimmed};
use search_todos::scanner::{TodoKind, TodoLocation, TodoScanner};

fn scan(text: &str) -> Vec<TodoLocation> {
    TodoScanner::new().scan_todos(text)
}

fn chars(s: &str) -> Vec<char> {
    s.chars().collect()
}

#[test]
fn line_comment_todo() {
    let r = scan("// TODO: fix this");
    assert_eq!(r.len(), 1);
    assert_eq!(r[0].kind, TodoKind::Todo);
    assert_eq!(r[0].message, "fix this");
    assert_eq!(r[0].line, 1);
    assert_eq!((r[0].start, r[0].end), (9, 17));
}

#[test]
fn fixme_anywhere_in_line_wins() {
    let r = scan("// TODO: fixme later");
    assert_eq!(r.len(), 1);
    assert_eq!(r[0].kind, TodoKind::Fixme);
    assert_eq!(r[0].message, "fixme later");
    let r = scan("// TODO: check FiXmE");
    assert_eq!(r[0].kind, TodoKind::Fixme);
}

#[test]
fn block_comment_fixme() {
    let r = scan("/* FIXME: handle null */");
    assert_eq!(r.len(), 1);
    assert_eq!(r[0].kind, TodoKind::Fixme);
    assert_eq!(r[0].message, "handle null");
    assert_eq!((r[0].start, r[0].end), (10, 22));
}

#[test]
fn plain_comment_yields_nothing() {
    assert!(scan("// just a comment").is_empty());
}

#[test]
fn empty_text_yields_nothing() {
    assert!(scan("").is_empty());
    assert!(scan("\n\n").is_empty());
}

#[test]
fn keyword_is_case_insensitive() {
    let r = scan("// todo: lower case");
    assert_eq!(r.len(), 1);
    assert_eq!(r[0].kind, TodoKind::Todo);
    assert_eq!(r[0].message, "lower case");
    let r = scan("   //  FixMe  later ");
    assert_eq!(r.len(), 1);
    assert_eq!(r[0].kind, TodoKind::Fixme);
    assert_eq!(r[0].message, "later");
}

#[test]
fn separators() {
    assert_eq!(scan("//TODO=x")[0].message, "x");
    assert_eq!(scan("// TODO x")[0].message, "x");
    assert_eq!(scan("// TODO:x")[0].message, "x");
    assert!(scan("// TODOS: x").is_empty());
    assert!(scan("// TODO").is_empty());
    assert!(scan("// TODO ").is_empty());
    assert!(scan("// TODO-x").is_empty());
}

#[test]
fn whitespace_only_message() {
    let r = scan("// TODO:   ");
    assert_eq!(r.len(), 1);
    assert_eq!(r[0].message, "");
    assert_eq!((r[0].start, r[0].end), (10, 11));
}

#[test]
fn later_comment_marker_on_line() {
    let r = scan("let x = 1; // note // TODO: here");
    assert_eq!(r.len(), 1);
    assert_eq!(r[0].message, "here");
    let r = scan("///TODO: doc");
    assert_eq!(r.len(), 1);
    assert_eq!(r[0].message, "doc");
}

#[test]
fn both_rules_on_one_line() {
    let r = scan("// TODO: a /* FIXME: b */");
    assert_eq!(r.len(), 2);
    assert_eq!(r[0].message, "a /* FIXME: b */");
    assert_eq!(r[1].message, "b");
    assert_eq!(r[0].kind, TodoKind::Fixme);
    assert_eq!(r[1].kind, TodoKind::Fixme);
}

#[test]
fn block_needs_close_on_same_line() {
    assert!(scan("/* TODO: x").is_empty());
    assert!(scan("/* TODO: x * y */").is_empty());
    let r = scan("/* TODO: */");
    assert_eq!(r.len(), 1);
    assert_eq!(r[0].message, "");
    assert_eq!((r[0].start, r[0].end), (8, 9));
    assert!(scan("/* TODO:*/").is_empty());
    let r = scan("/** TODO tidy */");
    assert_eq!(r.len(), 1);
    assert_eq!(r[0].message, "tidy");
    assert_eq!(r[0].kind, TodoKind::Todo);
}

#[test]
fn unicode_whitespace() {
    let r = scan("//\u{3000}TODO:\u{a0}wide\u{2003}");
    assert_eq!(r.len(), 1);
    assert_eq!(r[0].message, "wide");
    assert_eq!((r[0].start, r[0].end), (12, 19));
}

#[test]
fn columns_are_byte_offsets() {
    let line = "é // TODO: x";
    let r = scan(line);
    assert_eq!(r.len(), 1);
    assert_eq!((r[0].start, r[0].end), (12, 13));
    assert_eq!(line[r[0].start..r[0].end].trim(), r[0].message);

    let line = "/* ünïcödé */ /* FIXME: naïve  */";
    let r = scan(line);
    assert_eq!(r.len(), 1);
    assert_eq!(r[0].message, "naïve");
    assert_eq!((r[0].start, r[0].end), (28, 36));
    assert_eq!(line[r[0].start..r[0].end].trim(), r[0].message);
}

#[test]
fn line_numbers_and_line_endings() {
    let text = "a\r\n// TODO: b\r\n\nc // FIXME: d";
    let r = scan(text);
    assert_eq!(r.len(), 2);
    assert_eq!(r[0].line, 2);
    assert_eq!(r[0].message, "b");
    assert_eq!(r[0].end, 10);
    assert_eq!(r[1].line, 4);
    assert_eq!(r[1].message, "d");
    assert_eq!(r[1].kind, TodoKind::Fixme);
}

#[test]
fn entries_name_lines_of_the_text() {
    let text = "// TODO: a\nx\n/* TODO: b */ // FIXME: c\n\n// TODO: d\n";
    let n = text.lines().count();
    let r = scan(text);
    assert_eq!(r.len(), 4);
    for t in &r {
        assert!(1 <= t.line && t.line <= n);
    }
    assert_eq!(r[1].message, "c");
    assert_eq!(r[2].message, "b");
}

#[test]
fn scanning_twice_gives_the_same() {
    let text = "// TODO: one\n/* FIXME: two */\n// todo three";
    assert_eq!(scan(text), scan(text));
}

#[test]
fn matcher_spans() {
    assert_eq!(find_line_comment(&chars("x // TODO: y")), Some((11, 12)));
    assert_eq!(find_line_comment(&chars("/* TODO: y */")), None);
    assert_eq!(find_block_comment(&chars("/* TODO: y */")), Some((9, 11)));
    assert_eq!(find_block_comment(&chars("// TODO: y")), None);
}

#[test]
fn trimming() {
    let l = chars("  a b \t");
    assert_eq!(trimmed(&l, 0, l.len()), "a b");
    assert_eq!(trimmed(&l, 1, 4), "a");
    assert_eq!(trimmed(&l, 0, 2), "");
}
