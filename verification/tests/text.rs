use lbxd::text::{
    before, chars_of, cut_at, equal, find, has, join, matches_at, replace, slice, split_on, trim,
};

fn c(s: &str) -> Vec<char> {
    s.chars().collect()
}

fn s(v: Vec<char>) -> String {
    v.into_iter().collect()
}

#[test]
fn characters_are_taken_one_by_one() {
    assert_eq!(chars_of("a\u{e9}\u{1f4cd}"), vec!['a', '\u{e9}', '\u{1f4cd}']);
    assert_eq!(chars_of(""), Vec::<char>::new());
}

#[test]
fn the_first_occurrence_is_found() {
    assert_eq!(find(&c("abcabc"), &c("bc")), Some(1));
    assert_eq!(find(&c("abcabc"), &c("abcabc")), Some(0));
    assert_eq!(find(&c("abcabc"), &c("cb")), None);
    assert_eq!(find(&c("ab"), &c("abc")), None);
    assert_eq!(find(&c("abc"), &c("")), Some(0));
    assert_eq!(find(&c(""), &c("")), Some(0));
    assert_eq!(find(&c("aab"), &c("ab")), Some(1));
    assert!(has(&c("hello"), &c("ll")));
    assert!(!has(&c("hello"), &c("lll")));
    assert!(matches_at(&c("hello"), &c("lo"), 3));
    assert!(!matches_at(&c("hello"), &c("lo"), 4));
    assert!(!matches_at(&c("hello"), &c("lo"), 9));
}

#[test]
fn occurrences_are_replaced_from_the_left() {
    assert_eq!(s(replace(&c("a,b,c"), &c(","), &c(", "))), "a, b, c");
    assert_eq!(s(replace(&c("aaa"), &c("aa"), &c("b"))), "ba");
    assert_eq!(s(replace(&c("abc"), &c("x"), &c("y"))), "abc");
    assert_eq!(s(replace(&c("abc"), &c(""), &c("y"))), "abc");
    assert_eq!(s(replace(&c("xx"), &c("x"), &c(""))), "");
    assert_eq!(s(replace(&c("abab"), &c("ab"), &c("abab"))), "abababab");
}

#[test]
fn texts_are_split_and_joined() {
    let parts = |t: &str, sep: &str| -> Vec<String> {
        split_on(&c(t), &c(sep)).into_iter().map(s).collect()
    };
    assert_eq!(parts("a, b, c", ", "), vec!["a", "b", "c"]);
    assert_eq!(parts("abc", ", "), vec!["abc"]);
    assert_eq!(parts("", ","), vec![""]);
    assert_eq!(parts(",a,", ","), vec!["", "a", ""]);
    assert_eq!(parts("aaa", "aa"), vec!["", "a"]);
    assert_eq!(parts("abc", ""), vec!["abc"]);
    assert_eq!(s(join(&vec![c("a"), c("b"), c("c")], &c(", "))), "a, b, c");
    assert_eq!(s(join(&vec![c("a")], &c(", "))), "a");
    assert_eq!(s(join(&vec![], &c(", "))), "");
    assert_eq!(s(join(&vec![c(""), c("")], &c("-"))), "-");
}

#[test]
fn texts_are_cut_at_the_first_occurrence() {
    assert_eq!(cut_at(&c("a=b=c"), &c("=")), Some((c("a"), c("b=c"))));
    assert_eq!(cut_at(&c("abc"), &c("=")), None);
    assert_eq!(s(before(&c("Jane\u{2019}s diary"), &c("\u{2019}s"))), "Jane");
    assert_eq!(s(before(&c("Jane"), &c("\u{2019}s"))), "Jane");
    assert_eq!(s(slice(&c("hello"), 1, 3)), "el");
    assert!(equal(&c("abc"), &c("abc")));
    assert!(!equal(&c("abc"), &c("abd")));
    assert!(!equal(&c("abc"), &c("ab")));
    assert!(equal(&c(""), &c("")));
}

#[test]
fn white_space_is_trimmed_at_both_ends() {
    assert_eq!(s(trim(&c("  a b \n"))), "a b");
    assert_eq!(s(trim(&c("\u{a0}\u{2009}x\u{3000}\u{85}"))), "x");
    assert_eq!(s(trim(&c("x"))), "x");
    assert_eq!(s(trim(&c(" \t\r\n"))), "");
    assert_eq!(s(trim(&c(""))), "");
    assert_eq!(s(trim(&c("\u{200b}x"))), "\u{200b}x");
    for ch in ['\u{9}', '\u{b}', '\u{c}', '\u{1680}', '\u{2000}', '\u{200a}', '\u{2028}', '\u{2029}', '\u{202f}', '\u{205f}'] {
        assert!(ch.is_whitespace());
        assert_eq!(s(trim(&vec![ch, 'x', ch])), "x");
    }
}
