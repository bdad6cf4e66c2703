use liborchestra::text::{
    cat, decimal, join, lines, parse_i32, parse_u64, path_join, path_relative, remove_char, replace,
    signed_decimal, split, split_once, split_whitespace, starts_with, strip_prefix, strip_suffix,
    trim, trim_newlines,
};

fn strings(items: &[&str]) -> Vec<String> {
    items.iter().map(|s| s.to_string()).collect()
}

#[test]
fn splitting_and_joining() {
    assert_eq!(split("a;b;;c", ';'), strings(&["a", "b", "", "c"]));
    assert_eq!(split("", ';'), strings(&[""]));
    assert_eq!(split("a;", ';'), strings(&["a", ""]));
    assert_eq!(join(&split("a;b;;c", ';'), ";"), "a;b;;c");
    assert_eq!(join(&strings(&[]), " && "), "");
    assert_eq!(join(&strings(&["one"]), " && "), "one");
    assert_eq!(join(&strings(&["one", "two"]), " && "), "one && two");
    assert_eq!(split_once("A=b=c", '='), ("A".to_owned(), "b=c".to_owned()));
    assert_eq!(split_once("A", '='), ("A".to_owned(), "".to_owned()));
}

#[test]
fn lines_of_a_text() {
    assert_eq!(lines("a\nb\r\nc"), strings(&["a", "b", "c"]));
    assert_eq!(lines("a\n"), strings(&["a"]));
    assert_eq!(lines(""), strings(&[]));
    assert_eq!(lines("\n\nx"), strings(&["", "", "x"]));
    assert_eq!(lines("x\r"), strings(&["x\r"]));
}

#[test]
fn replacing() {
    assert_eq!(replace("aaa", "aa", "b"), "ba");
    assert_eq!(replace("ssh $NODENAME:22 $NODENAME", "$NODENAME", "n1"), "ssh n1:22 n1");
    assert_eq!(replace("ab", "", "-"), "-a-b-");
    assert_eq!(replace("ab", "abc", "-"), "ab");
    assert_eq!(remove_char("\"abc\"\n\"d\"", '"'), "abc\nd");
}

#[test]
fn trimming() {
    assert_eq!(trim(" \t a b \u{a0}\u{3000}"), "a b");
    assert_eq!(trim("   "), "");
    assert_eq!(trim_newlines("16\n\n"), "16");
    assert_eq!(trim_newlines("\n16"), "\n16");
    assert_eq!(split_whitespace("  ssh -A\tlocalhost \n"), strings(&["ssh", "-A", "localhost"]));
    assert_eq!(split_whitespace(" "), strings(&[]));
}

#[test]
fn prefixes_and_suffixes() {
    assert!(starts_with("RUNAWAY_EOF:\n", "RUNAWAY_EOF:"));
    assert!(!starts_with("RUN", "RUNAWAY"));
    assert_eq!(strip_prefix("ab", "a"), "b");
    assert_eq!(strip_prefix("ab", "b"), "ab");
    assert_eq!(strip_suffix("ab", "b"), "a");
    assert_eq!(strip_suffix("ab", "abc"), "ab");
    assert_eq!(cat("a", "\u{e9}"), "a\u{e9}");
}

#[test]
fn numbers() {
    assert_eq!(parse_u64("18446744073709551615"), Some(u64::MAX));
    assert_eq!(parse_u64("18446744073709551616"), None);
    assert_eq!(parse_u64("+7"), Some(7));
    assert_eq!(parse_u64("-7"), None);
    assert_eq!(parse_u64(""), None);
    assert_eq!(parse_u64("16\n"), None);
    assert_eq!(parse_i32("-2147483648"), Some(i32::MIN));
    assert_eq!(parse_i32("2147483648"), None);
    assert_eq!(parse_i32("-"), None);
    assert_eq!(parse_i32("-0"), Some(0));
    assert_eq!(decimal(0), "0");
    assert_eq!(decimal(u64::MAX), "18446744073709551615");
    assert_eq!(signed_decimal(-17), "-17");
    for n in [0, 9, 10, 99, 100, 911] {
        assert_eq!(parse_u64(&decimal(n)), Some(n));
    }
}

#[test]
fn paths() {
    assert_eq!(path_join("/a", "b"), "/a/b");
    assert_eq!(path_join("/a/", "b"), "/a/b");
    assert_eq!(path_join("/a", "/b"), "/b");
    assert_eq!(path_join("", "b"), "b");
    assert_eq!(path_join("/a", ""), "/a/");
    assert_eq!(path_relative("/a", "/a/b/c"), "b/c");
    assert_eq!(path_relative("/a/", "/a/b/c"), "b/c");
    assert_eq!(path_relative("/", "/a"), "a");
    for (base, rel) in [("/a", "b"), ("/a/", "b/c"), ("x", "y")] {
        assert_eq!(path_relative(base, &path_join(base, rel)), rel);
    }
}
