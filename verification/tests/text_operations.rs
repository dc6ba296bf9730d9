use mc_launcher::text::{
    chars_of, contains, ends_with, is_whitespace, join_with, lines, replace, same_text, split, split_whitespace,
    starts_with, take_chars, trim, trim_matches,
};

fn strings(items: &[&str]) -> Vec<String> {
    items.iter().map(|s| s.to_string()).collect()
}

#[test]
fn chars_of_gives_the_characters_in_order() {
    assert_eq!(chars_of("a+b"), vec!['a', '+', 'b']);
    assert_eq!(chars_of(""), Vec::<char>::new());
    assert_eq!(chars_of("é1"), vec!['é', '1']);
}

#[test]
fn same_text_compares_all_characters() {
    assert!(same_text("allow", "allow"));
    assert!(!same_text("allow", "allo"));
    assert!(!same_text("allow", "allOw"));
    assert!(same_text("", ""));
}

#[test]
fn contains_finds_patterns_anywhere() {
    assert!(contains("net.fabricmc:fabric-loader", "fabric-loader"));
    assert!(contains("abc", ""));
    assert!(contains("", ""));
    assert!(!contains("abc", "abcd"));
    assert!(!contains("fabri", "fabric"));
    assert!(contains("aab", "ab"));
}

#[test]
fn contains_agrees_with_std() {
    let texts = ["", "a", "ab", "aab", "abab", "HTTP 400 no loader", "xyz"];
    let patterns = ["", "a", "b", "ab", "ba", "no loader", "zz"];
    for t in texts {
        for p in patterns {
            assert_eq!(contains(t, p), t.contains(p), "{:?} contains {:?}", t, p);
            assert_eq!(starts_with(t, p), t.starts_with(p), "{:?} starts with {:?}", t, p);
            assert_eq!(ends_with(t, p), t.ends_with(p), "{:?} ends with {:?}", t, p);
        }
    }
}

#[test]
fn split_keeps_empty_pieces() {
    assert_eq!(split("a:b:c", ':'), strings(&["a", "b", "c"]));
    assert_eq!(split("", ':'), strings(&[""]));
    assert_eq!(split("a:", ':'), strings(&["a", ""]));
    assert_eq!(split(":a", ':'), strings(&["", "a"]));
    assert_eq!(split("::", ':'), strings(&["", "", ""]));
    assert_eq!(split("abc", ':'), strings(&["abc"]));
}

#[test]
fn split_agrees_with_std() {
    for t in ["", ".", "1.20.1", "1..2", ".1", "1.", "no dots"] {
        let expected: Vec<String> = t.split('.').map(|s| s.to_string()).collect();
        assert_eq!(split(t, '.'), expected, "{:?}", t);
    }
}

#[test]
fn replace_rewrites_every_occurrence() {
    assert_eq!(replace("0.14.2+build.1", '+', "%2B"), "0.14.2%2Bbuild.1");
    assert_eq!(replace("net.fabricmc", '.', "/"), "net/fabricmc");
    assert_eq!(replace("++", '+', ""), "");
    assert_eq!(replace("abc", '+', "%2B"), "abc");
    assert_eq!(replace("", '+', "%2B"), "");
}

#[test]
fn join_puts_the_separator_between_neighbours() {
    assert_eq!(join_with(&strings(&["a", "b", "c"]), ":"), "a:b:c");
    assert_eq!(join_with(&strings(&["a"]), ":"), "a");
    assert_eq!(join_with(&strings(&[]), ":"), "");
    assert_eq!(join_with(&strings(&["", ""]), ";"), ";");
}

#[test]
fn take_chars_counts_characters_not_bytes() {
    assert_eq!(take_chars("héllo", 2), "hé");
    assert_eq!(take_chars("abc", 200), "abc");
    assert_eq!(take_chars("abc", 0), "");
    assert_eq!(take_chars("abc", 3), "abc");
}

#[test]
fn split_whitespace_gives_the_words() {
    assert_eq!(
        split_whitespace("-XX:+UseG1GC -Dsun.stdout.encoding=UTF-8"),
        strings(&["-XX:+UseG1GC", "-Dsun.stdout.encoding=UTF-8"])
    );
    assert_eq!(split_whitespace("  a \t b\n"), strings(&["a", "b"]));
    assert_eq!(split_whitespace(""), Vec::<String>::new());
    assert_eq!(split_whitespace("   "), Vec::<String>::new());
}

#[test]
fn split_whitespace_agrees_with_std() {
    for t in ["", " ", "a", " a", "a ", "a  b", "\u{a0}a\u{2003}b", "x\ty\r\nz"] {
        let expected: Vec<String> = t.split_whitespace().map(|s| s.to_string()).collect();
        assert_eq!(split_whitespace(t), expected, "{:?}", t);
    }
}

#[test]
fn trim_matches_strips_both_ends() {
    assert_eq!(trim_matches("\"17.0.1\"", '"'), "17.0.1");
    assert_eq!(trim_matches("\"\"x\"", '"'), "x");
    assert_eq!(trim_matches("\"\"", '"'), "");
    assert_eq!(trim_matches("a\"b", '"'), "a\"b");
    assert_eq!(trim_matches("", '"'), "");
}

#[test]
fn trim_strips_white_space_at_both_ends() {
    for t in ["", "  ", " a b ", "a", "\tC:\\java.exe\r", "\u{2003}x"] {
        assert_eq!(trim(t), t.trim(), "{:?}", t);
    }
}

#[test]
fn lines_agree_with_std() {
    for t in ["", "\n", "a", "a\n", "a\nb", "a\r\nb\r\n", "a\r", "a\n\nb", "\r\n", "a\rb\n"] {
        let expected: Vec<String> = t.lines().map(|s| s.to_string()).collect();
        assert_eq!(lines(t), expected, "{:?}", t);
    }
}

#[test]
fn trim_matches_agrees_with_std() {
    for t in ["", "\"", "\"\"", "\"a\"", "a\"", "\"a", "a\"b", "\"\"a\"b\"\"", "abc"] {
        assert_eq!(trim_matches(t, '"'), t.trim_matches('"'), "{:?}", t);
    }
}

#[test]
fn replace_agrees_with_std() {
    for t in ["", "+", "a+b", "++", "a+", "+a", "1.20.1", "no plus"] {
        assert_eq!(replace(t, '+', "%2B"), t.replace('+', "%2B"), "{:?}", t);
        assert_eq!(replace(t, '.', "/"), t.replace('.', "/"), "{:?}", t);
    }
}

#[test]
fn white_space_is_what_std_takes_for_it() {
    let mut count = 0;
    for n in 0u32..=0x10FFFF {
        if let Some(c) = char::from_u32(n) {
            assert_eq!(is_whitespace(c), c.is_whitespace(), "U+{:04X}", n);
            if is_whitespace(c) {
                count += 1;
            }
        }
    }
    assert_eq!(count, 25);
    assert!(is_whitespace(' '));
    assert!(is_whitespace('\u{3000}'));
    assert!(!is_whitespace('\u{200B}'));
    assert!(!is_whitespace('a'));
}
