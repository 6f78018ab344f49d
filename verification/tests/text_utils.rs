use bitbucket_cli::text::{
    count_occurrences, find_str, join, lines, parse_usize, split_at_first, str_less, trim_char, words,
};

#[test]
fn lines_like_str_lines() {
    let cases = ["", "a", "a\n", "a\nb", "a\r\nb\r\n", "\n\n", "x\r", "a\n\nb"];
    for c in cases {
        let expected: Vec<String> = c.lines().map(|s| s.to_string()).collect();
        assert_eq!(lines(c), expected, "input {:?}", c);
    }
}

#[test]
fn words_like_split_whitespace() {
    let cases = ["", "   ", "code --wait", "  vim  -u  NONE ", "one", "a\tb\nc"];
    for c in cases {
        let expected: Vec<String> = c.split_whitespace().map(|s| s.to_string()).collect();
        assert_eq!(words(c), expected, "input {:?}", c);
    }
}

#[test]
fn parse_usize_like_std() {
    let cases = ["0", "42", "+7", "", "+", "-1", "1a", " 3", "18446744073709551615", "18446744073709551616", "007"];
    for c in cases {
        assert_eq!(parse_usize(c), c.parse::<usize>().ok(), "input {:?}", c);
    }
}

#[test]
fn find_str_first_occurrence() {
    assert_eq!(find_str("abcabc", "ca"), Some(2));
    assert_eq!(find_str("abc", "x"), None);
    assert_eq!(find_str("ab", "abc"), None);
    assert_eq!(find_str("héllo wörld", "wö"), Some(6));
}

#[test]
fn small_string_helpers() {
    assert_eq!(trim_char("\"\"quoted\"", '"'), "quoted");
    assert_eq!(trim_char("none", '"'), "none");
    assert_eq!(join(&vec!["a".to_string(), "b".to_string(), "c".to_string()], " AND "), "a AND b AND c");
    assert_eq!(join(&vec![], ","), "");
    assert_eq!(split_at_first("k=v=w", '='), Some(("k".to_string(), "v=w".to_string())));
    assert_eq!(split_at_first("kv", '='), None);
    assert_eq!(count_occurrences("a'b'c'", '\''), 3);
}

#[test]
fn str_less_follows_str_order() {
    let cases = ["", "a", "ab", "b", "B", "é", "z", "aa"];
    for x in cases.iter() {
        for y in cases.iter() {
            assert_eq!(str_less(x, y), x < y, "{} < {}", x, y);
        }
    }
}
