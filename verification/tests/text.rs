use findip_lib::text::{chars_of, followed_by, join, replace, token_at};

#[test]
fn replace_leaves_a_text_without_the_token() {
    assert_eq!(replace("no token here", "{{TOKEN_IP_ADDRESS}}", "1.2.3.4"), "no token here");
    assert_eq!(replace("", "abc", "x"), "");
    assert_eq!(replace("ab", "abc", "x"), "ab");
}

#[test]
fn replace_takes_each_occurrence_from_the_left() {
    assert_eq!(replace("aaa", "aa", "b"), "ba");
    assert_eq!(replace("abcabc", "bc", ""), "aa");
    assert_eq!(replace("xx", "x", "xx"), "xxxx");
}

#[test]
fn replace_is_case_sensitive_and_literal() {
    assert_eq!(replace("{{token_ip_address}}", "{{TOKEN_IP_ADDRESS}}", "1.2.3.4"),
        "{{token_ip_address}}");
    assert_eq!(replace("a.c abc", "a.c", "x"), "x abc");
}

#[test]
fn replace_of_the_empty_token_goes_between_all_characters() {
    assert_eq!(replace("abc", "", "-"), "-a-b-c-");
    assert_eq!(replace("", "", "-"), "-");
}

#[test]
fn replace_does_what_std_does() {
    let cases = [
        ("héllo wörld", "ö", "oe"),
        ("aaaa", "aa", "a"),
        ("abcabcabc", "abc", "abcabc"),
        ("{{{{T}}}}", "{{T}}", "{{T}}"),
        ("日本語", "本", ""),
        ("日本語", "", "・"),
    ];
    for (text, token, value) in cases {
        assert_eq!(replace(text, token, value), text.replace(token, value));
    }
}

#[test]
fn a_token_is_found_where_it_stands() {
    let text = chars_of("a{{T}}b");
    let token = chars_of("{{T}}");
    assert_eq!(text.len(), 7);
    assert!(!token_at(&text, &token, 0));
    assert!(token_at(&text, &token, 1));
    assert!(!token_at(&text, &token, 2));
    assert!(!token_at(&text, &token, 7));
    assert!(token_at(&text, &chars_of(""), 7));
}

#[test]
fn join_puts_the_separator_between_neighbours() {
    let none: Vec<String> = Vec::new();
    assert_eq!(join(&none, "\n"), "");
    assert_eq!(join(&vec!["a".to_string()], "\n"), "a");
    assert_eq!(join(&vec!["a".to_string(), "b".to_string(), "".to_string()], ", "), "a, b, ");
}

#[test]
fn concat_writes_one_text_after_the_other() {
    assert_eq!(followed_by("2024-01-02-03", "-ipnotification.txt"), "2024-01-02-03-ipnotification.txt");
    assert_eq!(followed_by("", ""), "");
}
