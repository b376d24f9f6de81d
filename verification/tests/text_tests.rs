use strawberryd::text::{
    chars_of, decimal_text, eq_ignore_case, join_path, lines_of, parse_u16, splitn_space_of, str_eq, string_of,
    trim_str, words_of,
};

fn strings(v: Vec<Vec<char>>) -> Vec<String> {
    v.iter().map(|l| l.iter().collect()).collect()
}

#[test]
fn trim_removes_unicode_whitespace() {
    assert_eq!(trim_str("  \t hello world \u{3000}\n"), "hello world");
    assert_eq!(trim_str("   "), "");
    assert_eq!(trim_str("x"), "x");
}

#[test]
fn lines_follow_str_lines() {
    let text = "a\r\nb\n\nc\r";
    assert_eq!(strings(lines_of(&chars_of(text))), vec!["a", "b", "", "c\r"]);
    assert_eq!(strings(lines_of(&chars_of("one\n"))), vec!["one"]);
    assert!(lines_of(&chars_of("")).is_empty());
}

#[test]
fn words_follow_split_whitespace() {
    assert_eq!(strings(words_of(&chars_of("  alpha  beta\tgamma "))), vec!["alpha", "beta", "gamma"]);
    assert!(words_of(&chars_of(" \t ")).is_empty());
}

#[test]
fn splitn_keeps_the_rest_in_the_last_piece() {
    assert_eq!(strings(splitn_space_of(&chars_of("a b c d e f g"), 5)), vec!["a", "b", "c", "d", "e f g"]);
    assert_eq!(strings(splitn_space_of(&chars_of("pool  list"), 5)), vec!["pool", "", "list"]);
    assert_eq!(strings(splitn_space_of(&chars_of(""), 5)), vec![""]);
}

#[test]
fn parse_u16_matches_std() {
    for s in ["0", "3333", "+80", "65535", "65536", "", "+", "-1", "12a", "007", "99999999999"] {
        assert_eq!(parse_u16(&chars_of(s)), s.parse::<u16>().ok(), "input {:?}", s);
    }
}

#[test]
fn decimal_text_matches_display() {
    for n in [0u64, 7, 10, 3333, 65535, u64::MAX] {
        assert_eq!(decimal_text(n), n.to_string());
    }
}

#[test]
fn eq_ignore_case_is_ascii_only() {
    assert!(eq_ignore_case("MoNeRo", "monero"));
    assert!(!eq_ignore_case("monero", "moner"));
    assert!(!eq_ignore_case("É", "é"));
}

#[test]
fn path_join_follows_unix_rules() {
    assert_eq!(join_path("/var/lib/strawberry", "wallets"), "/var/lib/strawberry/wallets");
    assert_eq!(join_path("/var/lib/strawberry/", "wallets"), "/var/lib/strawberry/wallets");
    assert_eq!(join_path("/data", "/abs"), "/abs");
    assert_eq!(join_path("", "rel"), "rel");
}

#[test]
fn string_round_trip_and_equality() {
    assert_eq!(string_of(&chars_of("Straw\u{2014}berry")), "Straw\u{2014}berry");
    assert!(str_eq("abc", "abc"));
    assert!(!str_eq("abc", "abd"));
}
