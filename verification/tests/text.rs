use alchemy_cleaner::text::{
    chars_of, dec_string, div_round_even_u128, eq_ignore_ascii_case_exec, join_exec, lowercase_chars, parse_i32,
    parse_u32, parse_u64, push_dec_i64, push_fixed, replace_exec, split_lines, split_words, str_contains,
    string_of, trim_exec,
};

fn cs(s: &str) -> Vec<char> {
    s.chars().collect()
}

fn st(v: &[char]) -> String {
    v.iter().collect()
}

#[test]
fn parse_u32_matches_str_parse() {
    for s in ["0", "42", "+7", "4294967295", "4294967296", "", "+", "-1", " 1", "1 ", "12a", "007"] {
        assert_eq!(parse_u32(&cs(s)), s.parse::<u32>().ok(), "input {s:?}");
    }
}

#[test]
fn parse_u64_and_i32_match_str_parse() {
    for s in ["18446744073709551615", "18446744073709551616", "+3", "x"] {
        assert_eq!(parse_u64(&cs(s)), s.parse::<u64>().ok(), "input {s:?}");
    }
    for s in ["-2147483648", "-2147483649", "2147483647", "2147483648", "-72", "+5", "-", "--1", "-0"] {
        assert_eq!(parse_i32(&cs(s)), s.parse::<i32>().ok(), "input {s:?}");
    }
}

#[test]
fn printed_numbers_read_back() {
    for n in [0u64, 9, 10, 1234567, u32::MAX as u64] {
        let s = dec_string(n);
        assert_eq!(s, n.to_string());
        assert_eq!(parse_u64(&cs(&s)), Some(n));
    }
}

#[test]
fn signed_numbers_print_like_display() {
    for n in [0i64, -1, -80, 72, i64::MIN, i64::MAX] {
        let mut s = String::new();
        push_dec_i64(&mut s, n);
        assert_eq!(s, n.to_string());
    }
}

#[test]
fn fixed_point_text() {
    let mut s = String::new();
    push_fixed(&mut s, 1234, 2);
    assert_eq!(s, "12.34");
    let mut s = String::new();
    push_fixed(&mut s, 5, 2);
    assert_eq!(s, "0.05");
    let mut s = String::new();
    push_fixed(&mut s, 905, 1);
    assert_eq!(s, "90.5");
    let mut s = String::new();
    push_fixed(&mut s, 77, 0);
    assert_eq!(s, "77");
}

#[test]
fn rounding_ties_go_to_even() {
    assert_eq!(div_round_even_u128(25, 10), 2);
    assert_eq!(div_round_even_u128(35, 10), 4);
    assert_eq!(div_round_even_u128(26, 10), 3);
    assert_eq!(div_round_even_u128(24, 10), 2);
    assert_eq!(div_round_even_u128(0, 7), 0);
}

#[test]
fn trimming_and_splitting() {
    assert_eq!(st(&trim_exec(&cs("  a b \t\n"))), "a b");
    assert_eq!(st(&trim_exec(&cs("   "))), "");
    let lines: Vec<String> = split_lines(&cs("a\nb\r\n\nc")).iter().map(|l| st(l)).collect();
    assert_eq!(lines, "a\nb\r\n\nc".lines().collect::<Vec<_>>());
    let words: Vec<String> = split_words(&cs("  x  yy\tz "), true).iter().map(|w| st(w)).collect();
    assert_eq!(words, vec!["x", "yy", "z"]);
}

#[test]
fn case_insensitive_names() {
    assert!(eq_ignore_ascii_case_exec("Memory", "memory"));
    assert!(eq_ignore_ascii_case_exec("SYSTEM-INFO", "system-info"));
    assert!(!eq_ignore_ascii_case_exec("cpu", "cpus"));
}

#[test]
fn lowercase_changes_the_text() {
    assert_eq!(st(&lowercase_chars(&cs("Crash & System Log"))), "crash & system log");
    assert_eq!(st(&lowercase_chars(&cs("ÄB"))), "äb");
}

#[test]
fn string_helpers() {
    assert_eq!(chars_of("héllo"), cs("héllo"));
    assert_eq!(string_of(&cs("xyz")), "xyz");
    assert!(str_contains("Kernel panics (30d)", "Kernel panics"));
    assert!(!str_contains("Kernel", "panics"));
    assert_eq!(join_exec(&vec!["a".to_string(), "b".to_string(), "c".to_string()], ", "), "a, b, c");
    assert_eq!(join_exec(&Vec::new(), ", "), "");
    assert_eq!(replace_exec(&cs("a\nb\nc"), &cs("\n"), &cs("\n    ")), "a\n    b\n    c");
}
