use aem_env_manager::environment::{java_program, link_refusal, node_program_candidates};
use aem_env_manager::json::JsonValue;
use aem_env_manager::number::{
    only_digits, parse_unsigned, power_of_ten, push_decimal, push_signed_decimal,
};
use aem_env_manager::text::{
    append, begins_with, compare_text, concat2, ends_with, first_piece, includes, join_strings,
    leading_line, leading_word, position, replace_char, same, search, search_from, slice,
    split_lines, split_on, split_words, stands_at, to_chars, to_string, trailing_word, trimmed,
    without_both, without_leading, without_trailing,
};

fn chars(s: &str) -> Vec<char> {
    s.chars().collect()
}

fn strings(v: Vec<Vec<char>>) -> Vec<String> {
    v.into_iter().map(|w| w.into_iter().collect()).collect()
}

#[test]
fn texts_convert_both_ways() {
    assert_eq!(to_chars("aé😀"), vec!['a', 'é', '😀']);
    assert_eq!(to_string(&chars("aé😀")), "aé😀");
    assert_eq!(to_string(&vec![]), "");
    assert_eq!(slice(&chars("hello"), 1, 3), chars("el"));
    let mut v = chars("ab");
    append(&mut v, &chars("cd"));
    assert_eq!(v, chars("abcd"));
    assert_eq!(concat2("ab", "cd"), "abcd");
    assert!(same(&chars("x"), &chars("x")));
    assert!(!same(&chars("x"), &chars("xy")));
    assert!(!same(&chars("xa"), &chars("xy")));
}

#[test]
fn searching_finds_the_first_occurrence() {
    let s = chars("abcabc");
    assert_eq!(search(&s, &chars("bc")), Some(1));
    assert_eq!(search(&s, &chars("")), Some(0));
    assert_eq!(search(&s, &chars("x")), None);
    assert_eq!(search(&s, &chars("abcabcd")), None);
    assert_eq!(search_from(&s, &chars("bc"), 2), Some(4));
    assert_eq!(search_from(&s, &chars("bc"), 5), None);
    assert_eq!(search_from(&s, &chars(""), 6), Some(6));
    assert_eq!(search_from(&s, &chars(""), 7), None);
    assert!(stands_at(&s, &chars("cab"), 2));
    assert!(!stands_at(&s, &chars("cab"), 3));
    assert!(!stands_at(&s, &chars("abc"), 4));
    assert!(includes(&s, "ca"));
    assert!(!includes(&s, "cc"));
    assert!(begins_with(&s, "abc"));
    assert!(!begins_with(&s, "bc"));
    assert!(ends_with(&s, "abc"));
    assert!(ends_with(&s, ""));
    assert!(!ends_with(&s, "ab"));
    assert_eq!(position(&s, 'c', 0), Some(2));
    assert_eq!(position(&s, 'c', 3), Some(5));
    assert_eq!(position(&s, 'z', 0), None);
}

#[test]
fn trimming_and_stripping() {
    assert_eq!(trimmed(&chars("  \t a b \u{a0}\u{3000}\r\n")), chars("a b"));
    assert_eq!(trimmed(&chars("   ")), chars(""));
    assert_eq!(trimmed(&chars("\u{200b}x")), chars("\u{200b}x"));
    assert_eq!(without_leading(&chars("vvv1v"), "v"), chars("1v"));
    assert_eq!(without_leading(&chars("abab"), "ab"), chars(""));
    assert_eq!(without_leading(&chars("abab"), ""), chars("abab"));
    assert_eq!(without_trailing(&chars("x.jar.jar"), ".jar"), chars("x"));
    assert_eq!(without_trailing(&chars("jar"), ".jar"), chars("jar"));
    assert_eq!(without_both(&chars("\"\"a\"b\"\""), "\""), chars("a\"b"));
}

#[test]
fn splitting() {
    assert_eq!(strings(split_on(&chars("a,b,,c"), ',')), vec!["a", "b", "", "c"]);
    assert_eq!(strings(split_on(&chars(""), ',')), vec![""]);
    assert_eq!(strings(split_on(&chars(","), ',')), vec!["", ""]);
    assert_eq!(first_piece(&chars("a.b"), '.'), chars("a"));
    assert_eq!(first_piece(&chars("ab"), '.'), chars("ab"));
    assert_eq!(strings(split_lines(&chars("a\r\nb\n\nc\r"))), vec!["a", "b", "", "c\r"]);
    assert_eq!(strings(split_lines(&chars("a\n"))), vec!["a"]);
    assert_eq!(strings(split_lines(&chars(""))), Vec::<String>::new());
    assert_eq!(strings(split_lines(&chars("\n"))), vec![""]);
    assert_eq!(strings(split_lines(&chars("a\r\r\n"))), vec!["a\r"]);
    assert_eq!(leading_line(&chars("x\ny")), Some(chars("x")));
    assert_eq!(leading_line(&chars("")), None);
    assert_eq!(strings(split_words(&chars("  a  bc\td \n"))), vec!["a", "bc", "d"]);
    assert_eq!(strings(split_words(&chars("   "))), Vec::<String>::new());
    assert_eq!(leading_word(&chars("  ab cd ")), Some(chars("ab")));
    assert_eq!(leading_word(&chars("  ")), None);
    assert_eq!(trailing_word(&chars("  ab cd ")), Some(chars("cd")));
    assert_eq!(trailing_word(&chars("")), None);
    assert_eq!(join_strings(&vec!["a".to_string(), "b".to_string()], ", "), "a, b");
    assert_eq!(join_strings(&vec![], ","), "");
    assert_eq!(replace_char("a'b'", '\'', "''"), "a''b''");
}

#[test]
fn text_order_is_by_characters() {
    assert_eq!(compare_text("a", "b"), -1);
    assert_eq!(compare_text("b", "a"), 1);
    assert_eq!(compare_text("a", "a"), 0);
    assert_eq!(compare_text("", "a"), -1);
    assert_eq!(compare_text("ab", "a"), 1);
    assert_eq!(compare_text("Z", "a"), -1);
}

#[test]
fn numbers_are_parsed_and_written() {
    assert_eq!(parse_unsigned(&chars("0"), 10), Some(0));
    assert_eq!(parse_unsigned(&chars("+42"), 100), Some(42));
    assert_eq!(parse_unsigned(&chars("007"), 7), Some(7));
    assert_eq!(parse_unsigned(&chars("8"), 7), None);
    assert_eq!(parse_unsigned(&chars(""), 7), None);
    assert_eq!(parse_unsigned(&chars("+"), 7), None);
    assert_eq!(parse_unsigned(&chars("-1"), 7), None);
    assert_eq!(parse_unsigned(&chars("1 "), 7), None);
    assert_eq!(parse_unsigned(&chars("++1"), 7), None);
    assert_eq!(parse_unsigned(&chars("18446744073709551615"), u64::MAX), Some(u64::MAX));
    assert_eq!(parse_unsigned(&chars("18446744073709551616"), u64::MAX), None);
    assert_eq!(parse_unsigned(&chars("99999999999999999999999"), u64::MAX), None);
    assert_eq!(parse_unsigned(&chars("٣"), 10), None);
    assert!(only_digits(&chars("0123")));
    assert!(only_digits(&chars("")));
    assert!(!only_digits(&chars("1.2")));
    assert_eq!(power_of_ten(0), 1);
    assert_eq!(power_of_ten(18), 1_000_000_000_000_000_000);
    let mut out = chars("n=");
    push_decimal(&mut out, 0);
    push_decimal(&mut out, 10);
    push_decimal(&mut out, u64::MAX);
    assert_eq!(to_string(&out), "n=01018446744073709551615");
    let mut out = Vec::new();
    push_signed_decimal(&mut out, -5);
    push_signed_decimal(&mut out, 7);
    push_signed_decimal(&mut out, i64::MIN);
    assert_eq!(to_string(&out), "-57-9223372036854775808");
}

#[test]
fn json_values_are_looked_into() {
    let value = JsonValue::Object(vec![
        ("a".to_string(), JsonValue::Number("1".to_string())),
        ("b".to_string(), JsonValue::Array(vec![JsonValue::Null, JsonValue::Bool(true)])),
        ("c".to_string(), JsonValue::String("text".to_string())),
    ]);
    assert!(matches!(value.get("a"), Some(JsonValue::Number(n)) if n == "1"));
    assert!(value.get("z").is_none());
    assert_eq!(value.get("b").unwrap().as_array().unwrap().len(), 2);
    assert_eq!(value.get("c").unwrap().as_str(), Some("text"));
    assert!(value.as_array().is_none());
    assert!(value.as_str().is_none());
    assert!(JsonValue::Null.get("a").is_none());
    assert!(JsonValue::Array(vec![]).get("a").is_none());
}

#[test]
fn links_are_refused_for_what_is_no_installation() {
    assert_eq!(link_refusal("Java", "/jdk", true, true), None);
    assert_eq!(link_refusal("Java", "/jdk", false, true), Some("Java installation not found: /jdk".to_string()));
    assert_eq!(
        link_refusal("Java", "/jdk", true, false),
        Some("Invalid Java installation (no java binary): /jdk".to_string())
    );
    assert_eq!(
        link_refusal("Node", "/n", true, false),
        Some("Invalid Node installation (no node binary): /n".to_string())
    );
    assert_eq!(java_program("/jdk"), "/jdk/bin/java");
    assert_eq!(node_program_candidates("/n"), ("/n/bin/node".to_string(), "/n/node".to_string()));
}
