use function_call::diagnostic::{expression_docs_url, Note};
use function_call::labels::{find_closest, kind_str};
use function_call::kind::Kind;
use function_call::levenshtein::distance;
use function_call::text::{chars_of, concat2, concat3, decimal, join, signed_decimal, str_eq};

#[test]
fn strings_are_compared_by_their_characters() {
    assert!(str_eq("", ""));
    assert!(str_eq("one", "one"));
    assert!(!str_eq("one", "two"));
    assert!(!str_eq("one", "ones"));
    assert!(!str_eq("ones", "one"));
    assert!(str_eq("größe", "größe"));
    assert!(!str_eq("große", "größe"));
}

#[test]
fn characters_of_a_string() {
    assert_eq!(chars_of(""), Vec::<char>::new());
    assert_eq!(chars_of("aß→"), vec!['a', 'ß', '→']);
}

#[test]
fn numbers_in_decimal() {
    assert_eq!(decimal(0), "0");
    assert_eq!(decimal(7), "7");
    assert_eq!(decimal(10), "10");
    assert_eq!(decimal(1234567890), "1234567890");
    assert_eq!(decimal(u64::MAX), "18446744073709551615");
    assert_eq!(signed_decimal(0), "0");
    assert_eq!(signed_decimal(-1), "-1");
    assert_eq!(signed_decimal(42), "42");
    assert_eq!(signed_decimal(i64::MAX), "9223372036854775807");
    assert_eq!(signed_decimal(i64::MIN), "-9223372036854775808");
}

#[test]
fn joining() {
    let items = |list: &[&str]| list.iter().map(|s| s.to_string()).collect::<Vec<_>>();
    assert_eq!(join(&items(&[]), ", "), "");
    assert_eq!(join(&items(&["a"]), ", "), "a");
    assert_eq!(join(&items(&["a", "b", "c"]), ", "), "a, b, c");
    assert_eq!(join(&items(&["", ""]), "-"), "-");
    assert_eq!(concat2("ab", "cd"), "abcd");
    assert_eq!(concat3("a", "", "c"), "ac");
}

#[test]
fn edit_distances() {
    let d = |a: &str, b: &str| distance(&chars_of(a), &chars_of(b));
    assert_eq!(d("", ""), 0);
    assert_eq!(d("abc", ""), 3);
    assert_eq!(d("", "abcd"), 4);
    assert_eq!(d("test", "test"), 0);
    assert_eq!(d("test", "teest"), 1);
    assert_eq!(d("kitten", "sitting"), 3);
    assert_eq!(d("flaw", "lawn"), 2);
    assert_eq!(d("saturday", "sunday"), 3);
    assert_eq!(d("größe", "grosse"), 3);
    assert_eq!(d("sitting", "kitten"), 3);
}

#[test]
fn the_closest_name() {
    assert_eq!(find_closest(&vec![], "test"), None);
    assert_eq!(find_closest(&vec!["teest"], "test"), Some(0));
    assert_eq!(find_closest(&vec!["upcase", "test", "tests"], "tset"), Some(1));
    // Of two that are equally close the first is taken.
    assert_eq!(find_closest(&vec!["abcd", "tesa", "tesb"], "test"), Some(1));
    // There is no threshold: the closest may be far away.
    assert_eq!(find_closest(&vec!["a_very_different_name"], "x"), Some(0));
}

#[test]
fn kinds_in_a_sentence() {
    assert_eq!(kind_str(&Kind::any()), "any");
    assert_eq!(kind_str(&Kind::integer()), "the exact type integer");
    assert_eq!(kind_str(&Kind::bytes().or(Kind::null())), "one of string or null");
    assert_eq!(kind_str(&Kind::empty()), "one of never");
}

#[test]
fn solutions_and_addresses() {
    let basic = |line: &str| Note::Basic(line.to_string());
    assert_eq!(
        Note::solution("this", vec!["first".to_string(), "second".to_string()]),
        vec![basic("try: this"), basic(" "), basic("    first"), basic("    second"), basic(" ")]
    );
    assert_eq!(Note::solution("that", vec![]), vec![basic("try: that"), basic(" "), basic(" ")]);
    assert_eq!(expression_docs_url("#arguments"), "https://vrl.dev/expressions/#arguments");
    let note = Note::SeeDocs("a".to_string(), "b".to_string());
    assert_eq!(note.duplicate(), note);
}
