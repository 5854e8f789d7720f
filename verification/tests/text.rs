use trace::text::{chars_of, position, push_chars, push_decimal};

fn names(list: &[&str]) -> Vec<String> {
    list.iter().map(|s| s.to_string()).collect()
}

#[test]
fn characters_of_a_string() {
    assert_eq!(chars_of(""), Vec::<char>::new());
    assert_eq!(chars_of("a{b}"), vec!['a', '{', 'b', '}']);
    assert_eq!(chars_of("h\u{e9}\u{4e16}\u{1f600}!"), vec!['h', '\u{e9}', '\u{4e16}', '\u{1f600}', '!']);
}

#[test]
fn numerals_are_decimal_without_leading_zeros() {
    for (n, numeral) in [
        (0, "0"),
        (7, "7"),
        (9, "9"),
        (10, "10"),
        (11, "11"),
        (99, "99"),
        (100, "100"),
        (1234567890, "1234567890"),
    ] {
        let mut out = String::from("n=");
        push_decimal(&mut out, n);
        assert_eq!(out, format!("n={}", numeral));
    }
    let mut out = String::new();
    push_decimal(&mut out, usize::MAX);
    assert_eq!(out, usize::MAX.to_string());
}

#[test]
fn part_of_the_characters_is_appended() {
    let chars = chars_of("abcdef");
    let mut out = String::from(">");
    push_chars(&mut out, &chars, 2, 5);
    assert_eq!(out, ">cde");
    push_chars(&mut out, &chars, 3, 3);
    assert_eq!(out, ">cde");
    push_chars(&mut out, &chars, 0, 6);
    assert_eq!(out, ">cdeabcdef");
}

#[test]
fn first_place_of_a_name() {
    let list = names(&["a", "b", "a", "c", "b"]);
    assert_eq!(position(&list, &"a".to_string()), Some(0));
    assert_eq!(position(&list, &"b".to_string()), Some(1));
    assert_eq!(position(&list, &"c".to_string()), Some(3));
    assert_eq!(position(&list, &"d".to_string()), None);
    assert_eq!(position(&list, &"".to_string()), None);
    assert_eq!(position(&vec![], &"a".to_string()), None);
}
