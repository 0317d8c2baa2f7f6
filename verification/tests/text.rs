use exchange_logs::text::{
    chars_of, contains, decimal_chars, find_last, is_whitespace, join, parse_i32, split_lines,
    split_on, starts_with, string_of, strip_prefix_runs, trim,
};

fn chars(text: &str) -> Vec<char> {
    text.chars().collect()
}

fn strings(parts: Vec<Vec<char>>) -> Vec<String> {
    parts.into_iter().map(|part| part.into_iter().collect()).collect()
}

#[test]
fn chars_and_strings_convert_both_ways() {
    assert_eq!(chars_of("aП😀"), vec!['a', 'П', '😀']);
    assert_eq!(string_of(&['a', 'П', '😀']), "aП😀");
    assert_eq!(chars_of(""), Vec::<char>::new());
}

#[test]
fn split_keeps_empty_pieces() {
    assert_eq!(strings(split_on(&chars("a,,b,"), ',')), vec!["a", "", "b", ""]);
    assert_eq!(strings(split_on(&chars(""), ',')), vec![""]);
    assert_eq!(strings(split_on(&chars(","), ',')), vec!["", ""]);
    assert_eq!(strings(split_on(&chars("abc"), ',')), vec!["abc"]);
}

#[test]
fn split_agrees_with_the_standard_library() {
    for text in ["", "a", ",a", "a,", "a,b,c", ",,", "x,,y", "длинный,текст"] {
        let expected: Vec<String> = text.split(',').map(String::from).collect();
        assert_eq!(strings(split_on(&chars(text), ',')), expected, "splitting {:?}", text);
    }
}

#[test]
fn lines_agree_with_the_standard_library() {
    for text in [
        "", "a", "a\n", "a\nb", "a\r\nb\r\n", "\n", "\n\n", "a\r", "a\r\n", "\r\n", "a\n\nb",
        "a\rb\n", "a\r\r\nb", "last\r",
    ] {
        let expected: Vec<String> = text.lines().map(String::from).collect();
        assert_eq!(strings(split_lines(&chars(text))), expected, "lines of {:?}", text);
    }
}

#[test]
fn trim_agrees_with_the_standard_library() {
    for text in [
        "", " ", "a", " a ", "\t a b \r\n", "\u{a0}x\u{3000}", "\u{2003}y", "\u{200b}z",
        "\u{85}w\u{1680}", "\u{2028}\u{2029}\u{202f}\u{205f}", "\u{feff}k",
    ] {
        let trimmed: String = trim(&chars(text)).into_iter().collect();
        assert_eq!(trimmed, text.trim(), "trimming {:?}", text);
    }
}

#[test]
fn whitespace_agrees_with_the_standard_library() {
    let mut code: u32 = 0;
    while code < 0x3100 {
        if let Some(c) = char::from_u32(code) {
            assert_eq!(is_whitespace(c), c.is_whitespace(), "U+{:04X}", code);
        }
        code += 1;
    }
}

#[test]
fn prefixes_and_infixes() {
    assert!(starts_with(&chars("#Fields: a"), &chars("#Fields:")));
    assert!(!starts_with(&chars(" #Fields: a"), &chars("#Fields:")));
    assert!(!starts_with(&chars("#F"), &chars("#Fields:")));
    assert!(starts_with(&chars("abc"), &chars("")));
    assert!(contains(&chars("Proxying inbound session id"), &chars("inbound")));
    assert!(contains(&chars("abc"), &chars("")));
    assert!(contains(&chars("abc"), &chars("abc")));
    assert!(contains(&chars("abc"), &chars("c")));
    assert!(!contains(&chars("abc"), &chars("abcd")));
    assert!(!contains(&chars("abc"), &chars("ca")));
}

#[test]
fn every_leading_copy_of_the_prefix_is_stripped() {
    let stripped: String = strip_prefix_runs(&chars("#Fields:#Fields: a"), &chars("#Fields:"))
        .into_iter()
        .collect();
    assert_eq!(stripped, " a");
    let same: String = strip_prefix_runs(&chars("a#Fields:"), &chars("#Fields:"))
        .into_iter()
        .collect();
    assert_eq!(same, "a#Fields:");
    let untouched: String = strip_prefix_runs(&chars("abc"), &chars("")).into_iter().collect();
    assert_eq!(untouched, "abc");
}

#[test]
fn integers_agree_with_the_standard_library() {
    for text in [
        "0", "-0", "+0", "7", "+7", "-7", "007", "2147483647", "2147483648", "-2147483648",
        "-2147483649", "99999999999999999999999", "", "+", "-", "1 ", " 1", "1a", "--1", "+-1",
        "٣", "1.0", "0x10", "-00000000000000000000000000001",
    ] {
        assert_eq!(parse_i32(&chars(text)), text.parse::<i32>().ok(), "reading {:?}", text);
    }
}

#[test]
fn exact_integer_values() {
    assert_eq!(parse_i32(&chars("12345")), Some(12345));
    assert_eq!(parse_i32(&chars("-2147483648")), Some(i32::MIN));
    assert_eq!(parse_i32(&chars("2147483647")), Some(i32::MAX));
    assert_eq!(parse_i32(&chars("2147483648")), None);
}

#[test]
fn numbers_are_written_in_decimal() {
    for number in [0usize, 1, 9, 10, 11, 99, 100, 12345, 4294967295] {
        let written: String = decimal_chars(number).into_iter().collect();
        assert_eq!(written, number.to_string());
    }
}

#[test]
fn join_puts_the_separator_between_parts() {
    let parts = vec![chars("a"), chars(""), chars("bc")];
    let whole: String = join(&parts, ", ").into_iter().collect();
    assert_eq!(whole, "a, , bc");
    let none: String = join(&Vec::new(), ", ").into_iter().collect();
    assert_eq!(none, "");
    let one: String = join(&vec![chars("x")], ", ").into_iter().collect();
    assert_eq!(one, "x");
}

#[test]
fn find_last_finds_the_last_position() {
    let list = vec![chars("a"), chars("b"), chars("a"), chars("c")];
    assert_eq!(find_last(&list, &chars("a")), Some(2));
    assert_eq!(find_last(&list, &chars("c")), Some(3));
    assert_eq!(find_last(&list, &chars("d")), None);
    assert_eq!(find_last(&Vec::new(), &chars("a")), None);
}
