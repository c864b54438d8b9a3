use web::text::{
    chars_of, find, is_space, push_chars, push_decimal, same, spells, spells_ignoring_case,
    split_on, string_of, strip_of, to_lower, trim_end_of, trim_of, trim_start_of,
};

fn chars(s: &str) -> Vec<char> {
    s.chars().collect()
}

#[test]
fn chars_and_strings_convert_both_ways() {
    assert_eq!(chars_of("a\u{e9}\u{4f60}"), vec!['a', '\u{e9}', '\u{4f60}']);
    assert_eq!(chars_of(""), Vec::<char>::new());
    assert_eq!(string_of(&['h', 'i', '\u{e9}']), "hi\u{e9}");
    assert_eq!(string_of(&[]), "");
    let mut out = "ab".to_string();
    push_chars(&mut out, &['c', 'd']);
    assert_eq!(out, "abcd");
}

#[test]
fn white_space_is_what_the_standard_library_says() {
    let mut c: u32 = 0;
    while c <= 0x10ffff {
        if let Some(ch) = char::from_u32(c) {
            assert_eq!(is_space(ch), ch.is_whitespace());
        }
        c += 1;
    }
}

#[test]
fn lower_case_is_ascii_lower_case() {
    let mut c: u32 = 0;
    while c <= 0x10ffff {
        if let Some(ch) = char::from_u32(c) {
            assert_eq!(to_lower(ch), ch.to_ascii_lowercase());
        }
        c += 1;
    }
}

#[test]
fn find_gives_first_position_or_length() {
    assert_eq!(find(&chars("a:b:c"), ':'), 1);
    assert_eq!(find(&chars(":"), ':'), 0);
    assert_eq!(find(&chars("abc"), ':'), 3);
    assert_eq!(find(&chars(""), ':'), 0);
}

#[test]
fn split_cuts_at_every_separator() {
    let parts = split_on(&chars("a/bc//d"), '/');
    assert_eq!(parts, vec![chars("a"), chars("bc"), chars(""), chars("d")]);
    assert_eq!(split_on(&chars(""), '/'), vec![chars("")]);
    assert_eq!(split_on(&chars("/"), '/'), vec![chars(""), chars("")]);
    assert_eq!(split_on(&chars("abc"), '/'), vec![chars("abc")]);
    assert_eq!(split_on(&chars("a/"), '/'), vec![chars("a"), chars("")]);
}

#[test]
fn split_agrees_with_the_standard_library() {
    for text in ["GET /x HTTP/1.1", "  a  b ", "", " ", "one", "a b c d e"] {
        let expected: Vec<Vec<char>> = text.split(' ').map(chars).collect();
        assert_eq!(split_on(&chars(text), ' '), expected);
    }
}

#[test]
fn trim_takes_white_space_off_the_ends() {
    assert_eq!(trim_of(&chars(" \t a b \r\n")), &chars("a b")[..]);
    assert_eq!(trim_of(&chars("\u{3000}x\u{a0}")), &chars("x")[..]);
    assert_eq!(trim_of(&chars("  ")), &chars("")[..]);
    assert_eq!(trim_of(&chars("")), &chars("")[..]);
    assert_eq!(trim_end_of(&chars(" a \r\n")), &chars(" a")[..]);
    assert_eq!(trim_start_of(&chars(" a \r\n")), &chars("a \r\n")[..]);
}

#[test]
fn strip_takes_a_character_off_the_ends() {
    assert_eq!(strip_of(&chars("//a/b//"), '/'), &chars("a/b")[..]);
    assert_eq!(strip_of(&chars("///"), '/'), &chars("")[..]);
    assert_eq!(strip_of(&chars("a"), '/'), &chars("a")[..]);
    assert_eq!(strip_of(&chars(""), '/'), &chars("")[..]);
}

#[test]
fn comparisons() {
    assert!(same(&chars("abc"), &chars("abc")));
    assert!(!same(&chars("abc"), &chars("abd")));
    assert!(!same(&chars("abc"), &chars("ab")));
    assert!(spells(&chars("GET"), "GET"));
    assert!(!spells(&chars("GET"), "GETS"));
    assert!(!spells(&chars("GETS"), "GET"));
    assert!(!spells(&chars("get"), "GET"));
    assert!(spells_ignoring_case(&chars("Content-TYPE"), "content-type"));
    assert!(!spells_ignoring_case(&chars("Content-Typ"), "content-type"));
    assert!(!spells_ignoring_case(&chars("Content-Types"), "content-type"));
    assert!(!spells_ignoring_case(&chars("\u{212a}"), "k"));
}

#[test]
fn decimal_digits() {
    for (n, text) in [(0u16, "0"), (7, "7"), (10, "10"), (200, "200"), (404, "404"), (65535, "65535")] {
        let mut out = String::new();
        push_decimal(&mut out, n);
        assert_eq!(out, text);
    }
}
