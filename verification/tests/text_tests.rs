use redis_conn::text::{binary, binary_to_redis_str, blank, chars_of, cut_first, decimal, join, split, string_of};
use redis_conn::utils::random_str;

#[test]
fn decimal_renders_zero_and_small_numbers() {
    assert_eq!(decimal(0), "0");
    assert_eq!(decimal(7), "7");
    assert_eq!(decimal(42), "42");
    assert_eq!(decimal(1000), "1000");
}

#[test]
fn decimal_renders_negative_numbers() {
    assert_eq!(decimal(-1), "-1");
    assert_eq!(decimal(-120), "-120");
}

#[test]
fn decimal_renders_the_extremes() {
    assert_eq!(decimal(i64::MAX), "9223372036854775807");
    assert_eq!(decimal(i64::MIN), "-9223372036854775808");
}

#[test]
fn decimal_agrees_with_the_standard_rendering() {
    for v in [-99999_i64, -10, -9, 0, 9, 10, 11, 99, 100, 101, 65535, 1_000_000_007] {
        assert_eq!(decimal(v), v.to_string());
    }
}

#[test]
fn binary_writes_bytes_without_padding() {
    assert_eq!(binary(&vec![0]), "0");
    assert_eq!(binary(&vec![1]), "1");
    assert_eq!(binary(&vec![5]), "101");
    assert_eq!(binary(&vec![255]), "11111111");
    assert_eq!(binary(&vec![]), "");
}

#[test]
fn binary_concatenates_without_separators() {
    assert_eq!(binary(&vec![255, 1]), "111111111");
    assert_eq!(binary(&vec![0xff, 0xfe]), "1111111111111110");
    assert_eq!(binary(&vec![128, 129, 130]), "100000001000000110000010");
}

#[test]
fn binary_agrees_with_the_standard_rendering() {
    for b in 0..=255u8 {
        assert_eq!(binary(&vec![b]), format!("{:b}", b));
    }
}

#[test]
fn escape_keeps_printable_bytes_and_writes_others_in_hex() {
    assert_eq!(binary_to_redis_str(&vec![b'a', b' ', b'~']), "a ~");
    assert_eq!(binary_to_redis_str(&vec![0xff]), "\\xff");
    assert_eq!(binary_to_redis_str(&vec![0x00, 0x0a, 0x7f]), "\\x00\\x0a\\x7f");
    assert_eq!(binary_to_redis_str(&vec![b'k', 0xc3, 0x28]), "k\\xc3(");
    assert_eq!(binary_to_redis_str(&vec![]), "");
}

#[test]
fn join_puts_the_separator_between_neighbours() {
    assert_eq!(join(&vec!["a".to_string(), "b".to_string(), "c".to_string()], " "), "a b c");
    assert_eq!(join(&vec!["only".to_string()], " "), "only");
    assert_eq!(join(&vec![], " "), "");
    assert_eq!(join(&vec!["".to_string(), "".to_string()], ", "), ", ");
}

#[test]
fn split_cuts_at_every_separator() {
    assert_eq!(split("a\r\nb\r\nc", "\r\n"), vec!["a", "b", "c"]);
    assert_eq!(split("a\r\nb\r\n", "\r\n"), vec!["a", "b", ""]);
    assert_eq!(split("", "\n"), vec![""]);
    assert_eq!(split("\n\n", "\n"), vec!["", "", ""]);
    assert_eq!(split("no separator", "\r\n"), vec!["no separator"]);
    assert_eq!(split("a\rb\nc", "\r\n"), vec!["a\rb\nc"]);
}

#[test]
fn split_agrees_with_the_standard_split() {
    for text in ["a b  c", " lead", "trail ", "", "x", "aaa", "é è"] {
        let expected: Vec<String> = text.split(" ").map(|s| s.to_string()).collect();
        assert_eq!(split(text, " "), expected);
    }
    let expected: Vec<String> = "aaaa".split("aa").map(|s| s.to_string()).collect();
    assert_eq!(split("aaaa", "aa"), expected);
    let expected: Vec<String> = "aaa".split("aa").map(|s| s.to_string()).collect();
    assert_eq!(split("aaa", "aa"), expected);
}

#[test]
fn join_undoes_split() {
    for text in ["a:b:c", ":", "", "x::y", "plain"] {
        assert_eq!(join(&split(text, ":"), ":"), text);
    }
}

#[test]
fn cut_first_cuts_at_the_first_occurrence_only() {
    assert_eq!(cut_first("a:b:c", ':'), Some(("a".to_string(), "b:c".to_string())));
    assert_eq!(cut_first(":x", ':'), Some(("".to_string(), "x".to_string())));
    assert_eq!(cut_first("x:", ':'), Some(("x".to_string(), "".to_string())));
    assert_eq!(cut_first("none", ':'), None);
    assert_eq!(cut_first("", ':'), None);
}

#[test]
fn blank_knows_white_space() {
    assert!(blank(""));
    assert!(blank("   "));
    assert!(blank("\t\r\n "));
    assert!(blank("\u{00a0}\u{3000}\u{2003}"));
    assert!(!blank(" a "));
    assert!(!blank("\u{200b}"));
}

#[test]
fn blank_agrees_with_trim() {
    for code in 0..0x3100u32 {
        if let Some(c) = char::from_u32(code) {
            let text = c.to_string();
            assert_eq!(blank(&text), text.trim().is_empty(), "character {:x}", code);
        }
    }
}

#[test]
fn chars_and_strings_convert_back_and_forth() {
    let chars = chars_of("héllo");
    assert_eq!(chars, vec!['h', 'é', 'l', 'l', 'o']);
    assert_eq!(string_of(&chars, 0, 5), "héllo");
    assert_eq!(string_of(&chars, 1, 3), "él");
    assert_eq!(string_of(&chars, 2, 2), "");
}

#[test]
fn random_str_has_the_length_asked_for() {
    assert_eq!(random_str(0), "");
    assert_eq!(random_str(1).len(), 1);
    assert_eq!(random_str(32).chars().count(), 32);
}

#[test]
fn random_str_is_made_of_letters_and_digits() {
    let token = random_str(256);
    assert!(token.chars().all(|c| c.is_ascii_alphanumeric()));
}

#[test]
fn random_str_differs_from_call_to_call() {
    assert_ne!(random_str(32), random_str(32));
}
