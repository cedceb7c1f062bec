use bookshelf::text::contains;
use bookshelf::text::decimal_text;
use bookshelf::text::inner_span;
use bookshelf::text::read_number;
use bookshelf::text::read_pages;
use bookshelf::text::to_chars;
use bookshelf::text::trim;

#[test]
fn to_chars_keeps_every_character_in_order() {
    assert_eq!(to_chars(""), Vec::<char>::new());
    assert_eq!(to_chars("abc"), vec!['a', 'b', 'c']);
    assert_eq!(to_chars("é→z"), vec!['é', '→', 'z']);
}

#[test]
fn contains_finds_a_part_anywhere() {
    assert!(contains("the great gatsby", "the"));
    assert!(contains("the great gatsby", "great"));
    assert!(contains("the great gatsby", "gatsby"));
    assert!(contains("the great gatsby", "t g"));
    assert!(contains("abc", "abc"));
}

#[test]
fn contains_rejects_what_is_not_there() {
    assert!(!contains("the great gatsby", "greet"));
    assert!(!contains("abc", "abcd"));
    assert!(!contains("abc", "ca"));
    assert!(!contains("", "a"));
    assert!(!contains("aab", "aba"));
}

#[test]
fn contains_repeated_prefix() {
    assert!(contains("aaab", "aab"));
    assert!(contains("ababac", "abac"));
}

#[test]
fn contains_is_exact_about_case() {
    assert!(!contains("The Great Gatsby", "great"));
    assert!(contains("The Great Gatsby", "Great"));
}

#[test]
fn contains_empty_needle_is_everywhere() {
    assert!(contains("abc", ""));
    assert!(contains("", ""));
}

#[test]
fn contains_works_on_characters_not_bytes() {
    assert!(contains("žluťoučký kůň", "ťou"));
    assert!(contains("日本語の本", "語の"));
    assert!(!contains("日本語の本", "本日"));
}

#[test]
fn inner_span_lies_between_the_set_marks() {
    assert_eq!(inner_span(&vec![true, false, true]), (1, 2));
    assert_eq!(inner_span(&vec![true, true, false, true, false, true]), (2, 5));
    assert_eq!(inner_span(&vec![false, false]), (0, 2));
    assert_eq!(inner_span(&vec![false, true, true]), (0, 1));
    assert_eq!(inner_span(&vec![true, true, false]), (2, 3));
}

#[test]
fn inner_span_is_empty_where_every_mark_is_set() {
    assert_eq!(inner_span(&vec![true, true, true]), (3, 3));
    assert_eq!(inner_span(&vec![true]), (1, 1));
    assert_eq!(inner_span(&Vec::new()), (0, 0));
}

#[test]
fn trim_drops_white_space_at_both_ends() {
    assert_eq!(trim("  Dune \n"), "Dune");
    assert_eq!(trim("\t1\r\n"), "1");
    assert_eq!(trim("The Great Gatsby\n"), "The Great Gatsby");
}

#[test]
fn trim_keeps_inner_white_space() {
    assert_eq!(trim("  a  b  "), "a  b");
}

#[test]
fn trim_of_blank_is_empty() {
    assert_eq!(trim(""), "");
    assert_eq!(trim("\n"), "");
    assert_eq!(trim(" \t \r\n"), "");
}

#[test]
fn trim_leaves_text_without_white_space_alone() {
    assert_eq!(trim("abc"), "abc");
    assert_eq!(trim("é"), "é");
}

#[test]
fn trim_knows_white_space_beyond_ascii() {
    assert_eq!(trim("\u{a0}x\u{2003}"), "x");
    assert_eq!(trim("\u{3000}本\u{3000}"), "本");
}

#[test]
fn trim_agrees_with_the_standard_library() {
    for line in [" a ", "a\n", "\n\na b\t", "", "   ", "\u{85}z\u{2028}", "x\u{200b}"] {
        assert_eq!(trim(line), line.trim());
    }
}

#[test]
fn decimal_text_of_single_digits() {
    assert_eq!(decimal_text(0), "0");
    assert_eq!(decimal_text(7), "7");
    assert_eq!(decimal_text(9), "9");
}

#[test]
fn decimal_text_of_longer_numbers() {
    assert_eq!(decimal_text(10), "10");
    assert_eq!(decimal_text(412), "412");
    assert_eq!(decimal_text(1000), "1000");
    assert_eq!(decimal_text(4294967295), "4294967295");
    assert_eq!(decimal_text(u64::MAX), "18446744073709551615");
}

#[test]
fn decimal_text_uses_each_digit() {
    assert_eq!(decimal_text(1234567890), "1234567890");
}

#[test]
fn read_number_reads_digits() {
    assert_eq!(read_number("0", 100), Some(0));
    assert_eq!(read_number("7", 100), Some(7));
    assert_eq!(read_number("42", 100), Some(42));
    assert_eq!(read_number("100", 100), Some(100));
}

#[test]
fn read_number_accepts_a_plus_sign_and_leading_zeros() {
    assert_eq!(read_number("+5", 100), Some(5));
    assert_eq!(read_number("007", 100), Some(7));
    assert_eq!(read_number("+000", 100), Some(0));
}

#[test]
fn read_number_refuses_what_is_no_number() {
    assert_eq!(read_number("", 100), None);
    assert_eq!(read_number("+", 100), None);
    assert_eq!(read_number("-1", 100), None);
    assert_eq!(read_number("-0", 100), None);
    assert_eq!(read_number("12a", 100), None);
    assert_eq!(read_number("a12", 100), None);
    assert_eq!(read_number(" 12", 100), None);
    assert_eq!(read_number("12 ", 100), None);
    assert_eq!(read_number("1_0", 100), None);
    assert_eq!(read_number("1.5", 100), None);
    assert_eq!(read_number("++1", 100), None);
    assert_eq!(read_number("٣", 100), None);
}

#[test]
fn read_number_refuses_what_is_above_the_limit() {
    assert_eq!(read_number("101", 100), None);
    assert_eq!(read_number("1000", 100), None);
    assert_eq!(read_number("1", 0), None);
    assert_eq!(read_number("0", 0), Some(0));
    assert_eq!(read_number("9", 5), None);
    assert_eq!(read_number("18446744073709551615", u64::MAX), Some(u64::MAX));
    assert_eq!(read_number("18446744073709551616", u64::MAX), None);
    assert_eq!(read_number("99999999999999999999999999", u64::MAX), None);
}

#[test]
fn read_pages_fits_in_32_bits() {
    assert_eq!(read_pages("412"), Some(412));
    assert_eq!(read_pages("0"), Some(0));
    assert_eq!(read_pages("4294967295"), Some(4294967295));
    assert_eq!(read_pages("4294967296"), None);
    assert_eq!(read_pages("many"), None);
    assert_eq!(read_pages(""), None);
}

#[test]
fn read_pages_agrees_with_the_standard_library() {
    for entry in ["0", "1", "+1", "-1", "", "+", "00012", "4294967295", "4294967296", "1e3", "0x10"] {
        assert_eq!(read_pages(entry), entry.parse::<u32>().ok());
    }
}

#[test]
fn decimal_text_reads_back() {
    for n in [0u64, 1, 9, 10, 99, 100, 65535, 4294967295, u64::MAX] {
        assert_eq!(read_number(&decimal_text(n), u64::MAX), Some(n));
    }
}
