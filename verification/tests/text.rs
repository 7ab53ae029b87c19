use pgtemp::chars::{chars_of, contains, space, trimmed_len};
use pgtemp::decimal::{parse, render};

fn chars(text: &str) -> Vec<char> {
    text.chars().collect()
}

#[test]
fn render_writes_decimal_notation() {
    assert_eq!(render(0), "0");
    assert_eq!(render(7), "7");
    assert_eq!(render(10), "10");
    assert_eq!(render(5432), "5432");
    assert_eq!(render(4294967295), "4294967295");
}

#[test]
fn parse_reads_digits() {
    assert_eq!(parse(&chars("5432")), Some(5432));
    assert_eq!(parse(&chars("0")), Some(0));
    assert_eq!(parse(&chars("007")), Some(7));
}

#[test]
fn parse_takes_one_plus_sign() {
    assert_eq!(parse(&chars("+5432")), Some(5432));
    assert_eq!(parse(&chars("++5432")), None);
    assert_eq!(parse(&chars("+")), None);
}

#[test]
fn parse_refuses_what_is_no_number() {
    assert_eq!(parse(&chars("")), None);
    assert_eq!(parse(&chars("-1")), None);
    assert_eq!(parse(&chars("54a32")), None);
    assert_eq!(parse(&chars("5432 ")), None);
    assert_eq!(parse(&chars(" 5432")), None);
    assert_eq!(parse(&chars("\u{663}")), None);
}

#[test]
fn parse_stops_at_the_largest_u32() {
    assert_eq!(parse(&chars("4294967295")), Some(u32::MAX));
    assert_eq!(parse(&chars("4294967296")), None);
    assert_eq!(parse(&chars("99999999999999999999999999")), None);
    assert_eq!(parse(&chars("00000000000000000000000001")), Some(1));
}

#[test]
fn parse_reads_back_what_render_wrote() {
    for n in [0u32, 1, 9, 10, 99, 100, 5432, 65535, 65536, 4294967294, 4294967295] {
        assert_eq!(parse(&chars(&render(n))), Some(n));
    }
}

#[test]
fn chars_of_keeps_every_character() {
    assert_eq!(chars_of("a\u{e9}\u{3000}z"), vec!['a', '\u{e9}', '\u{3000}', 'z']);
    assert_eq!(chars_of(""), Vec::<char>::new());
}

#[test]
fn space_agrees_with_the_standard_library() {
    for code in 0u32..=0x10ffff {
        if let Some(c) = char::from_u32(code) {
            assert_eq!(space(c), c.is_whitespace(), "code point {:x}", code);
        }
    }
}

#[test]
fn trimmed_len_drops_white_space_at_the_end_only() {
    assert_eq!(trimmed_len(&chars("5432\n")), 4);
    assert_eq!(trimmed_len(&chars("5432 \t\r\n\u{a0}\u{3000}")), 4);
    assert_eq!(trimmed_len(&chars(" 54 32")), 6);
    assert_eq!(trimmed_len(&chars(" \n ")), 0);
    assert_eq!(trimmed_len(&chars("")), 0);
}

#[test]
fn trimmed_len_agrees_with_the_standard_library() {
    for text in ["", "a", " a ", "a\n\n", "\u{2003}x\u{2003}\u{205f}", "x\u{200b}"] {
        assert_eq!(trimmed_len(&chars(text)), text.trim_end().chars().count());
    }
}

#[test]
fn contains_finds_a_marker_anywhere() {
    let text = chars("psql says PostgreSQL 15.4 here");
    assert!(contains(&text, &chars("PostgreSQL 15")));
    assert!(contains(&text, &chars("psql")));
    assert!(contains(&text, &chars("here")));
    assert!(contains(&text, &chars("")));
    assert!(!contains(&text, &chars("PostgreSQL 14")));
    assert!(!contains(&text, &chars("here!")));
    assert!(!contains(&chars("ab"), &chars("abc")));
    assert!(contains(&chars("aab"), &chars("ab")));
}

#[test]
fn parse_agrees_with_the_standard_library() {
    let texts = [
        "", "+", "-", "0", "+0", "-0", "1", "+1", "-1", "00", "0012", "12a", "a12", "1 2", " 12",
        "12 ", "1_000", "1e3", "0x10", "4294967295", "+4294967295", "4294967296", "42949672950",
        "18446744073709551616", "\u{661}\u{662}", "+-1", "++1", "1+",
    ];
    for text in texts {
        assert_eq!(parse(&chars(text)), text.parse::<u32>().ok(), "text {:?}", text);
    }
}

#[test]
fn render_agrees_with_the_standard_library() {
    let mut n: u32 = 1;
    for _ in 0..40 {
        assert_eq!(render(n), n.to_string());
        assert_eq!(render(n - 1), (n - 1).to_string());
        n = n.wrapping_mul(7).wrapping_add(3);
        if n == 0 {
            n = 1;
        }
    }
    assert_eq!(render(u32::MAX), u32::MAX.to_string());
}
