use brilliant_pdf::text::{
    decimal, is_blank, push_hex, push_natural, sanitize, trim, truncate,
};

#[test]
fn decimal_of_small_numbers() {
    assert_eq!(decimal(0), "0");
    assert_eq!(decimal(7), "7");
    assert_eq!(decimal(10), "10");
    assert_eq!(decimal(-1), "-1");
    assert_eq!(decimal(-42), "-42");
    assert_eq!(decimal(1_000_000), "1000000");
}

#[test]
fn decimal_of_the_extremes() {
    assert_eq!(decimal(i64::MAX), "9223372036854775807");
    assert_eq!(decimal(i64::MIN), "-9223372036854775808");
    assert_eq!(decimal(i64::MIN + 1), "-9223372036854775807");
}

#[test]
fn decimal_is_what_display_writes() {
    let samples: [i64; 9] = [0, 1, -1, 9, 10, 99, 100, -1234567890123, 4611686018427387904];
    for n in samples {
        assert_eq!(decimal(n), format!("{}", n));
    }
}

#[test]
fn push_natural_appends() {
    let mut text = String::from("days: ");
    push_natural(&mut text, 30);
    assert_eq!(text, "days: 30");
    push_natural(&mut text, 0);
    assert_eq!(text, "days: 300");
    push_natural(&mut text, u64::MAX);
    assert_eq!(text, "days: 30018446744073709551615");
}

#[test]
fn push_hex_pads_with_zeros() {
    let mut text = String::new();
    push_hex(&mut text, 0xAB, 4);
    assert_eq!(text, "00AB");
    push_hex(&mut text, 0, 2);
    assert_eq!(text, "00AB00");
}

#[test]
fn push_hex_keeps_the_lowest_digits() {
    let mut text = String::new();
    push_hex(&mut text, 0x1234_5678_9ABC_DEF0, 16);
    assert_eq!(text, "123456789ABCDEF0");
    let mut low = String::new();
    push_hex(&mut low, 0x1234_5678_9ABC_DEF0, 3);
    assert_eq!(low, "EF0");
    let mut none = String::from("x");
    push_hex(&mut none, 0xFFFF, 0);
    assert_eq!(none, "x");
}

#[test]
fn push_hex_is_what_format_writes() {
    let samples: [u64; 5] = [0, 1, 0xDEAD_BEEF, u64::MAX, 0x0123_4567_89AB_CDEF];
    for n in samples {
        let mut text = String::new();
        push_hex(&mut text, n, 16);
        assert_eq!(text, format!("{:016X}", n));
    }
}

#[test]
fn trim_takes_white_space_from_both_ends() {
    assert_eq!(trim("  ana  "), "ana");
    assert_eq!(trim("\t\nana maria\r\n"), "ana maria");
    assert_eq!(trim("ana"), "ana");
    assert_eq!(trim("\u{a0}ana\u{2003}"), "ana");
    assert_eq!(trim("   "), "");
    assert_eq!(trim(""), "");
}

#[test]
fn blank_is_nothing_but_white_space() {
    assert!(is_blank(""));
    assert!(is_blank("   "));
    assert!(is_blank("\t\r\n"));
    assert!(is_blank("\u{a0}\u{2003}"));
    assert!(!is_blank(" a "));
    assert!(!is_blank("_"));
    assert!(!is_blank("\u{200b}"));
}

#[test]
fn truncate_counts_characters() {
    assert_eq!(truncate("abcdef".to_string(), 3), "abc");
    assert_eq!(truncate("abcdef".to_string(), 6), "abcdef");
    assert_eq!(truncate("abcdef".to_string(), 7), "abcdef");
    assert_eq!(truncate("abcdef".to_string(), 0), "");
    assert_eq!(truncate(String::new(), 5), "");
    assert_eq!(truncate("ação já".to_string(), 4), "ação");
    assert_eq!(truncate("日本語のテキスト".to_string(), 3), "日本語");
}

#[test]
fn truncate_is_what_take_collects() {
    for text in ["", "a", "Meu Projeto", "joalheria ímpar — coleção", "💎💍📿"] {
        for limit in [0usize, 1, 2, 3, 10, 100] {
            let expected: String = text.chars().take(limit).collect();
            assert_eq!(truncate(text.to_string(), limit), expected);
        }
    }
}

#[test]
fn sanitize_keeps_letters_digits_hyphens_and_underscores() {
    assert_eq!(sanitize("AN-001_b"), "AN-001_b");
    assert_eq!(sanitize("anel 12/3"), "anel_12_3");
    assert_eq!(sanitize("../../etc/passwd"), "______etc_passwd");
    assert_eq!(sanitize("coleção.ñ"), "coleção_ñ");
    assert_eq!(sanitize("a\\b:c*d?"), "a_b_c_d_");
    assert_eq!(sanitize("💎"), "_");
    assert_eq!(sanitize(""), "");
}

#[test]
fn sanitize_is_what_the_map_collects() {
    for code in ["AN-001", "x y", "é/è", "..", "١٢٣", "a\u{301}"] {
        let expected: String = code
            .chars()
            .map(|c| if c.is_alphanumeric() || c == '-' || c == '_' { c } else { '_' })
            .collect();
        assert_eq!(sanitize(code), expected);
    }
}
