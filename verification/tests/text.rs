use rust_chat::text::{
    chars_of, decimal_text, line_break, space, str_eq, strip_prefix, trim, trim_line_end,
};

#[test]
fn chars_of_keeps_every_character_in_order() {
    assert_eq!(chars_of(""), Vec::<char>::new());
    assert_eq!(chars_of("héllo"), vec!['h', 'é', 'l', 'l', 'o']);
}

#[test]
fn str_eq_compares_by_characters() {
    assert!(str_eq("", ""));
    assert!(str_eq("/quit", "/quit"));
    assert!(!str_eq("/quit", "/quit "));
    assert!(!str_eq("/quit", "/quiT"));
    assert!(!str_eq("abc", "abd"));
    assert!(!str_eq("ab", "abc"));
}

#[test]
fn line_break_is_cr_or_lf_only() {
    assert!(line_break('\n'));
    assert!(line_break('\r'));
    assert!(!line_break(' '));
    assert!(!line_break('\t'));
    assert!(!line_break('\u{2028}'));
}

#[test]
fn space_agrees_with_std_on_every_character() {
    let mut code: u32 = 0;
    while code <= 0x10FFFF {
        if let Some(c) = char::from_u32(code) {
            assert_eq!(space(c), c.is_whitespace(), "U+{:04X}", code);
        }
        code += 1;
    }
}

#[test]
fn trim_line_end_removes_trailing_breaks_only() {
    assert_eq!(trim_line_end("hello\n"), "hello");
    assert_eq!(trim_line_end("hello\r\n"), "hello");
    assert_eq!(trim_line_end("hello\n\r\n\r"), "hello");
    assert_eq!(trim_line_end("hello"), "hello");
    assert_eq!(trim_line_end("\nhello"), "\nhello");
    assert_eq!(trim_line_end("a\nb\n"), "a\nb");
    assert_eq!(trim_line_end("hello \n"), "hello ");
    assert_eq!(trim_line_end("\r\n"), "");
    assert_eq!(trim_line_end(""), "");
    assert_eq!(trim_line_end("héllo wörld\n"), "héllo wörld");
}

#[test]
fn trim_line_end_agrees_with_std() {
    let samples = ["", "\n", "x\r", "x\r\ny", "\r\n\r\n", "tab\t\n", "ü\n", "a\u{2028}\n"];
    for s in samples {
        assert_eq!(trim_line_end(s), s.trim_end_matches(&['\r', '\n'][..]));
    }
}

#[test]
fn trim_removes_white_space_at_both_ends() {
    assert_eq!(trim("  lounge  "), "lounge");
    assert_eq!(trim("\tlounge\r\n"), "lounge");
    assert_eq!(trim("the lounge"), "the lounge");
    assert_eq!(trim("  the  lounge "), "the  lounge");
    assert_eq!(trim("   "), "");
    assert_eq!(trim(""), "");
    assert_eq!(trim("\u{00A0}room\u{3000}"), "room");
    assert_eq!(trim("\u{200B}room"), "\u{200B}room");
}

#[test]
fn trim_agrees_with_std() {
    let samples = [
        "",
        " ",
        " a",
        "a ",
        " a b ",
        "\u{0085}x\u{1680}",
        "\u{2000}\u{200A}y\u{2028}\u{2029}",
        "\u{202F}z\u{205F}",
        "\u{FEFF}w",
        "é ",
    ];
    for s in samples {
        assert_eq!(trim(s), s.trim());
    }
}

#[test]
fn strip_prefix_gives_the_rest() {
    assert_eq!(strip_prefix("/join lounge", "/join "), Some("lounge"));
    assert_eq!(strip_prefix("/join ", "/join "), Some(""));
    assert_eq!(strip_prefix("/join", "/join "), None);
    assert_eq!(strip_prefix("/joinlounge", "/join "), None);
    assert_eq!(strip_prefix(" /join x", "/join "), None);
    assert_eq!(strip_prefix("anything", ""), Some("anything"));
    assert_eq!(strip_prefix("", "x"), None);
    assert_eq!(strip_prefix("étoile", "ét"), Some("oile"));
}

#[test]
fn decimal_text_writes_numerals_without_padding() {
    assert_eq!(decimal_text(0), "0");
    assert_eq!(decimal_text(2), "2");
    assert_eq!(decimal_text(9), "9");
    assert_eq!(decimal_text(10), "10");
    assert_eq!(decimal_text(255), "255");
    assert_eq!(decimal_text(9000), "9000");
    assert_eq!(decimal_text(65535), "65535");
    assert_eq!(decimal_text(1_000_000_007), "1000000007");
    assert_eq!(decimal_text(u64::MAX), "18446744073709551615");
}
