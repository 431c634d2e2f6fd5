use boilermaker_core::template::make_name_from_url;
use boilermaker_core::util::markdown::md_str_to_html;
use boilermaker_core::util::crypto::{hex_encode, sha256_hash_string};
use boilermaker_core::db::ordering::text_precedes;
use boilermaker_core::util::string::{
    is_white_space_char, string_to_option, truncate_to_char_count,
};
use boilermaker_core::util::time::timestamp_to_iso8601;

#[test]
fn sha256_of_empty_text() {
    assert_eq!(
        sha256_hash_string(""),
        "e3b0c44298fc1c149afbf4c8996fb92427ae41e4649b934ca495991b7852b855"
    );
}

#[test]
fn sha256_of_abc() {
    assert_eq!(
        sha256_hash_string("abc"),
        "ba7816bf8f01cfea414140de5dae2223b00361a396177a9cb410ff61f20015ad"
    );
}

#[test]
fn name_from_url_takes_last_segment_without_extension() {
    assert_eq!(make_name_from_url("https://github.com/yeajustmars/boilermaker.git"), "boilermaker");
    assert_eq!(make_name_from_url("https://example.com/a/b"), "b");
    assert_eq!(make_name_from_url("plain"), "plain");
    assert_eq!(make_name_from_url("https://example.com/a/"), "");
    assert_eq!(make_name_from_url("x/y.tar.gz"), "y.tar");
    assert_eq!(make_name_from_url("https://github.com/user/my.template.git"), "my.template");
    assert_eq!(make_name_from_url("https://my.host.example/user/repo"), "repo");
    assert_eq!(make_name_from_url("a/b."), "b");
    assert_eq!(make_name_from_url("a/.git"), "");
    assert_eq!(make_name_from_url("a.b/c"), "c");
    assert_eq!(make_name_from_url(""), "");
}

#[test]
fn truncate_counts_characters() {
    assert_eq!(truncate_to_char_count("héllo wörld", 4), "héll");
    assert_eq!(truncate_to_char_count("abc", 10), "abc");
    assert_eq!(truncate_to_char_count("abc", 0), "");
}

#[test]
fn blank_text_is_none() {
    assert_eq!(string_to_option(""), None);
    assert_eq!(string_to_option(" \t\n"), None);
    assert_eq!(string_to_option("\u{3000}\u{a0}"), None);
    assert_eq!(string_to_option(" a "), Some(" a ".to_string()));
}

#[test]
fn timestamp_is_written_in_utc() {
    assert_eq!(timestamp_to_iso8601(0), "1970-01-01T00:00:00+00:00");
    assert_eq!(timestamp_to_iso8601(1431648000), "2015-05-15T00:00:00+00:00");
    assert_eq!(timestamp_to_iso8601(8_210_266_876_799), "+262142-12-31T23:59:59+00:00");
}

#[test]
fn markdown_becomes_html() {
    assert_eq!(md_str_to_html("hello\n=====\n\n* alpha\n* beta\n"), "<h1>hello</h1>\n<ul>\n<li>alpha</li>\n<li>beta</li>\n</ul>\n");
    assert_eq!(md_str_to_html(""), "");
}

#[test]
fn white_space_is_what_trimming_removes() {
    for n in 0..=0x10FFFFu32 {
        if let Some(c) = char::from_u32(n) {
            assert_eq!(is_white_space_char(c), c.is_whitespace(), "U+{n:04X}");
        }
    }
    for n in [0x09u32, 0x20, 0x85, 0xA0, 0x1680, 0x2000, 0x200A, 0x2028, 0x2029, 0x202F, 0x205F, 0x3000] {
        let c = char::from_u32(n).unwrap();
        assert_eq!(string_to_option(&format!("{c}{c}")), None);
        let padded = format!("{c}x{c}");
        assert_eq!(string_to_option(&padded), Some(padded.clone()));
        assert_eq!(padded.trim(), "x");
    }
    for n in [0x1Cu32, 0x200B, 0x180E, 0xFEFF] {
        let c = char::from_u32(n).unwrap();
        assert!(string_to_option(&c.to_string()).is_some());
    }
}

#[test]
fn texts_are_ordered_character_by_character() {
    let samples = ["", "a", "A", "ab", "abc", "b", "Beta", "alpha", "zeta", "é", "e", "z", "日本", "~", "a~"];
    for a in samples {
        for b in samples {
            assert_eq!(text_precedes(a, b), a <= b, "{a:?} {b:?}");
        }
    }
}

#[test]
fn bytes_are_written_as_lower_case_hex() {
    assert_eq!(hex_encode(&vec![]), "");
    assert_eq!(hex_encode(&vec![1, 2, 3, 15, 16]), "0102030f10");
    assert_eq!(hex_encode(&vec![0xbe, 0xef, 0x00, 0xff]), "beef00ff");
    let all: Vec<u8> = (0..=255).collect();
    assert_eq!(hex_encode(&all), hex::encode(&all));
}
