use web_search_plugin::text::{
    decimal_text, extract_snippet, has_prefix, head, same_text, trim_trailing_slashes, truncate,
};
use web_search_plugin::urls::urlencoding;

#[test]
fn short_text_is_not_truncated() {
    assert_eq!(truncate("", 0), "");
    assert_eq!(truncate("hello", 5), "hello");
    assert_eq!(truncate("héé", 5), "héé");
}

#[test]
fn long_text_is_cut_and_marked() {
    assert_eq!(truncate("hello", 4), "hell…");
    assert_eq!(truncate("hello", 0), "…");
}

#[test]
fn text_is_cut_between_characters() {
    assert_eq!(truncate("aé", 2), "a…");
    assert_eq!(truncate("日本語", 7), "日本…");
    assert_eq!(truncate("😀", 3), "…");
    assert_eq!(head("日本語", 8), "日本");
    assert_eq!(head("日本語", 100), "日本語");
    assert_eq!(head("", 3), "");
}

#[test]
fn truncation_takes_at_most_three_more_bytes() {
    let long = "é".repeat(500);
    for max in 0..20 {
        let cut = truncate(&long, max);
        assert!(cut.len() <= max + 3);
        assert!(cut.len() >= max + 2);
    }
}

#[test]
fn snippet_ends_at_the_last_full_stop() {
    let first = "This sentence has more than forty bytes before its stop";
    let text = format!("{first}. And this is the rest");
    assert_eq!(extract_snippet(&text), format!("{first}."));
    let text = format!("{first}. Short. Tail");
    assert_eq!(extract_snippet(&text), format!("{first}. Short."));
}

#[test]
fn early_full_stop_does_not_end_a_snippet() {
    assert_eq!(extract_snippet("Short. Then more text"), "Short. Then more text");
    let forty = "a".repeat(40);
    let text = format!("{forty}. b");
    assert_eq!(extract_snippet(&text), text);
    let text = format!("a{forty}. b");
    assert_eq!(extract_snippet(&text), format!("a{forty}."));
}

#[test]
fn full_stop_position_counts_bytes() {
    let wide = "é".repeat(21);
    let text = format!("{wide}. b");
    assert_eq!(extract_snippet(&text), format!("{wide}."));
}

#[test]
fn full_stop_at_the_end_is_no_boundary() {
    let text = format!("{}.", "a".repeat(60));
    assert_eq!(extract_snippet(&text), text);
}

#[test]
fn snippet_of_a_long_text_is_bounded() {
    let text = "a".repeat(400);
    assert_eq!(extract_snippet(&text), format!("{}…", "a".repeat(280)));
    let text = format!("{}. {}", "b".repeat(100), "c".repeat(400));
    assert_eq!(extract_snippet(&text), format!("{}.", "b".repeat(100)));
    let text = format!("{}. c", "b".repeat(300));
    assert_eq!(extract_snippet(&text), format!("{}…", "b".repeat(280)));
}

#[test]
fn texts_are_compared() {
    assert!(same_text("exa", "exa"));
    assert!(!same_text("exa", "Exa"));
    assert!(has_prefix("https://a", "https://"));
    assert!(has_prefix("abc", ""));
    assert!(!has_prefix("http:/", "http://"));
    assert!(!has_prefix("xhttp://", "http://"));
}

#[test]
fn trailing_slashes_are_removed() {
    assert_eq!(trim_trailing_slashes("http://h:8080///"), "http://h:8080");
    assert_eq!(trim_trailing_slashes("http://h"), "http://h");
    assert_eq!(trim_trailing_slashes("//"), "");
    assert_eq!(trim_trailing_slashes(""), "");
}

#[test]
fn numbers_are_written_in_base_ten() {
    assert_eq!(decimal_text(0), "0");
    assert_eq!(decimal_text(9), "9");
    assert_eq!(decimal_text(10), "10");
    assert_eq!(decimal_text(503), "503");
    assert_eq!(decimal_text(u32::MAX), u32::MAX.to_string());
}

#[test]
fn unreserved_characters_stand_for_themselves() {
    let kept = "ABCXYZabcxyz0189-_.~";
    assert_eq!(urlencoding(kept), kept);
    assert_eq!(urlencoding(""), "");
}

#[test]
fn other_bytes_are_percent_encoded() {
    assert_eq!(urlencoding("rust lang"), "rust%20lang");
    assert_eq!(urlencoding("a+b&c=d/e?f#g%"), "a%2Bb%26c%3Dd%2Fe%3Ff%23g%25");
    assert_eq!(urlencoding("é"), "%C3%A9");
    assert_eq!(urlencoding("\n\u{0}\u{7f}"), "%0A%00%7F");
}

#[test]
fn encoding_can_be_undone() {
    let text = "100% of 日本 & 😀";
    let encoded = urlencoding(text);
    let mut bytes: Vec<u8> = Vec::new();
    let raw = encoded.as_bytes();
    let mut i: usize = 0;
    while i < raw.len() {
        if raw[i] == b'%' {
            bytes.push(u8::from_str_radix(&encoded[i + 1..i + 3], 16).unwrap());
            i += 3;
        } else {
            bytes.push(raw[i]);
            i += 1;
        }
    }
    assert_eq!(String::from_utf8(bytes).unwrap(), text);
    assert_ne!(urlencoding("a b"), urlencoding("a%20b"));
}
