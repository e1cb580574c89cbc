use deepseek_cli::realtime_instructions::RealtimeStartInstructions;
use deepseek_cli::digest::sha1_hex;
use deepseek_cli::marketplace::is_deepseek_curated_marketplace_name;
use deepseek_cli::path_segment::encode_path_segment;
use deepseek_cli::text::path_join;

#[test]
fn curated_marketplace_names() {
    assert!(is_deepseek_curated_marketplace_name("deepseek-curated"));
    assert!(is_deepseek_curated_marketplace_name("deepseek-api-curated"));
    assert!(!is_deepseek_curated_marketplace_name("deepseek-bundled"));
    assert!(!is_deepseek_curated_marketplace_name("deepseek-curated "));
    assert!(!is_deepseek_curated_marketplace_name(""));
}

#[test]
fn sha1_hex_of_known_inputs() {
    assert_eq!(sha1_hex("abc"), "a9993e364706816aba3e25717850c26c9cd0d89d");
    assert_eq!(sha1_hex(""), "da39a3ee5e6b4b0d3255bfef95601890afd80709");
}

#[test]
fn path_segments_keep_unreserved_bytes() {
    assert_eq!(encode_path_segment("Acct-1._~z"), "Acct-1._~z");
    assert_eq!(encode_path_segment("a b/c"), "a%20b%2Fc");
    assert_eq!(encode_path_segment("é%"), "%C3%A9%25");
    assert_eq!(encode_path_segment(""), "");
}

#[test]
fn paths_join_like_std() {
    assert_eq!(path_join("/home/u", "sessions"), "/home/u/sessions");
    assert_eq!(path_join("/home/u/", "sessions"), "/home/u/sessions");
    assert_eq!(path_join("", "sessions"), "sessions");
    assert_eq!(path_join("/home/u", "/abs"), "/abs");
    for (base, rel) in [("/home/u", "a/b"), ("rel", "x"), ("/", "y"), ("a/", "/b")] {
        let expected = std::path::Path::new(base).join(rel);
        assert_eq!(path_join(base, rel), expected.to_str().unwrap());
    }
}

#[test]
fn realtime_start_body_is_trimmed_on_its_own_line() {
    assert_eq!(RealtimeStartInstructions.role(), "developer");
    assert_eq!(RealtimeStartInstructions.body("  Speak briefly.\n\n"), "\nSpeak briefly.\n");
    assert_eq!(RealtimeStartInstructions.body(""), "\n\n");
}

#[test]
fn realtime_start_body_trims_unicode_white_space_like_std() {
    for sample in [
        "\u{3000}\u{85} a b \u{2028}",
        "\t\r\n\u{b}\u{c}x",
        "x\u{a0}\u{1680}\u{2000}\u{200a}\u{202f}\u{205f}",
        " \u{200b}x\u{200b} ",
        "\u{2029}",
    ] {
        assert_eq!(RealtimeStartInstructions.body(sample), format!("\n{}\n", sample.trim()));
    }
}
