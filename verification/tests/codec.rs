use rockbot_tui::codec::{base64_decode_simple, base64_encode, base64_encode_simple, truncate_tool_result};

#[test]
fn base64_encodes_with_padding() {
    assert_eq!(base64_encode(b""), "");
    assert_eq!(base64_encode(b"f"), "Zg==");
    assert_eq!(base64_encode(b"fo"), "Zm8=");
    assert_eq!(base64_encode(b"foo"), "Zm9v");
    assert_eq!(base64_encode(b"hello"), "aGVsbG8=");
    assert_eq!(base64_encode(&[0xff, 0xfe, 0x00]), "//4A");
}

#[test]
fn base64_simple_encoder_agrees() {
    for input in [&b""[..], b"a", b"ab", b"abc", b"rockbot gateway"] {
        assert_eq!(base64_encode_simple(input), base64_encode(input));
    }
}

#[test]
fn base64_decodes_and_ignores_padding() {
    assert_eq!(base64_decode_simple("aGVsbG8="), Ok(b"hello".to_vec()));
    assert_eq!(base64_decode_simple("Zm9v"), Ok(b"foo".to_vec()));
    assert_eq!(base64_decode_simple(""), Ok(Vec::new()));
    assert_eq!(base64_decode_simple("Zg"), Ok(b"f".to_vec()));
}

#[test]
fn base64_rejects_foreign_characters() {
    assert_eq!(
        base64_decode_simple("aGV*bG8="),
        Err("invalid base64 character".to_string())
    );
    assert_eq!(
        base64_decode_simple("a=b"),
        Err("invalid base64 character".to_string())
    );
}

#[test]
fn base64_roundtrip_on_all_lengths() {
    let data: Vec<u8> = (0u8..=255).collect();
    for n in 0..40 {
        let slice = &data[..n];
        assert_eq!(base64_decode_simple(&base64_encode(slice)), Ok(slice.to_vec()));
    }
}

#[test]
fn truncate_keeps_short_text() {
    assert_eq!(truncate_tool_result("short", 10), "short");
    assert_eq!(truncate_tool_result("exactly10!", 10), "exactly10!");
}

#[test]
fn truncate_cuts_long_text() {
    assert_eq!(truncate_tool_result("abcdefghij", 4), "abcd...");
    assert_eq!(truncate_tool_result("héllo", 3), "hé...");
}
