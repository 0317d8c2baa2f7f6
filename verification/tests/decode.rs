use exchange_logs::decode::{decode_text, settle_decoding};

#[test]
fn ascii_is_read_as_it_stands() {
    assert_eq!(decode_text(b"#Log-type: Message Tracking Log\r\n"), "#Log-type: Message Tracking Log\r\n");
}

#[test]
fn empty_input_gives_empty_text() {
    assert_eq!(decode_text(b""), "");
}

#[test]
fn legacy_code_page_is_preferred() {
    // "Привет" in windows-1251.
    let bytes = [0xCF, 0xF0, 0xE8, 0xE2, 0xE5, 0xF2];
    assert_eq!(decode_text(&bytes), "Привет");
}

#[test]
fn utf8_without_unmapped_bytes_is_still_read_as_legacy() {
    // "П" in UTF-8 is D0 9F; both bytes are letters of the legacy code page.
    let bytes = [0xD0, 0x9F];
    assert_eq!(decode_text(&bytes), "Рџ");
}

#[test]
fn every_byte_has_a_character_in_the_legacy_code_page() {
    let bytes = [b'a', 0x98, b'b'];
    assert_eq!(decode_text(&bytes), "a\u{98}b");
}

#[test]
fn falls_back_after_errors_under_a_byte_order_mark() {
    // The mark asks for UTF-8, and 0xFF is no UTF-8: the bytes are read again, lossily.
    let bytes = [0xEF, 0xBB, 0xBF, b'a', 0xFF];
    assert_eq!(decode_text(&bytes), "\u{feff}a\u{fffd}");
}

#[test]
fn falls_back_after_errors_under_a_utf16_mark() {
    let bytes = [0xFF, 0xFE, 0x41];
    assert_eq!(decode_text(&bytes), "\u{fffd}\u{fffd}A");
}

#[test]
fn byte_order_mark_is_sniffed_and_dropped() {
    let bytes = [0xEF, 0xBB, 0xBF, b'a', 0xD0, 0x9F];
    assert_eq!(decode_text(&bytes), "aП");
}

#[test]
fn settle_keeps_the_legacy_reading_without_errors() {
    assert_eq!(settle_decoding(&[0xD0, 0x9F], String::from("legacy"), false), "legacy");
}

#[test]
fn settle_rereads_the_bytes_after_errors() {
    assert_eq!(settle_decoding(&[0xD0, 0x9F], String::from("legacy"), true), "П");
}
