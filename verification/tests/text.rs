use gpui_windows::text::{decode_buffer, decode_utf16, encode_utf16};

#[test]
fn text_is_encoded() {
    assert_eq!(encode_utf16(""), Vec::<u16>::new());
    assert_eq!(encode_utf16("C:\\a"), vec![67, 58, 92, 97]);
    assert_eq!(encode_utf16("\u{ffff}\u{10000}"), vec![0xffff, 0xd800, 0xdc00]);
    assert_eq!(encode_utf16("\u{10ffff}"), vec![0xdbff, 0xdfff]);
}

#[test]
fn encoding_is_the_standard_one() {
    for text in ["ファイル", "naïve", "😀🎃", "\u{d7ff}\u{e000}", "a\0b"] {
        let expected: Vec<u16> = text.encode_utf16().collect();
        assert_eq!(encode_utf16(text), expected);
    }
}

#[test]
fn buffer_is_read_up_to_zero() {
    let mut buffer = encode_utf16("C:\\ファイル 😀.icm");
    buffer.push(0);
    buffer.extend_from_slice(&[120, 121, 0]);
    assert_eq!(decode_buffer(&buffer), "C:\\ファイル 😀.icm");
}

#[test]
fn buffer_without_zero_is_read_whole() {
    assert_eq!(decode_buffer(&[97, 98]), "ab");
    assert_eq!(decode_buffer(&[]), "");
    assert_eq!(decode_buffer(&[0, 97]), "");
}

#[test]
fn unpaired_surrogates_are_replaced() {
    assert_eq!(decode_buffer(&[97, 0xd800, 98, 0xdc00]), "a\u{fffd}b\u{fffd}");
    assert_eq!(decode_buffer(&[0xd800, 0x41]), "\u{fffd}A");
    assert_eq!(decode_buffer(&[0xd800, 0xd83d, 0xde00, 0xde00]), "\u{fffd}😀\u{fffd}");
    assert_eq!(decode_buffer(&[0xdbff, 0xdfff, 0xdbff]), "\u{10ffff}\u{fffd}");
}

#[test]
fn encoded_text_is_decoded() {
    for text in ["", "C:\\a", "ファイル 😀", "\u{fffd}", "a\0b"] {
        assert_eq!(decode_utf16(&encode_utf16(text)), Some(text.to_string()));
    }
}

#[test]
fn invalid_units_are_not_decoded() {
    assert_eq!(decode_utf16(&[97, 0xd800]), None);
    assert_eq!(decode_utf16(&[0xdc00, 97]), None);
    assert_eq!(decode_utf16(&[0xdc00, 0xd800]), None);
}
