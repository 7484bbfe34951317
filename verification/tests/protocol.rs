use gcopy_desktop::clipboard::ClipboardContent;
use gcopy_desktop::image::{image_to_png, ImageError, RawImage};
use gcopy_desktop::protocol::{bytes_equal, decode, encode, endpoint, format_index, parse_index};
use gcopy_desktop::protocol::{status_is_success, text_equal, DecodeError};
use gcopy_desktop::protocol::{INDEX_HEADER, NOT_MODIFIED, PAYLOAD_MEDIA_TYPE, TYPE_HEADER};

fn round_trip(content: ClipboardContent) {
    let (payload, tag) = encode(&content);
    assert_eq!(decode(&payload, tag), Ok(content));
}

#[test]
fn text_round_trip() {
    round_trip(ClipboardContent::Text("hello".to_string()));
    round_trip(ClipboardContent::Text("x".to_string()));
    round_trip(ClipboardContent::Text(String::new()));
    round_trip(ClipboardContent::Text("剪贴板 – ça va? 🦀\n\0".to_string()));
}

#[test]
fn image_round_trip() {
    let minimal = RawImage { width: 1, height: 1, bytes: vec![0, 0, 0, 0] };
    round_trip(ClipboardContent::Image(image_to_png(&minimal).unwrap()));
    let larger = RawImage { width: 3, height: 2, bytes: (0..24).collect() };
    round_trip(ClipboardContent::Image(image_to_png(&larger).unwrap()));
}

#[test]
fn malformed_screenshot_is_a_decode_error() {
    for payload in [&b""[..], &b"abc"[..], &[137, 80, 78, 71, 13, 10, 26, 10][..]] {
        match decode(payload, "screenshot") {
            Err(DecodeError::Malformed(ImageError::Decode(message))) => {
                assert!(!message.is_empty())
            }
            other => panic!("unexpected {:?}", other),
        }
    }
    let file = image_to_png(&RawImage { width: 1, height: 1, bytes: vec![1, 2, 3, 4] }).unwrap();
    let cut = &file[..file.len() / 2];
    assert!(matches!(decode(cut, "screenshot"), Err(DecodeError::Malformed(_))));
}

#[test]
fn encode_gives_payload_and_tag() {
    assert_eq!(
        encode(&ClipboardContent::Text("world".to_string())),
        (b"world".to_vec(), "text")
    );
    assert_eq!(encode(&ClipboardContent::Text("é".to_string())), (vec![0xc3, 0xa9], "text"));
    assert_eq!(encode(&ClipboardContent::Image(vec![1, 2, 3])), (vec![1, 2, 3], "screenshot"));
}

#[test]
fn decode_goes_by_the_tag() {
    let file = image_to_png(&RawImage { width: 1, height: 1, bytes: vec![1, 2, 3, 4] }).unwrap();
    assert_eq!(decode(b"abc", "text"), Ok(ClipboardContent::Text("abc".to_string())));
    assert_eq!(decode(&file, "screenshot"), Ok(ClipboardContent::Image(file.clone())));
    assert_eq!(
        decode(&file, "text"),
        Ok(ClipboardContent::Text(String::from_utf8_lossy(&file).into_owned()))
    );
}

#[test]
fn decode_ignores_unknown_tags() {
    for tag in ["file", "", "Text", "text ", "image", "screenshots"] {
        assert_eq!(decode(b"abc", tag), Err(DecodeError::UnsupportedType));
    }
}

#[test]
fn decode_repairs_invalid_utf8() {
    assert_eq!(
        decode(&[b'a', 0xff, b'b'], "text"),
        Ok(ClipboardContent::Text("a\u{fffd}b".to_string()))
    );
    assert_eq!(
        decode(&[0xe2, 0x82], "text"),
        Ok(ClipboardContent::Text(String::from_utf8_lossy(&[0xe2, 0x82]).into_owned()))
    );
}

#[test]
fn parse_index_reads_decimal_numbers() {
    assert_eq!(parse_index("7"), Some(7));
    assert_eq!(parse_index("0"), Some(0));
    assert_eq!(parse_index("007"), Some(7));
    assert_eq!(parse_index("+8"), Some(8));
    assert_eq!(parse_index("18446744073709551615"), Some(u64::MAX));
    assert_eq!(parse_index("000018446744073709551615"), Some(u64::MAX));
}

#[test]
fn parse_index_refuses_everything_else() {
    for text in [
        "", "+", "-", "-1", "++1", "+-1", " 7", "7 ", "7a", "a7", "1_000", "0x10", "1.0", "１",
        "18446744073709551616", "99999999999999999999", "184467440737095516150",
    ] {
        assert_eq!(parse_index(text), None, "{:?}", text);
    }
}

#[test]
fn parse_index_agrees_with_the_standard_parser() {
    let samples = [
        "", "+", "-", "0", "+0", "-0", "1", "+1", "-1", "00", "+00", "12345", "1 ", " 1",
        "18446744073709551615", "18446744073709551616", "+18446744073709551615", "1e3", "٣",
        "9223372036854775808", "++5", "5+", "+5+", "٠١٢", "12\n", "\t12",
    ];
    for text in samples {
        assert_eq!(parse_index(text), text.parse::<u64>().ok(), "{:?}", text);
    }
    for n in (0..2000u64).chain([u64::MAX, u64::MAX - 1, 1 << 63, 10u64.pow(19)]) {
        assert_eq!(parse_index(&n.to_string()), Some(n));
    }
}

#[test]
fn format_index_writes_decimal_digits() {
    assert_eq!(format_index(0), "0");
    assert_eq!(format_index(7), "7");
    assert_eq!(format_index(10), "10");
    assert_eq!(format_index(1234567890), "1234567890");
    assert_eq!(format_index(u64::MAX), "18446744073709551615");
}

#[test]
fn format_index_agrees_with_the_standard_formatter_and_reads_back() {
    for n in (0..2000u64).chain([u64::MAX, u64::MAX / 10, 99, 100, 101, 1 << 32]) {
        assert_eq!(format_index(n), n.to_string());
        assert_eq!(parse_index(&format_index(n)), Some(n));
    }
}

#[test]
fn endpoint_appends_the_resource_path() {
    assert_eq!(endpoint("https://gcopy.llaoj.cn"), "https://gcopy.llaoj.cn/api/v1/clipboard");
    assert_eq!(endpoint(""), "/api/v1/clipboard");
    assert_eq!(endpoint("http://host/"), "http://host//api/v1/clipboard");
}

#[test]
fn wire_names() {
    assert_eq!(INDEX_HEADER, "X-Index");
    assert_eq!(TYPE_HEADER, "X-Type");
    assert_eq!(PAYLOAD_MEDIA_TYPE, "application/octet-stream");
    assert_eq!(NOT_MODIFIED, 304);
}

#[test]
fn success_is_the_2xx_class() {
    for status in [200u16, 201, 204, 299] {
        assert!(status_is_success(status));
    }
    for status in [0u16, 100, 199, 300, 304, 404, 500, u16::MAX] {
        assert!(!status_is_success(status));
    }
}

#[test]
fn equality_helpers() {
    assert!(bytes_equal(b"", b""));
    assert!(bytes_equal(b"abc", b"abc"));
    assert!(!bytes_equal(b"abc", b"abd"));
    assert!(!bytes_equal(b"abc", b"ab"));
    assert!(!bytes_equal(b"ab", b"abc"));
    assert!(text_equal("text", "text"));
    assert!(!text_equal("text", "tex"));
    assert!(text_equal("é", "é"));
    assert!(!text_equal("é", "e"));
}
