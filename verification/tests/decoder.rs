use remote_shutdown::decoder::{decode, decode_chunk, decode_payload, encode, text_of};
use remote_shutdown::error::ServerError;
use remote_shutdown::text::{after_marker, bytes_equal, chars_of, find_char, trim};

fn pairs(items: &[(&str, &str)]) -> Vec<(String, String)> {
    items.iter().map(|(k, v)| (k.to_string(), v.to_string())).collect()
}

#[test]
fn decode_key_value_and_bare_key() {
    assert_eq!(decode("off=light&foo"), pairs(&[("off", "light"), ("foo", "")]));
}

#[test]
fn decode_empty_payload_is_empty() {
    assert_eq!(decode(""), Vec::<(String, String)>::new());
}

#[test]
fn decode_single_segment() {
    assert_eq!(decode("off=1"), pairs(&[("off", "1")]));
    assert_eq!(decode("off"), pairs(&[("off", "")]));
    assert_eq!(decode("off="), pairs(&[("off", "")]));
    assert_eq!(decode("=x"), pairs(&[("", "x")]));
}

#[test]
fn decode_splits_at_first_equals_only() {
    assert_eq!(decode("a=b=c&d==e"), pairs(&[("a", "b=c"), ("d", "=e")]));
}

#[test]
fn decode_keeps_duplicates_in_order() {
    assert_eq!(
        decode("off=1&on=2&off=3"),
        pairs(&[("off", "1"), ("on", "2"), ("off", "3")])
    );
}

#[test]
fn decode_keeps_empty_segments() {
    assert_eq!(decode("a=1&"), pairs(&[("a", "1"), ("", "")]));
    assert_eq!(decode("&a=1"), pairs(&[("", ""), ("a", "1")]));
    assert_eq!(decode("a&&b"), pairs(&[("a", ""), ("", ""), ("b", "")]));
    assert_eq!(decode("&"), pairs(&[("", ""), ("", "")]));
}

#[test]
fn decode_handles_non_ascii_text() {
    assert_eq!(decode("clé=été&日本=語"), pairs(&[("clé", "été"), ("日本", "語")]));
}

#[test]
fn decode_then_encode_gives_the_payload_back() {
    for payload in ["", "off=light", "off=light&foo=", "a=b=c&d==e", "k=1&k=2&k=1", "=&="] {
        assert_eq!(encode(&decode(payload)), payload);
    }
}

#[test]
fn encode_writes_pairs_in_order() {
    assert_eq!(encode(&pairs(&[])), "");
    assert_eq!(encode(&pairs(&[("off", "light")])), "off=light");
    assert_eq!(encode(&pairs(&[("off", "light"), ("foo", "")])), "off=light&foo=");
    assert_eq!(encode(&pairs(&[("a", "1"), ("b", "2"), ("c", "3")])), "a=1&b=2&c=3");
}

#[test]
fn text_of_accepts_utf8_and_rejects_the_rest() {
    assert_eq!(text_of(b"off=1".to_vec()).unwrap(), "off=1");
    assert_eq!(text_of("clé=été".as_bytes().to_vec()).unwrap(), "clé=été");
    assert_eq!(text_of(Vec::new()).unwrap(), "");
    assert!(matches!(text_of(vec![0xff, 0xfe]), Err(ServerError::Decode)));
    assert!(matches!(text_of(vec![b'a', 0xc3]), Err(ServerError::Decode)));
}

#[test]
fn payload_is_trimmed_and_decoded_whole() {
    assert_eq!(
        decode_payload(b"  off=light&foo \r\n".to_vec()).unwrap(),
        pairs(&[("off", "light"), ("foo", "")])
    );
    assert_eq!(
        decode_payload(b"msg=off=1".to_vec()).unwrap(),
        pairs(&[("msg", "off=1")])
    );
    assert_eq!(decode_payload(b" \t\r\n".to_vec()).unwrap(), pairs(&[]));
    assert_eq!(decode_payload(b"a b=c d".to_vec()).unwrap(), pairs(&[("a b", "c d")]));
}

#[test]
fn payload_that_is_not_utf8_is_a_decode_error() {
    assert!(matches!(decode_payload(vec![b'o', b'f', b'f', 0x80]), Err(ServerError::Decode)));
}

#[test]
fn chunk_is_decoded_behind_the_marker() {
    assert_eq!(
        decode_chunk(b"cmd=2&uid=u&topic=light&msg=off=1&x=2\r\n".to_vec()).unwrap(),
        pairs(&[("off", "1"), ("x", "2")])
    );
    assert_eq!(decode_chunk(b"msg=off\r\n".to_vec()).unwrap(), pairs(&[("off", "")]));
    assert_eq!(decode_chunk(b"msg= off=1 ".to_vec()).unwrap(), pairs(&[("off", "1")]));
    assert_eq!(
        decode_chunk(b"msg=a=1&msg=b".to_vec()).unwrap(),
        pairs(&[("a", "1"), ("msg", "b")])
    );
    assert_eq!(decode_chunk(b"msg=".to_vec()).unwrap(), pairs(&[]));
}

#[test]
fn chunk_without_marker_is_discarded() {
    assert_eq!(decode_chunk(b"cmd=0&res=1\r\n".to_vec()).unwrap(), pairs(&[]));
    assert_eq!(decode_chunk(b"off=1".to_vec()).unwrap(), pairs(&[]));
    assert_eq!(decode_chunk(b"msg".to_vec()).unwrap(), pairs(&[]));
    assert_eq!(decode_chunk(Vec::new()).unwrap(), pairs(&[]));
}

#[test]
fn chunk_that_is_not_utf8_is_a_decode_error() {
    assert!(matches!(decode_chunk(vec![b'm', b's', b'g', b'=', 0xff]), Err(ServerError::Decode)));
}

#[test]
fn trim_removes_white_space_at_both_ends_only() {
    assert_eq!(trim("  a b \r\n"), "a b");
    assert_eq!(trim("a"), "a");
    assert_eq!(trim(""), "");
    assert_eq!(trim(" \t\n"), "");
    assert_eq!(trim("\u{2003}x\u{a0}"), "x");
    assert_eq!(trim("x y"), "x y");
}

#[test]
fn after_marker_finds_the_first_marker() {
    assert_eq!(after_marker("msg=off"), Some("off"));
    assert_eq!(after_marker("a&msg=off=1&msg=2"), Some("off=1&msg=2"));
    assert_eq!(after_marker("msg="), Some(""));
    assert_eq!(after_marker("mmsg=x"), Some("x"));
    assert_eq!(after_marker("ms=g"), None);
    assert_eq!(after_marker("msg"), None);
    assert_eq!(after_marker(""), None);
    assert_eq!(after_marker("é msg=ü"), Some("ü"));
}

#[test]
fn find_char_gives_first_position_or_end() {
    let chars = chars_of("a=b=c");
    assert_eq!(chars, vec!['a', '=', 'b', '=', 'c']);
    assert_eq!(find_char(&chars, 0, 5, '='), 1);
    assert_eq!(find_char(&chars, 2, 5, '='), 3);
    assert_eq!(find_char(&chars, 4, 5, '='), 5);
    assert_eq!(find_char(&chars, 0, 1, '='), 1);
    assert_eq!(find_char(&chars, 0, 0, 'a'), 0);
}

#[test]
fn bytes_equal_compares_contents() {
    assert!(bytes_equal(b"ping", b"ping"));
    assert!(bytes_equal(b"", b""));
    assert!(!bytes_equal(b"ping", b"pong"));
    assert!(!bytes_equal(b"ping", b"pin"));
    assert!(!bytes_equal(b"", b"p"));
}
