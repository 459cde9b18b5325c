use keyscan::base64::{check_b64, decode_b64};

#[test]
fn decode_empty() {
    assert_eq!(decode_b64("").unwrap(), Vec::<u8>::new());
}

#[test]
fn decode_one_byte() {
    assert_eq!(decode_b64("Zg==").unwrap(), b"f".to_vec());
}

#[test]
fn decode_two_bytes() {
    assert_eq!(decode_b64("Zm8=").unwrap(), b"fo".to_vec());
}

#[test]
fn decode_three_bytes() {
    assert_eq!(decode_b64("Zm9v").unwrap(), b"foo".to_vec());
}

#[test]
fn decode_classic_vector() {
    assert_eq!(decode_b64("TWFu").unwrap(), b"Man".to_vec());
}

#[test]
fn decode_six_bytes() {
    assert_eq!(decode_b64("Zm9vYmFy").unwrap(), b"foobar".to_vec());
}

#[test]
fn decode_zero_bytes_group() {
    assert_eq!(decode_b64("AAAA").unwrap(), vec![0u8, 0, 0]);
}

#[test]
fn decode_plus_and_slash() {
    assert_eq!(decode_b64("+/+/").unwrap(), vec![0xfb, 0xff, 0xbf]);
}

#[test]
fn reject_length_not_multiple_of_four() {
    assert!(decode_b64("Zg=").is_none());
    assert!(decode_b64("Z").is_none());
}

#[test]
fn reject_bad_characters() {
    assert!(decode_b64("Zm9*").is_none());
    assert!(decode_b64("Z 9v").is_none());
}

#[test]
fn reject_padding_in_the_middle() {
    assert!(decode_b64("Z=9v").is_none());
    assert!(decode_b64("=AAA").is_none());
    assert!(decode_b64("A==A").is_none());
}

#[test]
fn reject_three_padding_characters() {
    assert!(decode_b64("Z===").is_none());
    assert!(decode_b64("====").is_none());
}

#[test]
fn check_matches_decode() {
    for text in ["", "Zm9v", "Zm8=", "Zg==", "Zg=", "Z===", "!!!!"] {
        assert_eq!(check_b64(text), decode_b64(text).is_some());
    }
}
