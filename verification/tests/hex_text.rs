use icx_nns::hex_text::{decode_payload, encode_payload};

#[test]
fn encode_gives_lower_case_digits() {
    assert_eq!(encode_payload(&vec![0x00, 0x0f, 0xa5, 0xff]), "000fa5ff");
}

#[test]
fn encode_of_nothing_is_empty() {
    assert_eq!(encode_payload(&vec![]), "");
}

#[test]
fn decode_takes_both_cases() {
    assert_eq!(decode_payload("0Fa5fF"), Some(vec![0x0f, 0xa5, 0xff]));
}

#[test]
fn decode_refuses_odd_length() {
    assert_eq!(decode_payload("abc"), None);
}

#[test]
fn decode_refuses_other_characters() {
    assert_eq!(decode_payload("zz"), None);
    assert_eq!(decode_payload("0x12"), None);
    assert_eq!(decode_payload("é"), None);
}

#[test]
fn decode_of_encode_gives_the_bytes_back() {
    let all: Vec<u8> = (0..=255u8).collect();
    assert_eq!(decode_payload(&encode_payload(&all)), Some(all));
    assert_eq!(decode_payload(&encode_payload(&vec![])), Some(vec![]));
}
