use icx_nns::principal::Principal;
use icx_nns::request_id::RequestId;

#[test]
fn text_of_the_management_canister() {
    assert_eq!(Principal::from_slice(&vec![]).to_text(), "aaaaa-aa");
}

#[test]
fn text_of_the_anonymous_principal() {
    assert_eq!(Principal::from_slice(&vec![4]).to_text(), "2vxsx-fae");
}

#[test]
fn text_of_a_principal_of_full_length() {
    let bytes: Vec<u8> = (0..29u8).collect();
    assert_eq!(
        Principal::from_slice(&bytes).to_text(),
        "2mhjn-ayaae-bagba-faydq-qcikb-mga2d-qpcai-reeyu-culbo-gazdi-nry"
    );
}

#[test]
fn from_text_gives_the_bytes() {
    let p = Principal::from_text("rrkah-fqaaa-aaaaa-aaaaq-cai").unwrap();
    assert_eq!(p.as_slice(), &vec![0, 0, 0, 0, 0, 0, 0, 1, 1, 1]);
}

#[test]
fn from_text_after_to_text_gives_the_principal_back() {
    let bytes: Vec<u8> = vec![9, 8, 7, 6, 5];
    let text = Principal::from_slice(&bytes).to_text();
    assert_eq!(Principal::from_text(&text).unwrap().as_slice(), &bytes);
}

#[test]
fn from_text_refuses_what_is_no_principal() {
    assert!(Principal::from_text("").is_none());
    assert!(Principal::from_text("not a principal").is_none());
    assert!(Principal::from_text("rrkah-fqaaa-aaaaa-aaaaq-caj").is_none());
    assert!(Principal::from_text("rrkahfqaaaaaaaaaaaaqcai").is_none());
}

#[test]
fn try_from_slice_takes_up_to_29_bytes() {
    assert!(Principal::try_from_slice(&vec![1; 29]).is_some());
    assert!(Principal::try_from_slice(&vec![1; 30]).is_none());
    assert_eq!(Principal::try_from_slice(&vec![7, 7]).unwrap().as_slice(), &vec![7, 7]);
}

#[test]
fn clone_keeps_the_bytes() {
    let p = Principal::from_slice(&vec![1, 2, 3]);
    assert_eq!(p.clone().as_slice(), p.as_slice());
}

#[test]
fn request_id_text_is_64_lower_case_digits() {
    let mut bytes = [0u8; 32];
    bytes[0] = 0xAB;
    bytes[31] = 0x01;
    let text = RequestId::new(&bytes).to_text();
    assert_eq!(text, "ab00000000000000000000000000000000000000000000000000000000000001");
}

#[test]
fn request_id_from_str_gives_the_bytes() {
    let id = RequestId::from_str(
        "AB00000000000000000000000000000000000000000000000000000000000001",
    )
    .unwrap();
    assert_eq!(id.bytes[0], 0xAB);
    assert_eq!(id.bytes[31], 1);
    assert_eq!(id.bytes[1..31], [0u8; 30]);
}

#[test]
fn request_id_from_str_refuses_other_lengths() {
    assert!(RequestId::from_str("").is_none());
    assert!(RequestId::from_str("ab").is_none());
    assert!(RequestId::from_str(&"0".repeat(63)).is_none());
    assert!(RequestId::from_str(&"0".repeat(66)).is_none());
    assert!(RequestId::from_str(&"0".repeat(64)).is_some());
}

#[test]
fn request_id_from_str_refuses_other_characters() {
    assert!(RequestId::from_str(&"g".repeat(64)).is_none());
    let with_prefix = format!("0x{}", "0".repeat(62));
    assert!(RequestId::from_str(&with_prefix).is_none());
}

#[test]
fn request_id_round_trip() {
    let mut bytes = [0u8; 32];
    for (i, b) in bytes.iter_mut().enumerate() {
        *b = (i * 7 + 3) as u8;
    }
    let id = RequestId::new(&bytes);
    assert_eq!(RequestId::from_str(&id.to_text()).unwrap().bytes, bytes);
}
