use icx_nns::message::{MessageError, SignedMessageV1, MESSAGE_VERSION};
use icx_nns::principal::Principal;
use icx_nns::request_id::RequestId;
use icx_nns::timestamp::Timestamp;

fn template() -> SignedMessageV1 {
    SignedMessageV1::new(
        Timestamp { secs: 1_000, nanos: 0 },
        Timestamp { secs: 1_300, nanos: 0 },
        "local".to_string(),
        &Principal::from_slice(&vec![4]),
        &Principal::from_slice(&vec![0, 0, 0, 0, 0, 0, 0, 1, 1, 1]),
        "get_neuron_ids".to_string(),
        vec![68, 73, 68, 76, 0, 0],
    )
    .unwrap()
}

fn query_record() -> SignedMessageV1 {
    template().with_call_type("query".to_string()).with_content("a1b2".to_string())
}

fn update_record() -> SignedMessageV1 {
    template()
        .with_call_type("update".to_string())
        .with_request_id(RequestId::new(&[7u8; 32]))
        .with_content("a1b2".to_string())
}

#[test]
fn new_gives_the_template() {
    let m = template();
    assert_eq!(m.version, MESSAGE_VERSION);
    assert_eq!(m.version, 1);
    assert_eq!(m.creation, Timestamp { secs: 1_000, nanos: 0 });
    assert_eq!(m.expiration, Timestamp { secs: 1_300, nanos: 0 });
    assert_eq!(m.network, "local");
    assert_eq!(m.call_type, "");
    assert_eq!(m.sender, "2vxsx-fae");
    assert_eq!(m.canister_id, "rrkah-fqaaa-aaaaa-aaaaq-cai");
    assert_eq!(m.method_name, "get_neuron_ids");
    assert_eq!(m.arg, vec![68, 73, 68, 76, 0, 0]);
    assert_eq!(m.request_id, None);
    assert_eq!(m.content, "");
    assert_eq!(m.signed_request_status, None);
}

#[test]
fn new_refuses_an_expiration_that_is_not_later() {
    let p = Principal::from_slice(&vec![4]);
    let at = Timestamp { secs: 1_000, nanos: 5 };
    let same = SignedMessageV1::new(at, at, String::new(), &p, &p, String::new(), vec![]);
    assert_eq!(same.unwrap_err(), MessageError::ExpirationNotAfterCreation);
    let earlier = SignedMessageV1::new(
        at,
        Timestamp { secs: 999, nanos: 900 },
        String::new(),
        &p,
        &p,
        String::new(),
        vec![],
    );
    assert_eq!(earlier.unwrap_err(), MessageError::ExpirationNotAfterCreation);
    let by_a_nanosecond = SignedMessageV1::new(
        at,
        Timestamp { secs: 1_000, nanos: 6 },
        String::new(),
        &p,
        &p,
        String::new(),
        vec![],
    );
    assert!(by_a_nanosecond.is_ok());
}

#[test]
fn with_request_id_stores_the_canonical_text() {
    let m = update_record();
    assert_eq!(m.request_id, Some("07".repeat(32)));
}

#[test]
fn with_functions_leave_the_other_fields() {
    let m = update_record().with_signed_request_status("beef".to_string());
    assert_eq!(m.call_type, "update");
    assert_eq!(m.content, "a1b2");
    assert_eq!(m.signed_request_status, Some("beef".to_string()));
    assert_eq!(m.network, "local");
    assert_eq!(m.sender, "2vxsx-fae");
    assert_eq!(m.method_name, "get_neuron_ids");
    assert_eq!(m.arg, vec![68, 73, 68, 76, 0, 0]);
}

#[test]
fn clone_keeps_every_field() {
    let m = update_record().with_signed_request_status("beef".to_string());
    let c = m.clone();
    assert_eq!(c.version, m.version);
    assert_eq!(c.creation, m.creation);
    assert_eq!(c.expiration, m.expiration);
    assert_eq!(c.network, m.network);
    assert_eq!(c.call_type, m.call_type);
    assert_eq!(c.sender, m.sender);
    assert_eq!(c.canister_id, m.canister_id);
    assert_eq!(c.method_name, m.method_name);
    assert_eq!(c.arg, m.arg);
    assert_eq!(c.request_id, m.request_id);
    assert_eq!(c.content, m.content);
    assert_eq!(c.signed_request_status, m.signed_request_status);
}

#[test]
fn validate_accepts_query_and_update_records() {
    assert_eq!(query_record().validate(), Ok(()));
    assert_eq!(update_record().validate(), Ok(()));
    assert_eq!(update_record().with_signed_request_status("00ff".to_string()).validate(), Ok(()));
    assert_eq!(query_record().with_content(String::new()).validate(), Ok(()));
}

#[test]
fn validate_refuses_another_version() {
    let mut m = query_record();
    m.version = 2;
    assert_eq!(m.validate(), Err(MessageError::UnsupportedVersion));
    m.version = 0;
    assert_eq!(m.validate(), Err(MessageError::UnsupportedVersion));
}

#[test]
fn validate_refuses_an_expiration_that_is_not_later() {
    let mut m = query_record();
    m.expiration = m.creation;
    assert_eq!(m.validate(), Err(MessageError::ExpirationNotAfterCreation));
}

#[test]
fn validate_refuses_an_unknown_call_type() {
    assert_eq!(template().validate(), Err(MessageError::InvalidCallType));
    assert_eq!(
        query_record().with_call_type("QUERY".to_string()).validate(),
        Err(MessageError::InvalidCallType)
    );
}

#[test]
fn validate_refuses_content_that_is_not_hexadecimal() {
    assert_eq!(
        query_record().with_content("abc".to_string()).validate(),
        Err(MessageError::InvalidContent)
    );
    assert_eq!(
        update_record().with_content("xy".to_string()).validate(),
        Err(MessageError::InvalidContent)
    );
}

#[test]
fn validate_refuses_a_query_with_a_request_id() {
    let m = query_record().with_request_id(RequestId::new(&[1u8; 32]));
    assert_eq!(m.validate(), Err(MessageError::UnexpectedRequestId));
}

#[test]
fn validate_refuses_a_query_with_a_status_envelope() {
    let m = query_record().with_signed_request_status("00".to_string());
    assert_eq!(m.validate(), Err(MessageError::UnexpectedRequestStatus));
}

#[test]
fn validate_refuses_an_update_without_a_request_id() {
    let m = template().with_call_type("update".to_string()).with_content("00".to_string());
    assert_eq!(m.validate(), Err(MessageError::MissingRequestId));
}

#[test]
fn validate_refuses_a_malformed_request_id() {
    let mut m = update_record();
    m.request_id = Some("0707".to_string());
    assert_eq!(m.validate(), Err(MessageError::MalformedRequestId));
    m.request_id = Some("zz".repeat(32));
    assert_eq!(m.validate(), Err(MessageError::MalformedRequestId));
}

#[test]
fn validate_refuses_a_status_envelope_that_is_not_hexadecimal() {
    let m = update_record().with_signed_request_status("0".to_string());
    assert_eq!(m.validate(), Err(MessageError::InvalidRequestStatus));
}

#[test]
fn validate_names_the_first_defect() {
    let mut m = template().with_content("zz".to_string());
    m.version = 3;
    m.expiration = m.creation;
    assert_eq!(m.validate(), Err(MessageError::UnsupportedVersion));
    m.version = 1;
    assert_eq!(m.validate(), Err(MessageError::ExpirationNotAfterCreation));
    m.expiration = Timestamp { secs: 2_000, nanos: 0 };
    assert_eq!(m.validate(), Err(MessageError::InvalidCallType));
    let m = m.with_call_type("update".to_string());
    assert_eq!(m.validate(), Err(MessageError::InvalidContent));
}

#[test]
fn a_valid_record_has_a_request_id_exactly_when_it_is_an_update() {
    for m in [query_record(), update_record()] {
        assert_eq!(m.validate(), Ok(()));
        assert_eq!(m.call_type == "query", m.request_id.is_none());
    }
}

#[test]
fn kind_reads_the_call_type() {
    assert_eq!(query_record().kind(), Some(icx_nns::call_type::CallType::Query));
    assert_eq!(update_record().kind(), Some(icx_nns::call_type::CallType::Update));
    assert_eq!(template().kind(), None);
}

#[test]
fn every_error_has_its_sentence() {
    assert_eq!(MessageError::UnsupportedVersion.message(), "Invalid message: version must be 1");
    assert_eq!(
        MessageError::InvalidCallType.message(),
        "Invalid message: call_type must be `query` or `update`"
    );
    let all = [
        MessageError::UnsupportedVersion,
        MessageError::ExpirationNotAfterCreation,
        MessageError::InvalidCallType,
        MessageError::InvalidContent,
        MessageError::UnexpectedRequestId,
        MessageError::UnexpectedRequestStatus,
        MessageError::MissingRequestId,
        MessageError::MalformedRequestId,
        MessageError::InvalidRequestStatus,
    ];
    for (i, a) in all.iter().enumerate() {
        assert!(a.message().starts_with("Invalid message: "));
        for b in all.iter().skip(i + 1) {
            assert_ne!(a.message(), b.message());
        }
    }
}
