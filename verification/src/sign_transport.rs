//! The capturing transport: it takes the place of the network while a call
//! is signed, and turns each signed envelope into the record to keep.
use vstd::prelude::*;
use vstd::string::*;
use crate::call_type::{
    call_type_of, lemma_call_type_words_differ, query_text, update_text, CallType,
};
use crate::hex_text::{bytes_to_hex, encode_payload, hex_to_bytes};
use crate::message::{is_valid_message, MessageView, SignedMessageV1, MESSAGE_VERSION};
use crate::request_id::RequestId;

verus! {

/// A record as it stands before signing: of the accepted version, expiring
/// after its creation, with no request id and no status envelope yet.
pub open spec fn is_template(m: MessageView) -> bool {
    &&& m.version == MESSAGE_VERSION
    &&& m.creation.is_before(m.expiration)
    &&& m.request_id is None
    &&& m.signed_request_status is None
}

/// The record of a signed query: the template with the call type `query`
/// and the envelope as its content.
pub open spec fn query_record(template: MessageView, envelope: Seq<u8>) -> MessageView {
    MessageView { call_type: query_text(), content: bytes_to_hex(envelope), ..template }
}

/// The record of a signed update, before its status envelope is there: the
/// template with the call type `update`, the request id and the envelope.
pub open spec fn update_record(
    template: MessageView,
    envelope: Seq<u8>,
    request_id: Seq<u8>,
) -> MessageView {
    MessageView {
        call_type: update_text(),
        request_id: Some(bytes_to_hex(request_id)),
        content: bytes_to_hex(envelope),
        ..template
    }
}

/// A record with the status envelope added.
pub open spec fn with_status(record: MessageView, envelope: Seq<u8>) -> MessageView {
    MessageView { signed_request_status: Some(bytes_to_hex(envelope)), ..record }
}

/// Why a status envelope cannot be added to a record.
#[derive(Clone, Copy, Debug, PartialEq, Eq, Structural)]
pub enum CaptureError {
    /// The record is not an accepted update record.
    NotAnUpdate,
    /// The record has a status envelope already.
    StatusAlreadyCaptured,
}

/// The transport that captures instead of sending.
#[derive(Debug)]
pub struct SignReplicaV2Transport {
    pub file_name: String,
    pub message_template: SignedMessageV1,
}

impl SignReplicaV2Transport {
    /// A capturing transport for one record.
    pub fn new(file_name: String, message_template: SignedMessageV1) -> (t:
        SignReplicaV2Transport)
        ensures
            t.file_name@ == file_name@,
            t.message_template@ == message_template@,
    {
        SignReplicaV2Transport { file_name, message_template }
    }

    /// Captures a signed query: the record to keep in place of sending.
    pub fn query(&self, envelope: &Vec<u8>) -> (m: SignedMessageV1)
        ensures
            m@ == query_record(self.message_template@, envelope@),
            is_template(self.message_template@) ==> is_valid_message(m@),
            hex_to_bytes(m@.content) == envelope@,
    {
        proof {
            lemma_call_type_words_differ();
        }
        self.message_template.clone().with_call_type(String::from_str("query")).with_content(
            encode_payload(envelope),
        )
    }

    /// Captures a signed update call: the record to keep in place of
    /// sending, which still lacks its status envelope.
    pub fn call(&self, envelope: &Vec<u8>, request_id: RequestId) -> (m: SignedMessageV1)
        ensures
            m@ == update_record(self.message_template@, envelope@, request_id@),
            is_template(self.message_template@) ==> is_valid_message(m@),
            hex_to_bytes(m@.content) == envelope@,
            hex_to_bytes(m@.request_id->Some_0) == request_id@,
    {
        proof {
            lemma_call_type_words_differ();
            crate::hex_text::lemma_hex_round_trip(request_id@);
        }
        self.message_template.clone().with_call_type(
            String::from_str("update"),
        ).with_request_id(request_id).with_content(encode_payload(envelope))
    }

    /// Captures the signed status request of an update call: the record with
    /// the envelope added. Only an accepted update record that has none yet
    /// takes one.
    pub fn read_state(&self, record: SignedMessageV1, envelope: &Vec<u8>) -> (r: Result<
        SignedMessageV1,
        CaptureError,
    >)
        ensures
            !is_valid_message(record@) || call_type_of(record@.call_type) != Some(
                CallType::Update,
            ) ==> r is Err && r->Err_0 == CaptureError::NotAnUpdate,
            is_valid_message(record@) && call_type_of(record@.call_type) == Some(
                CallType::Update,
            ) && record@.signed_request_status is Some ==> r is Err && r->Err_0
                == CaptureError::StatusAlreadyCaptured,
            is_valid_message(record@) && call_type_of(record@.call_type) == Some(
                CallType::Update,
            ) && record@.signed_request_status is None ==> r is Ok && r->Ok_0@ == with_status(
                record@,
                envelope@,
            ) && is_valid_message(r->Ok_0@) && hex_to_bytes(
                r->Ok_0@.signed_request_status->Some_0,
            ) == envelope@,
    {
        if record.validate().is_err() {
            return Err(CaptureError::NotAnUpdate);
        }
        match record.kind() {
            Some(CallType::Update) => {},
            _ => {
                return Err(CaptureError::NotAnUpdate);
            },
        }
        if record.signed_request_status.is_some() {
            return Err(CaptureError::StatusAlreadyCaptured);
        }
        Ok(record.with_signed_request_status(encode_payload(envelope)))
    }
}

/// Whatever is captured from a template is an accepted record. A captured
/// query carries neither a request id nor a status envelope; a captured
/// update carries its request id, and both once its status envelope is
/// added. The stored envelopes and the request id decode to the bytes that
/// were signed.
pub proof fn lemma_captured_records(
    template: MessageView,
    envelope: Seq<u8>,
    request_id: Seq<u8>,
    status_envelope: Seq<u8>,
)
    requires
        is_template(template),
        request_id.len() == 32,
    ensures
        is_valid_message(query_record(template, envelope)),
        call_type_of(query_record(template, envelope).call_type) == Some(CallType::Query),
        call_type_of(update_record(template, envelope, request_id).call_type) == Some(
            CallType::Update,
        ),
        with_status(
            update_record(template, envelope, request_id),
            status_envelope,
        ).request_id is Some,
        with_status(
            update_record(template, envelope, request_id),
            status_envelope,
        ).signed_request_status is Some,
        query_record(template, envelope).request_id is None,
        query_record(template, envelope).signed_request_status is None,
        is_valid_message(update_record(template, envelope, request_id)),
        update_record(template, envelope, request_id).request_id is Some,
        is_valid_message(
            with_status(update_record(template, envelope, request_id), status_envelope),
        ),
        hex_to_bytes(query_record(template, envelope).content) == envelope,
        hex_to_bytes(update_record(template, envelope, request_id).content) == envelope,
        hex_to_bytes(update_record(template, envelope, request_id).request_id->Some_0)
            == request_id,
        hex_to_bytes(
            with_status(
                update_record(template, envelope, request_id),
                status_envelope,
            ).signed_request_status->Some_0,
        ) == status_envelope,
{
    lemma_call_type_words_differ();
    crate::hex_text::lemma_hex_round_trip(envelope);
    crate::hex_text::lemma_hex_round_trip(request_id);
    crate::hex_text::lemma_hex_round_trip(status_envelope);
}

} // verus!
