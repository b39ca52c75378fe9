//! The message record: a signed call kept for later submission.
use vstd::prelude::*;
use vstd::string::*;
use crate::call_type::{call_type_of, CallType};
use crate::hex_text::{decode_payload, is_hex_text};
use crate::principal::{principal_text, Principal};
use crate::request_id::{is_request_id_text, RequestId};
use crate::timestamp::Timestamp;

verus! {

/// The record version that this library writes and accepts.
pub const MESSAGE_VERSION: usize = 1;

/// What a record can be refused for.
#[derive(Clone, Copy, Debug, PartialEq, Eq, Structural)]
pub enum MessageError {
    /// The version is not the one this library accepts.
    UnsupportedVersion,
    /// The expiration is not strictly after the creation.
    ExpirationNotAfterCreation,
    /// The call type is neither `query` nor `update`.
    InvalidCallType,
    /// The content is not hexadecimal text.
    InvalidContent,
    /// A query record carries a request id.
    UnexpectedRequestId,
    /// A query record carries a status envelope.
    UnexpectedRequestStatus,
    /// An update record carries no request id.
    MissingRequestId,
    /// The request id is not the hexadecimal text of 32 bytes.
    MalformedRequestId,
    /// The status envelope is not hexadecimal text.
    InvalidRequestStatus,
}

/// A signed call, as it is kept between signing and sending.
#[derive(Debug)]
pub struct SignedMessageV1 {
    pub version: usize,
    pub creation: Timestamp,
    pub expiration: Timestamp,
    pub network: String,
    pub call_type: String,
    pub sender: String,
    pub canister_id: String,
    pub method_name: String,
    pub arg: Vec<u8>,
    pub request_id: Option<String>,
    pub content: String,
    pub signed_request_status: Option<String>,
}

/// The mathematical content of a record.
pub struct MessageView {
    pub version: nat,
    pub creation: Timestamp,
    pub expiration: Timestamp,
    pub network: Seq<char>,
    pub call_type: Seq<char>,
    pub sender: Seq<char>,
    pub canister_id: Seq<char>,
    pub method_name: Seq<char>,
    pub arg: Seq<u8>,
    pub request_id: Option<Seq<char>>,
    pub content: Seq<char>,
    pub signed_request_status: Option<Seq<char>>,
}

/// The characters of an optional text.
pub open spec fn optional_text(text: Option<String>) -> Option<Seq<char>> {
    match text {
        Some(t) => Some(t@),
        None => None,
    }
}

impl View for SignedMessageV1 {
    type V = MessageView;

    open spec fn view(&self) -> MessageView {
        MessageView {
            version: self.version as nat,
            creation: self.creation,
            expiration: self.expiration,
            network: self.network@,
            call_type: self.call_type@,
            sender: self.sender@,
            canister_id: self.canister_id@,
            method_name: self.method_name@,
            arg: self.arg@,
            request_id: optional_text(self.request_id),
            content: self.content@,
            signed_request_status: optional_text(self.signed_request_status),
        }
    }
}

/// The first thing, in the order of checking, for which a record is refused,
/// or `None` for a record that is accepted.
pub open spec fn first_defect(m: MessageView) -> Option<MessageError> {
    if m.version != MESSAGE_VERSION {
        Some(MessageError::UnsupportedVersion)
    } else if !m.creation.is_before(m.expiration) {
        Some(MessageError::ExpirationNotAfterCreation)
    } else if call_type_of(m.call_type) is None {
        Some(MessageError::InvalidCallType)
    } else if !is_hex_text(m.content) {
        Some(MessageError::InvalidContent)
    } else if call_type_of(m.call_type) == Some(CallType::Query) {
        if m.request_id is Some {
            Some(MessageError::UnexpectedRequestId)
        } else if m.signed_request_status is Some {
            Some(MessageError::UnexpectedRequestStatus)
        } else {
            None
        }
    } else if m.request_id is None {
        Some(MessageError::MissingRequestId)
    } else if !is_request_id_text(m.request_id->Some_0) {
        Some(MessageError::MalformedRequestId)
    } else if m.signed_request_status is Some && !is_hex_text(m.signed_request_status->Some_0) {
        Some(MessageError::InvalidRequestStatus)
    } else {
        None
    }
}

/// A record that can be sent: one with no defect.
pub open spec fn is_valid_message(m: MessageView) -> bool {
    first_defect(m) is None
}

/// The template of a record: what is known of a call before it is signed.
pub open spec fn template_view(
    creation: Timestamp,
    expiration: Timestamp,
    network: Seq<char>,
    sender: Seq<u8>,
    canister_id: Seq<u8>,
    method_name: Seq<char>,
    arg: Seq<u8>,
) -> MessageView {
    MessageView {
        version: MESSAGE_VERSION as nat,
        creation,
        expiration,
        network,
        call_type: Seq::empty(),
        sender: principal_text(sender),
        canister_id: principal_text(canister_id),
        method_name,
        arg,
        request_id: None,
        content: Seq::empty(),
        signed_request_status: None,
    }
}

impl Clone for SignedMessageV1 {
    fn clone(&self) -> (m: SignedMessageV1)
        ensures
            m@ == self@,
    {
        SignedMessageV1 {
            version: self.version,
            creation: self.creation,
            expiration: self.expiration,
            network: self.network.clone(),
            call_type: self.call_type.clone(),
            sender: self.sender.clone(),
            canister_id: self.canister_id.clone(),
            method_name: self.method_name.clone(),
            arg: self.arg.clone(),
            request_id: clone_optional_text(&self.request_id),
            content: self.content.clone(),
            signed_request_status: clone_optional_text(&self.signed_request_status),
        }
    }
}

/// A copy of an optional text.
pub fn clone_optional_text(text: &Option<String>) -> (r: Option<String>)
    ensures
        optional_text(r) == optional_text(*text),
{
    match text {
        Some(t) => Some(t.clone()),
        None => None,
    }
}

impl MessageError {
    /// The sentence that describes the error.
    pub open spec fn text(&self) -> Seq<char> {
        match self {
            MessageError::UnsupportedVersion => "Invalid message: version must be 1"@,
            MessageError::ExpirationNotAfterCreation =>
                "Invalid message: expiration must be after creation"@,
            MessageError::InvalidCallType =>
                "Invalid message: call_type must be `query` or `update`"@,
            MessageError::InvalidContent => "Invalid message: content must be hexadecimal"@,
            MessageError::UnexpectedRequestId =>
                "Invalid message: a query carries no request_id"@,
            MessageError::UnexpectedRequestStatus =>
                "Invalid message: a query carries no signed_request_status"@,
            MessageError::MissingRequestId => "Invalid message: an update needs a request_id"@,
            MessageError::MalformedRequestId =>
                "Invalid message: request_id must be 64 hexadecimal digits"@,
            MessageError::InvalidRequestStatus =>
                "Invalid message: signed_request_status must be hexadecimal"@,
        }
    }

    /// The sentence that describes the error.
    pub fn message(&self) -> (r: String)
        ensures
            r@ == self.text(),
    {
        match self {
            MessageError::UnsupportedVersion => String::from_str(
                "Invalid message: version must be 1",
            ),
            MessageError::ExpirationNotAfterCreation => String::from_str(
                "Invalid message: expiration must be after creation",
            ),
            MessageError::InvalidCallType => String::from_str(
                "Invalid message: call_type must be `query` or `update`",
            ),
            MessageError::InvalidContent => String::from_str(
                "Invalid message: content must be hexadecimal",
            ),
            MessageError::UnexpectedRequestId => String::from_str(
                "Invalid message: a query carries no request_id",
            ),
            MessageError::UnexpectedRequestStatus => String::from_str(
                "Invalid message: a query carries no signed_request_status",
            ),
            MessageError::MissingRequestId => String::from_str(
                "Invalid message: an update needs a request_id",
            ),
            MessageError::MalformedRequestId => String::from_str(
                "Invalid message: request_id must be 64 hexadecimal digits",
            ),
            MessageError::InvalidRequestStatus => String::from_str(
                "Invalid message: signed_request_status must be hexadecimal",
            ),
        }
    }
}

impl SignedMessageV1 {
    /// The template of a record for a call that is yet to be signed. A
    /// record whose expiration is not strictly after its creation is refused.
    pub fn new(
        creation: Timestamp,
        expiration: Timestamp,
        network: String,
        sender: &Principal,
        canister_id: &Principal,
        method_name: String,
        arg: Vec<u8>,
    ) -> (r: Result<SignedMessageV1, MessageError>)
        ensures
            creation.is_before(expiration) ==> r is Ok && r->Ok_0@ == template_view(
                creation,
                expiration,
                network@,
                sender@,
                canister_id@,
                method_name@,
                arg@,
            ),
            !creation.is_before(expiration) ==> r == Err::<SignedMessageV1, MessageError>(
                MessageError::ExpirationNotAfterCreation,
            ),
    {
        if !creation.before(&expiration) {
            return Err(MessageError::ExpirationNotAfterCreation);
        }
        Ok(
            SignedMessageV1 {
                version: MESSAGE_VERSION,
                creation,
                expiration,
                network,
                call_type: String::new(),
                sender: sender.to_text(),
                canister_id: canister_id.to_text(),
                method_name,
                arg,
                request_id: None,
                content: String::new(),
                signed_request_status: None,
            },
        )
    }

    /// The record with its call type set.
    pub fn with_call_type(self, request_type: String) -> (m: SignedMessageV1)
        ensures
            m@ == (MessageView { call_type: request_type@, ..self@ }),
    {
        let mut m = self;
        m.call_type = request_type;
        m
    }

    /// The record with the request id set to the canonical text of `request_id`.
    pub fn with_request_id(self, request_id: RequestId) -> (m: SignedMessageV1)
        ensures
            m@ == (MessageView {
                request_id: Some(crate::hex_text::bytes_to_hex(request_id@)),
                ..self@
            }),
            is_request_id_text(m@.request_id->Some_0),
    {
        let mut m = self;
        m.request_id = Some(request_id.to_text());
        m
    }

    /// The record with its content set.
    pub fn with_content(self, content: String) -> (m: SignedMessageV1)
        ensures
            m@ == (MessageView { content: content@, ..self@ }),
    {
        let mut m = self;
        m.content = content;
        m
    }

    /// The record with its status envelope set.
    pub fn with_signed_request_status(self, signed_request_status: String) -> (m:
        SignedMessageV1)
        ensures
            m@ == (MessageView {
                signed_request_status: Some(signed_request_status@),
                ..self@
            }),
    {
        let mut m = self;
        m.signed_request_status = Some(signed_request_status);
        m
    }

    /// The kind of call the record carries, if its call type names one.
    pub fn kind(&self) -> (r: Option<CallType>)
        ensures
            r == call_type_of(self@.call_type),
    {
        CallType::from_text(self.call_type.as_str())
    }

    /// Checks the record, and names the first defect of one that is refused.
    pub fn validate(&self) -> (r: Result<(), MessageError>)
        ensures
            r is Ok <==> is_valid_message(self@),
            r matches Err(e) ==> first_defect(self@) == Some(e),
    {
        if self.version != MESSAGE_VERSION {
            return Err(MessageError::UnsupportedVersion);
        }
        if !self.creation.before(&self.expiration) {
            return Err(MessageError::ExpirationNotAfterCreation);
        }
        let kind = match self.kind() {
            Some(k) => k,
            None => {
                return Err(MessageError::InvalidCallType);
            },
        };
        if decode_payload(self.content.as_str()).is_none() {
            return Err(MessageError::InvalidContent);
        }
        match kind {
            CallType::Query => {
                if self.request_id.is_some() {
                    return Err(MessageError::UnexpectedRequestId);
                }
                if self.signed_request_status.is_some() {
                    return Err(MessageError::UnexpectedRequestStatus);
                }
                Ok(())
            },
            CallType::Update => {
                match &self.request_id {
                    None => {
                        return Err(MessageError::MissingRequestId);
                    },
                    Some(id) => {
                        if RequestId::from_str(id.as_str()).is_none() {
                            return Err(MessageError::MalformedRequestId);
                        }
                    },
                }
                match &self.signed_request_status {
                    None => {},
                    Some(envelope) => {
                        if decode_payload(envelope.as_str()).is_none() {
                            return Err(MessageError::InvalidRequestStatus);
                        }
                    },
                }
                Ok(())
            },
        }
    }
}

/// A record that is accepted carries a request id exactly when it is an
/// update, and a status envelope only when it is an update.
pub proof fn lemma_valid_message_request_id(m: MessageView)
    requires
        is_valid_message(m),
    ensures
        call_type_of(m.call_type) is Some,
        call_type_of(m.call_type) == Some(CallType::Query) <==> m.request_id is None,
        call_type_of(m.call_type) == Some(CallType::Update) <==> m.request_id is Some,
        m.signed_request_status is Some ==> call_type_of(m.call_type) == Some(CallType::Update),
        m.creation.is_before(m.expiration),
{
}

} // verus!
