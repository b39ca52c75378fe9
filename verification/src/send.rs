//! Sending a kept record: what to transmit, after which confirmation, and
//! what each answer of the network means.
use vstd::prelude::*;
use vstd::string::*;
use crate::call_type::{call_type_of, same_text, CallType};
use crate::hex_text::{bytes_to_hex, decode_payload, hex_to_bytes};
use crate::message::{
    first_defect, lemma_valid_message_request_id, MessageError, MessageView, SignedMessageV1,
};
use crate::principal::{principal_from_text, Principal};
use crate::request_id::RequestId;
use crate::sign_transport::{
    is_template, lemma_captured_records, query_record, update_record, with_status,
};

verus! {

/// What the send command is asked for.
#[derive(Debug)]
pub struct SendOpts {
    /// The file that holds the record.
    pub file_name: String,
    /// Whether to ask for the status of the call in place of sending it.
    pub status: bool,
}

/// The state of an update call, as the network reports it.
#[derive(Debug)]
pub enum RequestStatusResponse {
    /// The network knows nothing of the request.
    Unknown,
    /// The request has been received.
    Received,
    /// The request is being processed.
    Processing,
    /// The call has been answered.
    Replied { reply: Vec<u8> },
    /// The call has been rejected.
    Rejected { reject_code: u64, reject_message: String },
    /// The call has ended and its answer is no longer kept.
    Done,
}

/// The answer to a query.
#[derive(Debug)]
pub enum QueryResponse {
    /// The query has been answered.
    Replied { reply: Vec<u8> },
    /// The query has been rejected.
    Rejected { reject_code: u64, reject_message: String },
}

/// Why sending fails.
#[derive(Debug)]
pub enum SendError {
    /// The record is refused.
    InvalidMessage(MessageError),
    /// The canister id of the record denotes no principal.
    InvalidCanisterId,
    /// The status was asked of a record that is no update.
    StatusOfNonUpdate,
    /// The status was asked of a record without a status envelope.
    MissingRequestStatus,
    /// The network rejected the call.
    Rejected { reject_code: u64, reject_message: String },
    /// The call ended and the network kept no answer.
    DoneNoReply { request_id: String },
}

/// One transmission of a signed envelope.
#[derive(Debug)]
pub enum Transmission {
    /// Send the envelope of a query and take the answer.
    Query { canister_id: Principal, envelope: Vec<u8> },
    /// Submit the envelope of an update call.
    Call { canister_id: Principal, envelope: Vec<u8>, request_id: RequestId },
    /// Send the envelope of a status request and take the state it reports
    /// for the request id.
    ReadState { canister_id: Principal, envelope: Vec<u8>, request_id: RequestId },
}

/// What the send command does first.
#[derive(Debug)]
pub enum SendStep {
    /// Transmit at once: a status request changes nothing.
    Transmit(Transmission),
    /// Show the record and transmit only after the operator has agreed.
    Confirm(Transmission),
}

/// What sends the given record, stated over the contents alone: whether
/// `step` is the first step for `message`, asked with or without the status
/// flag, to the canister with the given bytes.
pub open spec fn is_first_step(
    step: SendStep,
    message: MessageView,
    status: bool,
    canister_id: Seq<u8>,
) -> bool {
    if status {
        &&& step matches SendStep::Transmit(
            Transmission::ReadState { canister_id: c, envelope, request_id },
        )
        &&& c@ == canister_id
        &&& envelope@ == hex_to_bytes(message.signed_request_status->Some_0)
        &&& request_id@ == hex_to_bytes(message.request_id->Some_0)
    } else if call_type_of(message.call_type) == Some(CallType::Query) {
        &&& step matches SendStep::Confirm(Transmission::Query { canister_id: c, envelope })
        &&& c@ == canister_id
        &&& envelope@ == hex_to_bytes(message.content)
    } else {
        &&& step matches SendStep::Confirm(
            Transmission::Call { canister_id: c, envelope, request_id },
        )
        &&& c@ == canister_id
        &&& envelope@ == hex_to_bytes(message.content)
        &&& request_id@ == hex_to_bytes(message.request_id->Some_0)
    }
}

/// The reason for which a record cannot be sent, or `None` where it can.
/// The record is checked first, then its canister id; a status request needs
/// an update record, and that record needs its status envelope.
pub open spec fn send_refusal(message: MessageView, status: bool, canister_known: bool) -> Option<
    SendError,
> {
    if first_defect(message) is Some {
        Some(SendError::InvalidMessage(first_defect(message)->Some_0))
    } else if !canister_known {
        Some(SendError::InvalidCanisterId)
    } else if status && call_type_of(message.call_type) != Some(CallType::Update) {
        Some(SendError::StatusOfNonUpdate)
    } else if status && message.signed_request_status is None {
        Some(SendError::MissingRequestStatus)
    } else {
        None
    }
}

/// Decides the first step of sending `message`, given the principal that
/// its canister id denotes, if it denotes one.
pub fn first_step(opts: &SendOpts, message: &SignedMessageV1, canister_id: Option<Principal>) -> (r:
    Result<SendStep, SendError>)
    ensures
        match send_refusal(message@, opts.status, canister_id is Some) {
            Some(e) => r is Err && r->Err_0 == e,
            None => r is Ok && is_first_step(
                r->Ok_0,
                message@,
                opts.status,
                canister_id->Some_0@,
            ),
        },
{
    match message.validate() {
        Err(e) => {
            return Err(SendError::InvalidMessage(e));
        },
        Ok(()) => {},
    }
    proof {
        lemma_valid_message_request_id(message@);
    }
    let canister_id = match canister_id {
        Some(c) => c,
        None => {
            return Err(SendError::InvalidCanisterId);
        },
    };
    let kind = message.kind();
    if opts.status {
        match kind {
            Some(CallType::Update) => {},
            _ => {
                return Err(SendError::StatusOfNonUpdate);
            },
        }
        let envelope = match &message.signed_request_status {
            Some(text) => decode_payload(text.as_str()).unwrap(),
            None => {
                return Err(SendError::MissingRequestStatus);
            },
        };
        let request_id = stored_request_id(message);
        Ok(SendStep::Transmit(Transmission::ReadState { canister_id, envelope, request_id }))
    } else {
        let envelope = decode_payload(message.content.as_str()).unwrap();
        match kind {
            Some(CallType::Query) => Ok(
                SendStep::Confirm(Transmission::Query { canister_id, envelope }),
            ),
            _ => {
                let request_id = stored_request_id(message);
                Ok(SendStep::Confirm(Transmission::Call { canister_id, envelope, request_id }))
            },
        }
    }
}

/// The request id that an accepted update record carries.
fn stored_request_id(message: &SignedMessageV1) -> (id: RequestId)
    requires
        message@.request_id is Some,
        crate::request_id::is_request_id_text(message@.request_id->Some_0),
    ensures
        id@ == hex_to_bytes(message@.request_id->Some_0),
{
    let text = message.request_id.as_ref().unwrap();
    RequestId::from_str(text.as_str()).unwrap()
}

/// Decides the first step of sending `message`: reads its canister id and
/// decides as `first_step` does.
pub fn exec(opts: &SendOpts, message: &SignedMessageV1) -> (r: Result<SendStep, SendError>)
    ensures
        match send_refusal(
            message@,
            opts.status,
            principal_from_text(message@.canister_id) is Some,
        ) {
            Some(e) => r is Err && r->Err_0 == e,
            None => r is Ok && is_first_step(
                r->Ok_0,
                message@,
                opts.status,
                principal_from_text(message@.canister_id)->Some_0,
            ),
        },
{
    let canister_id = Principal::from_text(message.canister_id.as_str());
    first_step(opts, message, canister_id)
}

/// The text with its letters in lower case.
pub uninterp spec fn lowercase_of(text: Seq<char>) -> Seq<char>;

/// The text without the white space at its two ends.
pub uninterp spec fn trimmed(text: Seq<char>) -> Seq<char>;

/// `str::to_lowercase`: the lower-case form depends on the text alone.
#[verifier::external_body]
fn to_lowercase(text: &str) -> (r: String)
    ensures
        r@ == lowercase_of(text@),
{
    text.to_lowercase()
}

/// `str::trim`: the trimmed text depends on the text alone.
#[verifier::external_body]
fn trim(text: &str) -> (r: &str)
    ensures
        r@ == trimmed(text@),
{
    text.trim()
}

/// The two answers that agree to a transmission.
pub open spec fn is_yes_text(answer: Seq<char>) -> bool {
    answer == "y"@ || answer == "yes"@
}

/// Whether an answer, already trimmed and in lower case, agrees: only `y`
/// and `yes` do.
pub fn is_yes(answer: &str) -> (r: bool)
    ensures
        r == is_yes_text(answer@),
{
    same_text(answer, "y") || same_text(answer, "yes")
}

/// Whether what the operator typed agrees to the transmission: its
/// lower-case form, trimmed, is `y` or `yes`.
pub fn is_affirmative(input: &str) -> (r: bool)
    ensures
        r == is_yes_text(trimmed(lowercase_of(input@))),
{
    let lower = to_lowercase(input);
    is_yes(trim(lower.as_str()))
}

/// The transmission to make after the operator has answered: the one that
/// was held back where the answer agrees, and none otherwise.
pub fn confirm(transmission: Transmission, input: &str) -> (r: Option<Transmission>)
    ensures
        r is Some <==> is_yes_text(trimmed(lowercase_of(input@))),
        r matches Some(t) ==> t == transmission,
{
    if is_affirmative(input) {
        Some(transmission)
    } else {
        None
    }
}

/// What a status check has to report where the call did not fail.
#[derive(Debug)]
pub enum StatusReport {
    /// The reply of the call, to be decoded and printed.
    Reply(Vec<u8>),
    /// The call has been received and is processing.
    Processing,
    /// The network has no information on the call yet.
    NothingYet,
}

/// The states after which the state of a call changes no more.
pub open spec fn is_terminal(status: RequestStatusResponse) -> bool {
    status is Replied || status is Rejected || status is Done
}

/// Whether the state of a call changes no more.
pub fn terminal(status: &RequestStatusResponse) -> (r: bool)
    ensures
        r == is_terminal(*status),
{
    match status {
        RequestStatusResponse::Replied { .. } => true,
        RequestStatusResponse::Rejected { .. } => true,
        RequestStatusResponse::Done => true,
        _ => false,
    }
}

/// What one reported state of an update call means. A reply is reported with
/// its bytes. A rejection fails with the code and the message of the
/// network. A call that ended without a kept answer fails with the request
/// id. A call that is received or processing is reported as processing, and
/// of an unknown call there is nothing to report.
pub fn on_request_status(status: RequestStatusResponse, request_id: &RequestId) -> (r: Result<
    StatusReport,
    SendError,
>)
    ensures
        match status {
            RequestStatusResponse::Replied { reply } => r matches Ok(StatusReport::Reply(b))
                && b@ == reply@,
            RequestStatusResponse::Rejected { reject_code, reject_message } => r matches Err(
                SendError::Rejected { reject_code: c, reject_message: m },
            ) && c == reject_code && m@ == reject_message@,
            RequestStatusResponse::Done => r matches Err(SendError::DoneNoReply { request_id: t })
                && t@ == bytes_to_hex(request_id@),
            RequestStatusResponse::Received => r matches Ok(StatusReport::Processing),
            RequestStatusResponse::Processing => r matches Ok(StatusReport::Processing),
            RequestStatusResponse::Unknown => r matches Ok(StatusReport::NothingYet),
        },
        r is Err <==> status is Rejected || status is Done,
{
    match status {
        RequestStatusResponse::Replied { reply } => Ok(StatusReport::Reply(reply)),
        RequestStatusResponse::Rejected { reject_code, reject_message } => Err(
            SendError::Rejected { reject_code, reject_message },
        ),
        RequestStatusResponse::Done => Err(
            SendError::DoneNoReply { request_id: request_id.to_text() },
        ),
        RequestStatusResponse::Received => Ok(StatusReport::Processing),
        RequestStatusResponse::Processing => Ok(StatusReport::Processing),
        RequestStatusResponse::Unknown => Ok(StatusReport::NothingYet),
    }
}

/// What the answer to a query has to report.
#[derive(Debug)]
pub enum QueryReport {
    /// The reply, to be decoded and printed.
    Reply(Vec<u8>),
    /// The rejection, to be shown with its code and message.
    Rejection { reject_code: u64, reject_message: String },
}

/// What the answer to a query means: a reply is reported with its bytes, a
/// rejection with its code and message. Neither fails.
pub fn on_query_response(response: QueryResponse) -> (r: QueryReport)
    ensures
        match response {
            QueryResponse::Replied { reply } => r matches QueryReport::Reply(b) && b@ == reply@,
            QueryResponse::Rejected { reject_code, reject_message } => r matches QueryReport::Rejection {
                reject_code: c,
                reject_message: m,
            } && c == reject_code && m@ == reject_message@,
        },
{
    match response {
        QueryResponse::Replied { reply } => QueryReport::Reply(reply),
        QueryResponse::Rejected { reject_code, reject_message } => QueryReport::Rejection {
            reject_code,
            reject_message,
        },
    }
}

/// What is shown after an update call has been submitted, for a later
/// status check.
#[derive(Debug)]
pub struct SubmissionReport {
    /// The request id: `0x` and 64 hexadecimal digits.
    pub request_id: String,
    /// The canister id in its textual form.
    pub canister_id: String,
}

/// What to show after an update call has been submitted.
pub fn on_call_submitted(request_id: &RequestId, canister_id: &Principal) -> (r: SubmissionReport)
    ensures
        r.request_id@ == "0x"@ + bytes_to_hex(request_id@),
        r.canister_id@ == crate::principal::principal_text(canister_id@),
{
    let mut text = String::from_str("0x");
    let digits = request_id.to_text();
    text.append(digits.as_str());
    SubmissionReport { request_id: text, canister_id: canister_id.to_text() }
}

/// A label with a value behind it.
pub fn labelled(label: &str, value: &str) -> (line: String)
    ensures
        line@ == label@ + value@,
{
    let mut line = String::from_str(label);
    line.append(value);
    line
}

/// The lines that show a record to the operator before it is sent: a
/// heading, then the creation, the expiration, the network, the call type,
/// the sender, the canister id, the method name and the argument, each
/// behind its label.
pub open spec fn summary_of(
    m: MessageView,
    creation: Seq<char>,
    expiration: Seq<char>,
    arg: Seq<char>,
) -> Seq<Seq<char>> {
    seq![
        "Will send message:"@,
        "  Creation:    "@ + creation,
        "  Expiration:  "@ + expiration,
        "  Network:     "@ + m.network,
        "  Call type:   "@ + m.call_type,
        "  Sender:      "@ + m.sender,
        "  Canister id: "@ + m.canister_id,
        "  Method name: "@ + m.method_name,
        "  Arg:         "@ + arg,
    ]
}

/// The characters of each line.
pub open spec fn lines_view(lines: Seq<String>) -> Seq<Seq<char>> {
    Seq::new(lines.len(), |i: int| lines[i]@)
}

/// The lines that show a record to the operator before it is sent, given
/// the two points in time and the argument as they are to be shown.
pub fn summary(message: &SignedMessageV1, creation: &str, expiration: &str, arg: &str) -> (lines:
    Vec<String>)
    ensures
        lines_view(lines@) == summary_of(message@, creation@, expiration@, arg@),
{
    let mut lines: Vec<String> = Vec::new();
    lines.push(String::from_str("Will send message:"));
    lines.push(labelled("  Creation:    ", creation));
    lines.push(labelled("  Expiration:  ", expiration));
    lines.push(labelled("  Network:     ", message.network.as_str()));
    lines.push(labelled("  Call type:   ", message.call_type.as_str()));
    lines.push(labelled("  Sender:      ", message.sender.as_str()));
    lines.push(labelled("  Canister id: ", message.canister_id.as_str()));
    lines.push(labelled("  Method name: ", message.method_name.as_str()));
    lines.push(labelled("  Arg:         ", arg));
    assert(lines_view(lines@) =~= summary_of(message@, creation@, expiration@, arg@));
    lines
}

/// What signing keeps can be sent: a record captured from a template is not
/// refused for sending as long as its canister id denotes a principal, and
/// its status can be asked exactly when it is an update with its status
/// envelope.
pub proof fn lemma_captured_record_can_be_sent(
    template: MessageView,
    envelope: Seq<u8>,
    request_id: Seq<u8>,
    status_envelope: Seq<u8>,
)
    requires
        is_template(template),
        request_id.len() == 32,
    ensures
        send_refusal(query_record(template, envelope), false, true) is None,
        send_refusal(update_record(template, envelope, request_id), false, true) is None,
        send_refusal(
            with_status(update_record(template, envelope, request_id), status_envelope),
            false,
            true,
        ) is None,
        send_refusal(
            with_status(update_record(template, envelope, request_id), status_envelope),
            true,
            true,
        ) is None,
        send_refusal(query_record(template, envelope), true, true) == Some(
            SendError::StatusOfNonUpdate,
        ),
        send_refusal(update_record(template, envelope, request_id), true, true) == Some(
            SendError::MissingRequestStatus,
        ),
{
    lemma_captured_records(template, envelope, request_id, status_envelope);
}

} // verus!
