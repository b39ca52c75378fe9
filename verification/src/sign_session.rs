//! The course of a signing run: which envelope to ask the signer for next,
//! and when the record is written.
use vstd::prelude::*;
use crate::message::{is_valid_message, MessageView, SignedMessageV1};
use crate::request_id::RequestId;
use crate::sign_transport::{
    is_template, lemma_captured_records, query_record, update_record, with_status,
    SignReplicaV2Transport,
};

verus! {

/// Where a signing run stands.
#[derive(Clone, Copy, Debug, PartialEq, Eq, Structural)]
pub enum SignPhase {
    /// Nothing has been asked for yet.
    Ready,
    /// The envelope of the call has been asked for.
    AwaitingCall,
    /// The envelope of the status request has been asked for.
    AwaitingRequestStatus,
    /// The record has been handed out for writing.
    Written,
    /// The run has stopped without a record.
    Failed,
}

/// What the signer reported.
#[derive(Debug)]
pub enum SignEvent {
    /// The run begins.
    Start,
    /// The envelope of the call, with its request id where the call is an
    /// update.
    CallSigned { envelope: Vec<u8>, request_id: Option<RequestId> },
    /// The envelope of the status request.
    RequestStatusSigned { envelope: Vec<u8> },
    /// The signer failed.
    SigningFailed,
}

/// What is to be done next.
#[derive(Debug)]
pub enum SignAction {
    /// Have the call signed.
    SignCall,
    /// Have the status request for this request id signed.
    SignRequestStatus(RequestId),
    /// Write this record to the file, and end.
    WriteRecord(SignedMessageV1),
    /// End without writing anything.
    Stop,
}

/// A signing run.
#[derive(Debug)]
pub struct SignSession {
    pub transport: SignReplicaV2Transport,
    pub is_query: bool,
    pub phase: SignPhase,
    pub pending: Option<SignedMessageV1>,
}

/// The record that waits for its status envelope, if there is one.
pub open spec fn pending_view(pending: Option<SignedMessageV1>) -> Option<MessageView> {
    match pending {
        Some(m) => Some(m@),
        None => None,
    }
}

/// The phase after an event.
pub open spec fn next_phase(
    phase: SignPhase,
    is_query: bool,
    has_pending: bool,
    event: SignEvent,
) -> SignPhase {
    match (phase, event) {
        (SignPhase::Ready, SignEvent::Start) => SignPhase::AwaitingCall,
        (SignPhase::AwaitingCall, SignEvent::CallSigned { envelope, request_id }) => {
            if is_query {
                if request_id is None {
                    SignPhase::Written
                } else {
                    SignPhase::Failed
                }
            } else if request_id is Some {
                SignPhase::AwaitingRequestStatus
            } else {
                SignPhase::Failed
            }
        },
        (SignPhase::AwaitingRequestStatus, SignEvent::RequestStatusSigned { envelope }) => {
            if has_pending {
                SignPhase::Written
            } else {
                SignPhase::Failed
            }
        },
        _ => SignPhase::Failed,
    }
}

impl SignSession {
    /// The run holds a record that waits for its status envelope exactly
    /// while that envelope is awaited, and that record is the update record
    /// captured from the template.
    pub open spec fn well_formed(&self) -> bool {
        &&& is_template(self.transport.message_template@)
        &&& self.pending is Some <==> self.phase == SignPhase::AwaitingRequestStatus
        &&& self.pending is Some ==> !self.is_query && exists|envelope: Seq<u8>, id: Seq<u8>|
            id.len() == 32 && #[trigger] update_record(
                self.transport.message_template@,
                envelope,
                id,
            ) == self.pending->Some_0@
    }

    /// A run that has asked for nothing yet.
    pub fn new(transport: SignReplicaV2Transport, is_query: bool) -> (s: SignSession)
        requires
            is_template(transport.message_template@),
        ensures
            s.well_formed(),
            s.phase == SignPhase::Ready,
            s.is_query == is_query,
            s.transport.message_template@ == transport.message_template@,
            s.transport.file_name@ == transport.file_name@,
    {
        SignSession { transport, is_query, phase: SignPhase::Ready, pending: None }
    }

    /// Whether the run has ended.
    pub fn is_finished(&self) -> (r: bool)
        ensures
            r == (self.phase == SignPhase::Written || self.phase == SignPhase::Failed),
    {
        match self.phase {
            SignPhase::Written => true,
            SignPhase::Failed => true,
            _ => false,
        }
    }

    /// Takes one event and says what is to be done next. A query is signed
    /// once and then written. An update is signed, then its status request is
    /// signed, and only then is the record written, with both envelopes. Any
    /// failure, and any event that the phase does not expect, ends the run
    /// with nothing written.
    pub fn step(&mut self, event: SignEvent) -> (action: SignAction)
        requires
            old(self).well_formed(),
        ensures
            final(self).well_formed(),
            final(self).is_query == old(self).is_query,
            final(self).transport.message_template@ == old(self).transport.message_template@,
            final(self).transport.file_name@ == old(self).transport.file_name@,
            final(self).phase == next_phase(
                old(self).phase,
                old(self).is_query,
                old(self).pending is Some,
                event,
            ),
            match final(self).phase {
                SignPhase::AwaitingCall => action is SignCall,
                SignPhase::AwaitingRequestStatus => action is SignRequestStatus
                    && action->SignRequestStatus_0@ == event->CallSigned_request_id->Some_0@
                    && final(self).pending->Some_0@ == update_record(
                    old(self).transport.message_template@,
                    event->CallSigned_envelope@,
                    event->CallSigned_request_id->Some_0@,
                ),
                SignPhase::Written => action is WriteRecord && is_valid_message(
                    action->WriteRecord_0@,
                ) && action->WriteRecord_0@ == (if old(self).is_query {
                    query_record(
                        old(self).transport.message_template@,
                        event->CallSigned_envelope@,
                    )
                } else {
                    with_status(
                        old(self).pending->Some_0@,
                        event->RequestStatusSigned_envelope@,
                    )
                }),
                _ => action is Stop,
            },
    {
        let phase = self.phase;
        match (phase, event) {
            (SignPhase::Ready, SignEvent::Start) => {
                self.phase = SignPhase::AwaitingCall;
                SignAction::SignCall
            },
            (SignPhase::AwaitingCall, SignEvent::CallSigned { envelope, request_id }) => {
                if self.is_query {
                    match request_id {
                        None => {
                            let record = self.transport.query(&envelope);
                            self.phase = SignPhase::Written;
                            SignAction::WriteRecord(record)
                        },
                        Some(_) => {
                            self.phase = SignPhase::Failed;
                            SignAction::Stop
                        },
                    }
                } else {
                    match request_id {
                        Some(id) => {
                            let record = self.transport.call(&envelope, id);
                            proof {
                                assert(id@.len() == 32);
                            }
                            self.pending = Some(record);
                            self.phase = SignPhase::AwaitingRequestStatus;
                            SignAction::SignRequestStatus(id)
                        },
                        None => {
                            self.phase = SignPhase::Failed;
                            SignAction::Stop
                        },
                    }
                }
            },
            (SignPhase::AwaitingRequestStatus, SignEvent::RequestStatusSigned { envelope }) => {
                let pending = self.pending.take();
                self.phase = SignPhase::Failed;
                match pending {
                    Some(record) => {
                        proof {
                            let w = choose|e: Seq<u8>, id: Seq<u8>|
                                id.len() == 32 && #[trigger] update_record(
                                    self.transport.message_template@,
                                    e,
                                    id,
                                ) == record@;
                            lemma_captured_records(
                                self.transport.message_template@,
                                w.0,
                                w.1,
                                envelope@,
                            );
                        }
                        let full = self.transport.read_state(record, &envelope).unwrap();
                        self.phase = SignPhase::Written;
                        SignAction::WriteRecord(full)
                    },
                    None => SignAction::Stop,
                }
            },
            _ => {
                self.pending = None;
                self.phase = SignPhase::Failed;
                SignAction::Stop
            },
        }
    }
}

/// A record is handed out for writing only on the step that ends the run as
/// written, so that a run writes at most once, and a run that failed wrote
/// nothing on that step.
pub proof fn lemma_write_ends_the_run(
    phase: SignPhase,
    is_query: bool,
    has_pending: bool,
    event: SignEvent,
)
    ensures
        (phase == SignPhase::Written || phase == SignPhase::Failed) ==> next_phase(
            phase,
            is_query,
            has_pending,
            event,
        ) == SignPhase::Failed,
        event is SigningFailed ==> next_phase(phase, is_query, has_pending, event)
            == SignPhase::Failed,
        next_phase(phase, is_query, has_pending, event) == SignPhase::Written ==> (phase
            == SignPhase::AwaitingCall && is_query) || (phase
            == SignPhase::AwaitingRequestStatus && has_pending),
{
}

} // verus!
