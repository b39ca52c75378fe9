//! Waiting for the outcome of an update call: a fixed pause between status
//! checks, for no longer than the envelope is valid.
use vstd::prelude::*;
use crate::request_id::RequestId;
use crate::send::{is_terminal, on_request_status, RequestStatusResponse, SendError, StatusReport};
use crate::timestamp::Timestamp;

verus! {

/// The pause between two status checks, in seconds.
pub const POLL_INTERVAL_SECS: u64 = 1;

/// How to wait between status checks.
#[derive(Clone, Copy, Debug, PartialEq, Eq, Structural)]
pub struct Waiter {
    /// The pause between two checks, in seconds.
    pub throttle_secs: u64,
}

/// The waiter of this client: one check a second.
pub fn create_waiter() -> (w: Waiter)
    ensures
        w.throttle_secs == POLL_INTERVAL_SECS,
{
    Waiter { throttle_secs: POLL_INTERVAL_SECS }
}

/// What to do after a status check.
#[derive(Debug)]
pub enum PollAction {
    /// The call has ended: this is its outcome, to be reported once.
    Outcome(Result<StatusReport, SendError>),
    /// Pause for this many seconds, then check again.
    WaitAndPoll { secs: u64 },
    /// The envelope has expired before the call ended: stop checking.
    Expired,
    /// The polling has ended before: there is nothing more to do.
    Nothing,
}

/// The polling of one update call.
#[derive(Debug)]
pub struct Poller {
    pub request_id: RequestId,
    pub expiration: Timestamp,
    pub waiter: Waiter,
    pub finished: bool,
}

impl Poller {
    /// The polling of the call with the given request id, whose envelope is
    /// valid until `expiration`.
    pub fn new(request_id: RequestId, expiration: Timestamp) -> (p: Poller)
        ensures
            p.request_id@ == request_id@,
            p.expiration == expiration,
            p.waiter.throttle_secs == POLL_INTERVAL_SECS,
            !p.finished,
    {
        Poller { request_id, expiration, waiter: create_waiter(), finished: false }
    }

    /// Takes the state that one check reported at the time `now`. A state
    /// that changes no more ends the polling with the outcome of the call.
    /// Any other state asks for a pause and another check while the envelope
    /// is valid, and ends the polling once it has expired. After the end
    /// nothing is reported again.
    pub fn step(&mut self, status: RequestStatusResponse, now: Timestamp) -> (action: PollAction)
        ensures
            final(self).request_id@ == old(self).request_id@,
            final(self).expiration == old(self).expiration,
            final(self).waiter == old(self).waiter,
            old(self).finished ==> final(self).finished && action is Nothing,
            !old(self).finished && is_terminal(status) ==> final(self).finished
                && action is Outcome && outcome_of(
                action->Outcome_0,
                status,
                old(self).request_id@,
            ),
            !old(self).finished && !is_terminal(status) && now.is_before(old(self).expiration)
                ==> !final(self).finished && action is WaitAndPoll && action->WaitAndPoll_secs
                == old(self).waiter.throttle_secs,
            !old(self).finished && !is_terminal(status) && !now.is_before(old(self).expiration)
                ==> final(self).finished && action is Expired,
    {
        if self.finished {
            return PollAction::Nothing;
        }
        match status {
            RequestStatusResponse::Replied { .. }
            | RequestStatusResponse::Rejected { .. }
            | RequestStatusResponse::Done => {
                self.finished = true;
                PollAction::Outcome(on_request_status(status, &self.request_id))
            },
            _ => {
                if now.before(&self.expiration) {
                    PollAction::WaitAndPoll { secs: self.waiter.throttle_secs }
                } else {
                    self.finished = true;
                    PollAction::Expired
                }
            },
        }
    }
}

/// Whether `outcome` is what a final state of the call with the given
/// request id means: the reply, or the failure that carries the rejection or
/// the request id.
pub open spec fn outcome_of(
    outcome: Result<StatusReport, SendError>,
    status: RequestStatusResponse,
    request_id: Seq<u8>,
) -> bool {
    match status {
        RequestStatusResponse::Replied { reply } => outcome matches Ok(StatusReport::Reply(b))
            && b@ == reply@,
        RequestStatusResponse::Rejected { reject_code, reject_message } => outcome matches Err(
            SendError::Rejected { reject_code: c, reject_message: m },
        ) && c == reject_code && m@ == reject_message@,
        RequestStatusResponse::Done => outcome matches Err(SendError::DoneNoReply { request_id: t })
            && t@ == crate::hex_text::bytes_to_hex(request_id),
        _ => false,
    }
}

} // verus!
