//! Signing without sending: from a call and a time to live to the record
//! that holds the signed envelopes.
use vstd::prelude::*;
use crate::message::{template_view, SignedMessageV1};
use crate::principal::Principal;
use crate::timestamp::Timestamp;

verus! {

/// The call to sign.
#[derive(Debug)]
pub struct CanisterPayload {
    pub canister_id: Principal,
    pub method_name: String,
    pub is_query: bool,
    pub arg: Vec<u8>,
}

/// What a signing run is asked for: the call, the network the envelope is
/// meant for, how long it stays valid, and the file that receives the record.
#[derive(Debug)]
pub struct SignPayload {
    pub payload: Option<CanisterPayload>,
    pub network: String,
    pub expire_after: String,
    pub file: String,
}

/// Why a signing run stops before anything is signed.
#[derive(Clone, Copy, Debug, PartialEq, Eq, Structural)]
pub enum SignError {
    /// The destination file exists already.
    DestinationExists,
    /// The time to live is no duration.
    InvalidDuration,
    /// The time to live is shorter than a second, so that the record would
    /// expire no later than it was created.
    ExpirationNotAfterCreation,
    /// The expiration lies past the last second that can be represented.
    ExpirationOverflow,
}

/// A time span: whole seconds, and the nanoseconds past them.
#[derive(Clone, Copy, Debug, PartialEq, Eq, Structural)]
pub struct TimeToLive {
    pub secs: u64,
    pub nanos: u32,
}

/// The span that a short human duration text such as `5m` or `1h 30m`
/// denotes, if it denotes one.
pub uninterp spec fn duration_of_text(text: Seq<char>) -> Option<TimeToLive>;

/// `humanize_rs::duration::parse`, with the span given by
/// `Duration::as_secs` and `Duration::subsec_nanos`: whether a text denotes a
/// span, and which, depends on the text alone.
#[verifier::external_body]
fn parse_duration(text: &str) -> (r: Option<TimeToLive>)
    ensures
        r == duration_of_text(text@),
{
    match humanize_rs::duration::parse(text) {
        Ok(d) => Some(TimeToLive { secs: d.as_secs(), nanos: d.subsec_nanos() }),
        Err(_) => None,
    }
}

/// What a signing run has settled before anything is signed.
#[derive(Debug)]
pub struct SigningPlan {
    /// The record, complete but for what signing adds.
    pub template: SignedMessageV1,
    /// The call to sign.
    pub call: CanisterPayload,
    /// How long the envelope stays valid.
    pub time_to_live: TimeToLive,
    /// The file that receives the record.
    pub file: String,
}

/// When the record of a run expires, or why the run is refused. The
/// destination is looked at first, then the time to live.
pub open spec fn planned_expiration(
    creation: Timestamp,
    destination_exists: bool,
    time_to_live: Option<TimeToLive>,
) -> Result<Timestamp, SignError> {
    if destination_exists {
        Err(SignError::DestinationExists)
    } else if time_to_live is None {
        Err(SignError::InvalidDuration)
    } else if time_to_live->Some_0.secs == 0 {
        Err(SignError::ExpirationNotAfterCreation)
    } else if creation.secs + time_to_live->Some_0.secs > i64::MAX {
        Err(SignError::ExpirationOverflow)
    } else {
        Ok(
            Timestamp {
                secs: (creation.secs + time_to_live->Some_0.secs) as i64,
                nanos: creation.nanos,
            },
        )
    }
}

/// Whether a plan is the one for the given request.
pub open spec fn is_plan_for(
    plan: SigningPlan,
    opts: SignPayload,
    sender: Seq<u8>,
    creation: Timestamp,
    expiration: Timestamp,
    time_to_live: TimeToLive,
) -> bool {
    let call = opts.payload->Some_0;
    &&& plan.template@ == template_view(
        creation,
        expiration,
        opts.network@,
        sender,
        call.canister_id@,
        call.method_name@,
        call.arg@,
    )
    &&& plan.call.canister_id@ == call.canister_id@
    &&& plan.call.method_name@ == call.method_name@
    &&& plan.call.is_query == call.is_query
    &&& plan.call.arg@ == call.arg@
    &&& plan.time_to_live == time_to_live
    &&& plan.file@ == opts.file@
}

/// Settles a signing run, given the span that the time to live denotes. The
/// run is refused, in this order, where the destination exists, where the
/// time to live is no duration, where it is shorter than a second, and where
/// the expiration cannot be represented. Otherwise the plan holds the record
/// template, which expires the whole seconds of the span after `creation`.
pub fn plan_signing(
    opts: SignPayload,
    sender: &Principal,
    creation: Timestamp,
    destination_exists: bool,
    time_to_live: Option<TimeToLive>,
) -> (r: Result<SigningPlan, SignError>)
    requires
        opts.payload is Some,
    ensures
        match planned_expiration(creation, destination_exists, time_to_live) {
            Ok(expiration) => r is Ok && creation.is_before(expiration) && is_plan_for(
                r->Ok_0,
                opts,
                sender@,
                creation,
                expiration,
                time_to_live->Some_0,
            ),
            Err(e) => r is Err && r->Err_0 == e,
        },
{
    if destination_exists {
        return Err(SignError::DestinationExists);
    }
    let ttl = match time_to_live {
        Some(t) => t,
        None => {
            return Err(SignError::InvalidDuration);
        },
    };
    if ttl.secs == 0 {
        return Err(SignError::ExpirationNotAfterCreation);
    }
    let expiration = match creation.checked_add_seconds(ttl.secs) {
        Some(e) => e,
        None => {
            return Err(SignError::ExpirationOverflow);
        },
    };
    let SignPayload { payload, network, expire_after: _, file } = opts;
    let call = payload.unwrap();
    let template = SignedMessageV1::new(
        creation,
        expiration,
        network,
        sender,
        &call.canister_id,
        call.method_name.clone(),
        call.arg.clone(),
    ).unwrap();
    Ok(SigningPlan { template, call, time_to_live: ttl, file })
}

/// Settles a signing run: reads the time to live and plans as
/// `plan_signing` does.
pub fn sign_message(
    opts: SignPayload,
    sender: &Principal,
    creation: Timestamp,
    destination_exists: bool,
) -> (r: Result<SigningPlan, SignError>)
    requires
        opts.payload is Some,
    ensures
        destination_exists ==> r is Err && r->Err_0 == SignError::DestinationExists,
        match planned_expiration(
            creation,
            destination_exists,
            duration_of_text(opts.expire_after@),
        ) {
            Ok(expiration) => r is Ok && creation.is_before(expiration) && is_plan_for(
                r->Ok_0,
                opts,
                sender@,
                creation,
                expiration,
                duration_of_text(opts.expire_after@)->Some_0,
            ),
            Err(e) => r is Err && r->Err_0 == e,
        },
{
    let time_to_live = parse_duration(opts.expire_after.as_str());
    plan_signing(opts, sender, creation, destination_exists, time_to_live)
}

} // verus!
