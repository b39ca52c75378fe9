//! The commands: for each, the call it makes, and whether that call is made
//! now or signed for later.
use vstd::prelude::*;
use vstd::string::*;
use crate::principal::Principal;
use crate::send::SendOpts;
use crate::sign::{CanisterPayload, SignPayload};

pub mod governance;
pub mod ledger;
pub mod neuron;
pub mod principal;

verus! {

/// The commands of the client.
#[derive(Debug)]
pub enum Command {
    GetPrincipal(principal::GetPrincipalOpts),
    Governance(governance::GovernanceOpts),
    Ledger(ledger::LedgerOpts),
    Neuron(neuron::NeuronOpts),
    Send(SendOpts),
}

/// The service a command addresses.
#[derive(Clone, Copy, Debug, PartialEq, Eq, Structural)]
pub enum Area {
    Principal,
    Governance,
    Ledger,
    Neuron,
    Send,
}

/// Why a command is refused before any call is made.
#[derive(Clone, Copy, Debug, PartialEq, Eq, Structural)]
pub enum CommandError {
    /// The command needs a neuron id and none was given.
    MissingNeuronId,
    /// A neuron id was given to a command that takes none.
    UnneededNeuronId(u64),
    /// The dissolve delay is to be increased and no delay was given.
    MissingDissolveDelay,
    /// The controller is no principal.
    InvalidController,
    /// An amount is refused.
    Amount(crate::nns_types::utils::AmountError),
}

/// What is to be done with the call of a command.
#[derive(Debug)]
pub enum Dispatch {
    /// Sign the call and keep it, as the signing request says.
    Sign(SignPayload),
    /// Make the call now.
    Call(CanisterPayload),
}

/// Whether a payload holds the given call.
pub open spec fn is_call(
    payload: CanisterPayload,
    canister_id: Seq<u8>,
    method_name: Seq<char>,
    is_query: bool,
    arg: Seq<u8>,
) -> bool {
    &&& payload.canister_id@ == canister_id
    &&& payload.method_name@ == method_name
    &&& payload.is_query == is_query
    &&& payload.arg@ == arg
}

/// Whether `d` is what is to be done with the given call: signed as the
/// signing request says, with the call as its payload, where there is such a
/// request, and made now where there is none.
pub open spec fn is_dispatch_of(
    d: Dispatch,
    canister_id: Seq<u8>,
    method_name: Seq<char>,
    is_query: bool,
    arg: Seq<u8>,
    maybe_sign_payload: Option<SignPayload>,
) -> bool {
    match maybe_sign_payload {
        Some(request) => {
            &&& d matches Dispatch::Sign(s)
            &&& s.payload is Some
            &&& is_call(s.payload->Some_0, canister_id, method_name, is_query, arg)
            &&& s.network@ == request.network@
            &&& s.expire_after@ == request.expire_after@
            &&& s.file@ == request.file@
        },
        None => {
            &&& d matches Dispatch::Call(c)
            &&& is_call(c, canister_id, method_name, is_query, arg)
        },
    }
}

/// Decides what is to be done with a call: with a signing request it
/// becomes the payload of that request, whatever payload the request held,
/// and without one it is made now.
pub fn dispatch(
    canister_id: Principal,
    method_name: &str,
    is_query: bool,
    arg: Vec<u8>,
    maybe_sign_payload: Option<SignPayload>,
) -> (d: Dispatch)
    ensures
        is_dispatch_of(d, canister_id@, method_name@, is_query, arg@, maybe_sign_payload),
{
    let call = CanisterPayload {
        canister_id,
        method_name: String::from_str(method_name),
        is_query,
        arg,
    };
    match maybe_sign_payload {
        Some(request) => {
            let SignPayload { payload: _, network, expire_after, file } = request;
            Dispatch::Sign(SignPayload { payload: Some(call), network, expire_after, file })
        },
        None => Dispatch::Call(call),
    }
}

/// The service that a command addresses.
pub fn exec(cmd: &Command) -> (area: Area)
    ensures
        area == match cmd {
            Command::GetPrincipal(_) => Area::Principal,
            Command::Governance(_) => Area::Governance,
            Command::Ledger(_) => Area::Ledger,
            Command::Neuron(_) => Area::Neuron,
            Command::Send(_) => Area::Send,
        },
{
    match cmd {
        Command::GetPrincipal(_) => Area::Principal,
        Command::Governance(_) => Area::Governance,
        Command::Ledger(_) => Area::Ledger,
        Command::Neuron(_) => Area::Neuron,
        Command::Send(_) => Area::Send,
    }
}

} // verus!
