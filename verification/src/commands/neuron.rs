//! The commands on neurons.
use vstd::prelude::*;
use vstd::string::*;
use crate::call_type::same_text;
use crate::commands::{dispatch, is_dispatch_of, CommandError, Dispatch};
use crate::message::optional_text;
use crate::nns_types::governance::{
    governance_canister_bytes, governance_canister_id, ledger_canister_bytes,
    ledger_canister_id,
};
use crate::nns_types::utils::{
    amount_of_args, amount_of_parsed, decimal_of_text, get_governance_subaccount,
    get_icpts_from_args, icpts_from_str, sha256, subaccount_preimage, AmountError, ICPTs, Memo,
    Subaccount,
};
use crate::nns_types::account::{account_preimage, sha224, AccountIdentifier};
use crate::principal::Principal;
use crate::sign::SignPayload;

verus! {

/// Get the full neuron information.
#[derive(Clone, Copy, Debug)]
pub struct GetFullNeuronOpts {}

/// Get the neuron ids associated with your identity.
#[derive(Clone, Copy, Debug)]
pub struct GetNeuronIdOpts {}

/// Get some neuron info.
#[derive(Clone, Copy, Debug)]
pub struct GetNeuronInfoOpts {}

/// Call the governance canister's `list_neurons` method.
#[derive(Debug)]
pub struct ListNeuronsOpts {
    pub neuron_ids: Vec<u64>,
    pub include_neurons_readable_by_caller: bool,
}

/// Configure the neuron's dissolve parameters.
#[derive(Debug)]
pub struct DissolveOpts {
    /// One of `increase-delay`, `start` and `stop`.
    pub operation: String,
    pub additional_delay_seconds: Option<u32>,
}

/// Configure the neuron's hot keys.
#[derive(Debug)]
pub struct HotKeyOpts {
    pub hot_key: Principal,
    /// One of `add` and `remove`.
    pub operation: String,
}

/// Stake a new neuron or refresh an existing neuron.
#[derive(Debug)]
pub struct StakeRefreshNeuronOpts {
    /// The controller of the neuron.
    pub controller: String,
    /// A number that tells the neurons of one controller apart.
    pub memo: u64,
    /// The ICP to stake, as a decimal number with up to eight decimal
    /// places.
    pub amount: Option<String>,
    /// Whole ICP, beside `e8s`.
    pub icp: Option<u64>,
    /// e8s, beside `icp`.
    pub e8s: Option<u64>,
    /// The transaction fee.
    pub fee: Option<String>,
    /// The greatest fee to accept.
    pub max_fee: Option<String>,
}

/// The transfer to the governance canister that stakes or refreshes a
/// neuron.
#[derive(Debug)]
pub struct StakeRefreshNeuronSendOpts {
    pub controller: String,
    pub memo: u64,
    pub amount: Option<String>,
    pub icp: Option<u64>,
    pub e8s: Option<u64>,
    pub fee: Option<String>,
}

/// The notification of the governance canister of a transfer that was made.
#[derive(Debug)]
pub struct StakeRefreshNeuronNotifyOpts {
    pub controller: String,
    pub memo: u64,
    /// The ledger block height at which the transfer was made.
    pub block_height: u64,
    pub max_fee: Option<String>,
}

/// The commands on neurons.
#[derive(Debug)]
pub enum SubCommand {
    FullInfo(GetFullNeuronOpts),
    HotKey(HotKeyOpts),
    Ids(GetNeuronIdOpts),
    Info(GetNeuronInfoOpts),
    List(ListNeuronsOpts),
    StakeOrRefresh(StakeRefreshNeuronOpts),
    Dissolve(DissolveOpts),
}

/// Manage neurons.
#[derive(Debug)]
pub struct NeuronOpts {
    pub subcmd: SubCommand,
    pub id: Option<u64>,
}

/// The commands that act on one neuron, and so need its id.
pub open spec fn needs_neuron_id(subcmd: SubCommand) -> bool {
    subcmd is FullInfo || subcmd is HotKey || subcmd is Info || subcmd is Dissolve
}

/// The neuron id that a command works with, or why the command is refused:
/// a command on one neuron needs an id, and any other command takes none and
/// works with 0.
pub open spec fn neuron_id_of(subcmd: SubCommand, id: Option<u64>) -> Result<u64, CommandError> {
    if needs_neuron_id(subcmd) {
        match id {
            Some(v) => Ok(v),
            None => Err(CommandError::MissingNeuronId),
        }
    } else {
        match id {
            Some(v) => Err(CommandError::UnneededNeuronId(v)),
            None => Ok(0u64),
        }
    }
}

/// The neuron id that the command works with, or why the command is
/// refused.
pub fn exec(opts: &NeuronOpts) -> (r: Result<u64, CommandError>)
    ensures
        r == neuron_id_of(opts.subcmd, opts.id),
{
    match &opts.subcmd {
        SubCommand::FullInfo(_) | SubCommand::HotKey(_) | SubCommand::Info(_) | SubCommand::Dissolve(
            _,
        ) => match opts.id {
            Some(v) => Ok(v),
            None => Err(CommandError::MissingNeuronId),
        },
        SubCommand::Ids(_) | SubCommand::List(_) | SubCommand::StakeOrRefresh(_) => match opts.id {
            Some(v) => Err(CommandError::UnneededNeuronId(v)),
            None => Ok(0),
        },
    }
}

/// A change to the configuration of a neuron.
#[derive(Debug)]
pub enum Operation {
    StartDissolving,
    StopDissolving,
    IncreaseDissolveDelay { additional_dissolve_delay_seconds: u32 },
    AddHotKey { new_hot_key: Principal },
    RemoveHotKey { hot_key_to_remove: Principal },
}

/// Whether a word names a dissolve operation.
pub open spec fn is_dissolve_operation(word: Seq<char>) -> bool {
    word == "start"@ || word == "stop"@ || word == "increase-delay"@
}

/// Whether a word names a dissolve operation.
pub fn names_dissolve_operation(word: &str) -> (r: bool)
    ensures
        r == is_dissolve_operation(word@),
{
    same_text(word, "start") || same_text(word, "stop") || same_text(word, "increase-delay")
}

/// The change that a dissolve command asks for. `start` and `stop` start and
/// stop the dissolving; `increase-delay` increases the delay by the seconds
/// that were given, and is refused where none were.
pub fn get_command(opts: DissolveOpts) -> (r: Result<Operation, CommandError>)
    requires
        is_dissolve_operation(opts.operation@),
    ensures
        opts.operation@ == "start"@ ==> r matches Ok(Operation::StartDissolving),
        opts.operation@ == "stop"@ ==> r matches Ok(Operation::StopDissolving),
        opts.operation@ == "increase-delay"@ ==> match opts.additional_delay_seconds {
            Some(secs) => r matches Ok(
                Operation::IncreaseDissolveDelay { additional_dissolve_delay_seconds: s },
            ) && s == secs,
            None => r matches Err(CommandError::MissingDissolveDelay),
        },
{
    proof {
        reveal_strlit("start");
        reveal_strlit("stop");
        reveal_strlit("increase-delay");
        assert("start"@.len() == 5 && "stop"@.len() == 4 && "increase-delay"@.len() == 14);
    }
    if same_text(opts.operation.as_str(), "start") {
        Ok(Operation::StartDissolving)
    } else if same_text(opts.operation.as_str(), "stop") {
        Ok(Operation::StopDissolving)
    } else {
        match opts.additional_delay_seconds {
            Some(secs) => Ok(
                Operation::IncreaseDissolveDelay { additional_dissolve_delay_seconds: secs },
            ),
            None => Err(CommandError::MissingDissolveDelay),
        }
    }
}

/// Whether a word names a hot key operation.
pub open spec fn is_hot_key_operation(word: Seq<char>) -> bool {
    word == "add"@ || word == "remove"@
}

/// Whether a word names a hot key operation.
pub fn names_hot_key_operation(word: &str) -> (r: bool)
    ensures
        r == is_hot_key_operation(word@),
{
    same_text(word, "add") || same_text(word, "remove")
}

/// The change that a hot key command asks for: `add` adds the key and
/// `remove` removes it.
pub fn get_hot_key_command(operation: String, hot_key: Principal) -> (r: Operation)
    requires
        is_hot_key_operation(operation@),
    ensures
        operation@ == "add"@ ==> r is AddHotKey && r->new_hot_key@ == hot_key@,
        operation@ == "remove"@ ==> r is RemoveHotKey && r->hot_key_to_remove@ == hot_key@,
{
    proof {
        reveal_strlit("add");
        reveal_strlit("remove");
        assert("add"@.len() == 3 && "remove"@.len() == 6);
    }
    if same_text(operation.as_str(), "add") {
        Operation::AddHotKey { new_hot_key: hot_key }
    } else {
        Operation::RemoveHotKey { hot_key_to_remove: hot_key }
    }
}

/// The method a neuron command calls on the governance canister.
pub open spec fn method_of(subcmd: SubCommand) -> Seq<char> {
    match subcmd {
        SubCommand::FullInfo(_) => "get_full_neuron"@,
        SubCommand::Ids(_) => "get_neuron_ids"@,
        SubCommand::Info(_) => "get_neuron_info"@,
        SubCommand::List(_) => "list_neurons"@,
        _ => "manage_neuron"@,
    }
}

/// Whether a neuron command only reads.
pub open spec fn is_query_of(subcmd: SubCommand) -> bool {
    subcmd is FullInfo || subcmd is Ids || subcmd is Info || subcmd is List
}

/// The call that a neuron command makes on the governance canister: the
/// reading commands query the method named after them, and the others update
/// through `manage_neuron`. Staking goes through the ledger and is not
/// among them.
pub fn governance_call(
    subcmd: &SubCommand,
    arg: Vec<u8>,
    maybe_sign_payload: Option<SignPayload>,
) -> (d: Dispatch)
    requires
        !(subcmd is StakeOrRefresh),
    ensures
        is_dispatch_of(
            d,
            governance_canister_bytes(),
            method_of(*subcmd),
            is_query_of(*subcmd),
            arg@,
            maybe_sign_payload,
        ),
{
    let canister_id = governance_canister_id();
    match subcmd {
        SubCommand::FullInfo(_) => dispatch(
            canister_id,
            "get_full_neuron",
            true,
            arg,
            maybe_sign_payload,
        ),
        SubCommand::Ids(_) => dispatch(canister_id, "get_neuron_ids", true, arg, maybe_sign_payload),
        SubCommand::Info(_) => dispatch(
            canister_id,
            "get_neuron_info",
            true,
            arg,
            maybe_sign_payload,
        ),
        SubCommand::List(_) => dispatch(canister_id, "list_neurons", true, arg, maybe_sign_payload),
        _ => dispatch(canister_id, "manage_neuron", false, arg, maybe_sign_payload),
    }
}

/// The fee of a transfer where none is given, in e8s.
pub const TRANSACTION_FEE_E8S: u64 = 10_000;

/// The fee of a transfer where none is given.
pub open spec fn transaction_fee() -> ICPTs {
    ICPTs { e8s: TRANSACTION_FEE_E8S }
}

/// The fee that a text denotes, and the usual fee where there is no text.
pub open spec fn fee_of(fee: Option<Seq<char>>) -> Result<ICPTs, AmountError> {
    match fee {
        Some(text) => amount_of_parsed(decimal_of_text(text)),
        None => Ok(transaction_fee()),
    }
}

/// The fee that a text denotes, and the usual fee where there is no text.
pub fn fee_or_default(fee: &Option<String>) -> (r: Result<ICPTs, AmountError>)
    ensures
        r == fee_of(optional_text(*fee)),
{
    match fee {
        Some(text) => icpts_from_str(text.as_str()),
        None => Ok(ICPTs::from_e8s(TRANSACTION_FEE_E8S)),
    }
}

/// The transfer that stakes or refreshes a neuron.
#[derive(Debug)]
pub struct StakeTransfer {
    pub memo: Memo,
    pub amount: ICPTs,
    pub fee: ICPTs,
    pub to_subaccount: Subaccount,
    /// The account of the governance canister under that subaccount.
    pub to: AccountIdentifier,
}

/// The transfer that stakes or refreshes a neuron, given the principal that
/// the controller denotes. The amount is settled first, then the fee, then
/// the controller; the transfer goes to the subaccount of the governance
/// canister that belongs to the controller and the memo.
pub fn send(opts: &StakeRefreshNeuronSendOpts, controller: Option<Principal>) -> (r: Result<
    StakeTransfer,
    CommandError,
>)
    ensures
        match amount_of_args(optional_text(opts.amount), opts.icp, opts.e8s) {
            Err(e) => r == Err::<StakeTransfer, CommandError>(CommandError::Amount(e)),
            Ok(amount) => match fee_of(optional_text(opts.fee)) {
                Err(e) => r == Err::<StakeTransfer, CommandError>(CommandError::Amount(e)),
                Ok(fee) => match controller {
                    None => r == Err::<StakeTransfer, CommandError>(
                        CommandError::InvalidController,
                    ),
                    Some(c) => r is Ok && r->Ok_0.memo == Memo(opts.memo) && r->Ok_0.amount
                        == amount && r->Ok_0.fee == fee && r->Ok_0.to_subaccount.0@ == sha256(
                        subaccount_preimage(opts.memo, c@),
                    ) && r->Ok_0.to@ == sha224(
                        account_preimage(
                            governance_canister_bytes(),
                            Some(r->Ok_0.to_subaccount.0@),
                        ),
                    ),
                },
            },
        },
{
    let amount = match get_icpts_from_args(
        crate::message::clone_optional_text(&opts.amount),
        opts.icp,
        opts.e8s,
    ) {
        Ok(a) => a,
        Err(e) => {
            return Err(CommandError::Amount(e));
        },
    };
    let fee = match fee_or_default(&opts.fee) {
        Ok(f) => f,
        Err(e) => {
            return Err(CommandError::Amount(e));
        },
    };
    let controller = match controller {
        Some(c) => c,
        None => {
            return Err(CommandError::InvalidController);
        },
    };
    let memo = Memo(opts.memo);
    let to_subaccount = get_governance_subaccount(memo, &controller);
    let to = AccountIdentifier::new(&governance_canister_id(), Some(to_subaccount));
    Ok(StakeTransfer { memo, amount, fee, to_subaccount, to })
}

/// The notification of a transfer that staked or refreshed a neuron.
#[derive(Debug)]
pub struct StakeNotification {
    pub block_height: u64,
    pub max_fee: ICPTs,
    pub to_subaccount: Subaccount,
}

/// The notification of a transfer, given the principal that the controller
/// denotes. The controller is settled first, then the greatest fee.
pub fn notify(opts: &StakeRefreshNeuronNotifyOpts, controller: Option<Principal>) -> (r: Result<
    StakeNotification,
    CommandError,
>)
    ensures
        match controller {
            None => r == Err::<StakeNotification, CommandError>(CommandError::InvalidController),
            Some(c) => match fee_of(optional_text(opts.max_fee)) {
                Err(e) => r == Err::<StakeNotification, CommandError>(CommandError::Amount(e)),
                Ok(fee) => r is Ok && r->Ok_0.block_height == opts.block_height
                    && r->Ok_0.max_fee == fee && r->Ok_0.to_subaccount.0@ == sha256(
                    subaccount_preimage(opts.memo, c@),
                ),
            },
        },
{
    let controller = match controller {
        Some(c) => c,
        None => {
            return Err(CommandError::InvalidController);
        },
    };
    let to_subaccount = get_governance_subaccount(Memo(opts.memo), &controller);
    let max_fee = match fee_or_default(&opts.max_fee) {
        Ok(f) => f,
        Err(e) => {
            return Err(CommandError::Amount(e));
        },
    };
    Ok(StakeNotification { block_height: opts.block_height, max_fee, to_subaccount })
}

/// The call that makes the transfer of a stake: an update of `send_dfx` on
/// the ledger canister, signed where a signing request is there.
pub fn send_call(arg: Vec<u8>, maybe_sign_payload: Option<SignPayload>) -> (d: Dispatch)
    ensures
        is_dispatch_of(d, ledger_canister_bytes(), "send_dfx"@, false, arg@, maybe_sign_payload),
{
    dispatch(ledger_canister_id(), "send_dfx", false, arg, maybe_sign_payload)
}

/// The call that notifies the governance canister of a transfer: an update
/// of `notify_dfx` on the ledger canister, signed where a signing request is
/// there.
pub fn notify_call(arg: Vec<u8>, maybe_sign_payload: Option<SignPayload>) -> (d: Dispatch)
    ensures
        is_dispatch_of(d, ledger_canister_bytes(), "notify_dfx"@, false, arg@, maybe_sign_payload),
{
    dispatch(ledger_canister_id(), "notify_dfx", false, arg, maybe_sign_payload)
}

} // verus!
