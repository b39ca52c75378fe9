use icx_nns::commands::governance::{
    authorized_subnets, list_proposal_info, reward_statuses_to_numbers, statuses_to_numbers,
    topics_to_numbers, AuthToSubnetOpts, GetPendingProposalsOpts, GetProposalInfoOpts,
    GovernanceOpts, ListPropsalOpts, MotionOpts, ProposalSubCommand, SubmitProposalOpts,
};
use icx_nns::commands::ledger::{
    account_id, balance_account, AccountIdOpts, BalanceOpts, LedgerOpts,
};
use icx_nns::nns_types::account::AccountError;
use icx_nns::commands::neuron::{
    fee_or_default, get_command, get_hot_key_command, governance_call, names_dissolve_operation,
    names_hot_key_operation, notify, notify_call, send, send_call, DissolveOpts,
    GetFullNeuronOpts, GetNeuronIdOpts, GetNeuronInfoOpts, HotKeyOpts, ListNeuronsOpts,
    NeuronOpts, Operation, StakeRefreshNeuronNotifyOpts, StakeRefreshNeuronOpts,
    StakeRefreshNeuronSendOpts, SubCommand, TRANSACTION_FEE_E8S,
};
use icx_nns::commands::principal::GetPrincipalOpts;
use icx_nns::commands::{dispatch, exec, Area, Command, CommandError, Dispatch};
use icx_nns::identity::{create_identity, expect_env_var, get_hsm_pin, IdentityKind};
use icx_nns::nns_types::utils::{AmountError, ICPTs, Memo};
use icx_nns::options::{settings, text_or_default, Opts};
use icx_nns::principal::Principal;
use icx_nns::send::SendOpts;
use icx_nns::sign::SignPayload;

fn governance() -> Vec<u8> {
    vec![0, 0, 0, 0, 0, 0, 0, 1, 1, 1]
}

fn ledger() -> Vec<u8> {
    vec![0, 0, 0, 0, 0, 0, 0, 2, 1, 1]
}

fn signing_request() -> Option<SignPayload> {
    Some(SignPayload {
        payload: None,
        network: "http://127.0.0.1:8000".to_string(),
        expire_after: "5m".to_string(),
        file: "message.json".to_string(),
    })
}

fn expect_call(d: Dispatch, canister: &Vec<u8>, method: &str, is_query: bool, arg: &Vec<u8>) {
    match d {
        Dispatch::Call(c) => {
            assert_eq!(c.canister_id.as_slice(), canister);
            assert_eq!(c.method_name, method);
            assert_eq!(c.is_query, is_query);
            assert_eq!(&c.arg, arg);
        }
        other => panic!("{:?}", other),
    }
}

fn expect_sign(d: Dispatch, canister: &Vec<u8>, method: &str, is_query: bool, arg: &Vec<u8>) {
    match d {
        Dispatch::Sign(s) => {
            let c = s.payload.unwrap();
            assert_eq!(c.canister_id.as_slice(), canister);
            assert_eq!(c.method_name, method);
            assert_eq!(c.is_query, is_query);
            assert_eq!(&c.arg, arg);
            assert_eq!(s.network, "http://127.0.0.1:8000");
            assert_eq!(s.expire_after, "5m");
            assert_eq!(s.file, "message.json");
        }
        other => panic!("{:?}", other),
    }
}

#[test]
fn a_call_without_a_signing_request_is_made_now() {
    let d = dispatch(Principal::from_slice(&vec![1, 2]), "method", true, vec![9], None);
    expect_call(d, &vec![1, 2], "method", true, &vec![9]);
}

#[test]
fn a_call_with_a_signing_request_is_signed() {
    let d = dispatch(Principal::from_slice(&vec![1, 2]), "method", false, vec![9], signing_request());
    expect_sign(d, &vec![1, 2], "method", false, &vec![9]);
}

#[test]
fn the_area_of_each_command() {
    assert_eq!(exec(&Command::GetPrincipal(GetPrincipalOpts {})), Area::Principal);
    let g = GovernanceOpts {
        subcmd: icx_nns::commands::governance::SubCommand::GetPendingProposals(
            GetPendingProposalsOpts {},
        ),
    };
    assert_eq!(exec(&Command::Governance(g)), Area::Governance);
    let l = LedgerOpts { subcmd: icx_nns::commands::ledger::SubCommand::AccountId(AccountIdOpts {}) };
    assert_eq!(exec(&Command::Ledger(l)), Area::Ledger);
    let n = NeuronOpts { subcmd: SubCommand::Ids(GetNeuronIdOpts {}), id: None };
    assert_eq!(exec(&Command::Neuron(n)), Area::Neuron);
    let s = SendOpts { file_name: "message.json".to_string(), status: false };
    assert_eq!(exec(&Command::Send(s)), Area::Send);
}

#[test]
fn the_principal_command_prints_the_sender() {
    let text = icx_nns::commands::principal::exec(GetPrincipalOpts {}, &Principal::from_slice(&vec![4]));
    assert_eq!(text, "2vxsx-fae");
}

#[test]
fn the_balance_is_a_query_on_the_ledger() {
    let d = icx_nns::commands::ledger::exec(vec![1, 2, 3], None);
    expect_call(d, &ledger(), "account_balance_dfx", true, &vec![1, 2, 3]);
    let d = icx_nns::commands::ledger::exec(vec![1, 2, 3], signing_request());
    expect_sign(d, &ledger(), "account_balance_dfx", true, &vec![1, 2, 3]);
}

#[test]
fn the_balance_is_of_the_sender_unless_an_account_is_named() {
    let sender = Principal::from_slice(&vec![4]);
    let own = balance_account(&BalanceOpts { of: None }, &sender).unwrap();
    assert_eq!(own.to_hex(), "1c7a48ba6a562aa9eaa2481a9049cdf0433b9738c992d698c31d8abf89cadc79");
    let named = BalanceOpts {
        of: Some("082ecf2e3f647ac600f43f38a68342fba5b8e68b085f02592b77f39808a8d2b5".to_string()),
    };
    let other = balance_account(&named, &sender).unwrap();
    assert_eq!(other.to_hex(), "082ecf2e3f647ac600f43f38a68342fba5b8e68b085f02592b77f39808a8d2b5");
}

#[test]
fn a_named_account_must_be_an_account() {
    let sender = Principal::from_slice(&vec![4]);
    let of = |text: &str| BalanceOpts { of: Some(text.to_string()) };
    assert_eq!(balance_account(&of("xyz"), &sender).unwrap_err(), AccountError::NotHexadecimal);
    assert_eq!(balance_account(&of("abcd"), &sender).unwrap_err(), AccountError::WrongLength);
    assert_eq!(
        balance_account(
            &of("182ecf2e3f647ac600f43f38a68342fba5b8e68b085f02592b77f39808a8d2b5"),
            &sender
        )
        .unwrap_err(),
        AccountError::ChecksumMismatch
    );
}

#[test]
fn the_account_command_prints_the_account_of_the_sender() {
    let text = account_id(AccountIdOpts {}, &Principal::from_slice(&vec![4]));
    assert_eq!(text, "1c7a48ba6a562aa9eaa2481a9049cdf0433b9738c992d698c31d8abf89cadc79");
}

fn governance_opts(subcmd: icx_nns::commands::governance::SubCommand) -> GovernanceOpts {
    GovernanceOpts { subcmd }
}

fn listing() -> ListPropsalOpts {
    ListPropsalOpts {
        include_reward_status: Some(vec!["settled".to_string(), "accept_votes".to_string()]),
        before_proposal: Some(77),
        limit: 100,
        exclude_topic: Some(vec!["kyc".to_string(), "unspecified".to_string(), "kyc".to_string()]),
        include_status: None,
    }
}

#[test]
fn the_calls_of_the_governance_commands() {
    let arg = vec![5u8];
    let d = icx_nns::commands::governance::exec(
        &governance_opts(icx_nns::commands::governance::SubCommand::GetProposalInfo(GetProposalInfoOpts { id: 3 })),
        arg.clone(),
        None,
    );
    expect_call(d, &governance(), "get_proposal_info", true, &arg);
    let d = icx_nns::commands::governance::exec(
        &governance_opts(icx_nns::commands::governance::SubCommand::GetPendingProposals(GetPendingProposalsOpts {})),
        arg.clone(),
        None,
    );
    expect_call(d, &governance(), "get_pending_proposals", true, &arg);
    let d = icx_nns::commands::governance::exec(
        &governance_opts(icx_nns::commands::governance::SubCommand::ListProposals(listing())),
        arg.clone(),
        signing_request(),
    );
    expect_sign(d, &governance(), "list_proposals", true, &arg);
    let proposal = SubmitProposalOpts {
        subcmd: ProposalSubCommand::Motion(MotionOpts { motion_text: "text".to_string() }),
        neuron_id: 1,
        summary: "s".to_string(),
        url: "u".to_string(),
    };
    let d = icx_nns::commands::governance::exec(
        &governance_opts(icx_nns::commands::governance::SubCommand::SubmitProposal(proposal)),
        arg.clone(),
        None,
    );
    expect_call(d, &governance(), "manage_neuron", false, &arg);
}

#[test]
fn the_names_of_a_listing_become_numbers() {
    let info = list_proposal_info(&listing()).unwrap();
    assert_eq!(info.include_reward_status, vec![3, 1]);
    assert_eq!(info.exclude_topic, vec![9, 0, 9]);
    assert_eq!(info.include_status, Vec::<i32>::new());
    assert_eq!(info.before_proposal, Some(77));
    assert_eq!(info.limit, 100);
}

#[test]
fn a_listing_with_an_unknown_name_has_no_filter() {
    let mut opts = listing();
    opts.include_status = Some(vec!["open".to_string(), "closed".to_string()]);
    assert!(list_proposal_info(&opts).is_none());
    let mut opts = listing();
    opts.exclude_topic = Some(vec!["settled".to_string()]);
    assert!(list_proposal_info(&opts).is_none());
    let mut opts = listing();
    opts.include_reward_status = Some(vec!["open".to_string()]);
    assert!(list_proposal_info(&opts).is_none());
}

#[test]
fn names_to_numbers() {
    let names = |list: &[&str]| Some(list.iter().map(|s| s.to_string()).collect::<Vec<String>>());
    assert_eq!(statuses_to_numbers(&names(&["failed", "open", "rejected"])), Some(vec![5, 1, 2]));
    assert_eq!(statuses_to_numbers(&names(&[])), Some(vec![]));
    assert_eq!(statuses_to_numbers(&None), Some(vec![]));
    assert_eq!(statuses_to_numbers(&names(&["open", "nope"])), None);
    assert_eq!(reward_statuses_to_numbers(&names(&["ineligible"])), Some(vec![4]));
    assert_eq!(reward_statuses_to_numbers(&names(&["Ineligible"])), None);
    assert_eq!(
        topics_to_numbers(&names(&["node_provider_rewards", "governance"])),
        Some(vec![10, 4])
    );
    assert_eq!(topics_to_numbers(&names(&[""])), None);
}

#[test]
fn the_subnets_of_an_authorization() {
    let none = authorized_subnets(AuthToSubnetOpts { who: None, subnets: None });
    assert!(none.is_empty());
    let some = authorized_subnets(AuthToSubnetOpts {
        who: Some(Principal::from_slice(&vec![4])),
        subnets: Some(vec![Principal::from_slice(&vec![1]), Principal::from_slice(&vec![2])]),
    });
    assert_eq!(some.len(), 2);
    assert_eq!(some[0].as_slice(), &vec![1]);
    assert_eq!(some[1].as_slice(), &vec![2]);
}

fn neuron(subcmd: SubCommand, id: Option<u64>) -> NeuronOpts {
    NeuronOpts { subcmd, id }
}

fn dissolve(operation: &str, delay: Option<u32>) -> DissolveOpts {
    DissolveOpts { operation: operation.to_string(), additional_delay_seconds: delay }
}

fn hot_key() -> HotKeyOpts {
    HotKeyOpts { hot_key: Principal::from_slice(&vec![4]), operation: "add".to_string() }
}

fn stake() -> StakeRefreshNeuronOpts {
    StakeRefreshNeuronOpts {
        controller: "2vxsx-fae".to_string(),
        memo: 1,
        amount: None,
        icp: None,
        e8s: None,
        fee: None,
        max_fee: None,
    }
}

#[test]
fn commands_on_one_neuron_need_its_id() {
    assert_eq!(icx_nns::commands::neuron::exec(&neuron(SubCommand::FullInfo(GetFullNeuronOpts {}), Some(7))), Ok(7));
    assert_eq!(icx_nns::commands::neuron::exec(&neuron(SubCommand::HotKey(hot_key()), Some(8))), Ok(8));
    assert_eq!(icx_nns::commands::neuron::exec(&neuron(SubCommand::Info(GetNeuronInfoOpts {}), Some(0))), Ok(0));
    assert_eq!(icx_nns::commands::neuron::exec(&neuron(SubCommand::Dissolve(dissolve("start", None)), Some(u64::MAX))), Ok(u64::MAX));
    assert_eq!(
        icx_nns::commands::neuron::exec(&neuron(SubCommand::FullInfo(GetFullNeuronOpts {}), None)),
        Err(CommandError::MissingNeuronId)
    );
    assert_eq!(
        icx_nns::commands::neuron::exec(&neuron(SubCommand::HotKey(hot_key()), None)),
        Err(CommandError::MissingNeuronId)
    );
    assert_eq!(
        icx_nns::commands::neuron::exec(&neuron(SubCommand::Info(GetNeuronInfoOpts {}), None)),
        Err(CommandError::MissingNeuronId)
    );
    assert_eq!(
        icx_nns::commands::neuron::exec(&neuron(SubCommand::Dissolve(dissolve("stop", None)), None)),
        Err(CommandError::MissingNeuronId)
    );
}

#[test]
fn the_other_commands_take_no_neuron_id() {
    assert_eq!(icx_nns::commands::neuron::exec(&neuron(SubCommand::Ids(GetNeuronIdOpts {}), None)), Ok(0));
    let list = ListNeuronsOpts { neuron_ids: vec![1], include_neurons_readable_by_caller: true };
    assert_eq!(icx_nns::commands::neuron::exec(&neuron(SubCommand::List(list), None)), Ok(0));
    assert_eq!(icx_nns::commands::neuron::exec(&neuron(SubCommand::StakeOrRefresh(stake()), None)), Ok(0));
    assert_eq!(
        icx_nns::commands::neuron::exec(&neuron(SubCommand::Ids(GetNeuronIdOpts {}), Some(5))),
        Err(CommandError::UnneededNeuronId(5))
    );
    assert_eq!(
        icx_nns::commands::neuron::exec(&neuron(SubCommand::StakeOrRefresh(stake()), Some(0))),
        Err(CommandError::UnneededNeuronId(0))
    );
}

#[test]
fn the_dissolve_operations() {
    assert!(matches!(get_command(dissolve("start", None)), Ok(Operation::StartDissolving)));
    assert!(matches!(get_command(dissolve("start", Some(5))), Ok(Operation::StartDissolving)));
    assert!(matches!(get_command(dissolve("stop", None)), Ok(Operation::StopDissolving)));
    assert!(matches!(
        get_command(dissolve("increase-delay", Some(3600))),
        Ok(Operation::IncreaseDissolveDelay { additional_dissolve_delay_seconds: 3600 })
    ));
    assert!(matches!(
        get_command(dissolve("increase-delay", None)),
        Err(CommandError::MissingDissolveDelay)
    ));
}

#[test]
fn the_words_that_name_operations() {
    assert!(names_dissolve_operation("start"));
    assert!(names_dissolve_operation("stop"));
    assert!(names_dissolve_operation("increase-delay"));
    assert!(!names_dissolve_operation("increase_delay"));
    assert!(!names_dissolve_operation(""));
    assert!(names_hot_key_operation("add"));
    assert!(names_hot_key_operation("remove"));
    assert!(!names_hot_key_operation("delete"));
}

#[test]
fn the_hot_key_operations() {
    match get_hot_key_command("add".to_string(), Principal::from_slice(&vec![1, 2])) {
        Operation::AddHotKey { new_hot_key } => assert_eq!(new_hot_key.as_slice(), &vec![1, 2]),
        other => panic!("{:?}", other),
    }
    match get_hot_key_command("remove".to_string(), Principal::from_slice(&vec![3])) {
        Operation::RemoveHotKey { hot_key_to_remove } => {
            assert_eq!(hot_key_to_remove.as_slice(), &vec![3])
        }
        other => panic!("{:?}", other),
    }
}

#[test]
fn the_calls_of_the_neuron_commands() {
    let arg = vec![7u8, 7];
    let d = governance_call(&SubCommand::FullInfo(GetFullNeuronOpts {}), arg.clone(), None);
    expect_call(d, &governance(), "get_full_neuron", true, &arg);
    let d = governance_call(&SubCommand::Ids(GetNeuronIdOpts {}), arg.clone(), signing_request());
    expect_sign(d, &governance(), "get_neuron_ids", true, &arg);
    let d = governance_call(&SubCommand::Info(GetNeuronInfoOpts {}), arg.clone(), None);
    expect_call(d, &governance(), "get_neuron_info", true, &arg);
    let list = ListNeuronsOpts { neuron_ids: vec![], include_neurons_readable_by_caller: false };
    let d = governance_call(&SubCommand::List(list), arg.clone(), None);
    expect_call(d, &governance(), "list_neurons", true, &arg);
    let d = governance_call(&SubCommand::HotKey(hot_key()), arg.clone(), None);
    expect_call(d, &governance(), "manage_neuron", false, &arg);
    let d = governance_call(&SubCommand::Dissolve(dissolve("stop", None)), arg.clone(), None);
    expect_call(d, &governance(), "manage_neuron", false, &arg);
}

#[test]
fn the_calls_of_a_stake() {
    let arg = vec![1u8];
    expect_call(send_call(arg.clone(), None), &ledger(), "send_dfx", false, &arg);
    expect_sign(send_call(arg.clone(), signing_request()), &ledger(), "send_dfx", false, &arg);
    expect_call(notify_call(arg.clone(), None), &ledger(), "notify_dfx", false, &arg);
    expect_sign(notify_call(arg.clone(), signing_request()), &ledger(), "notify_dfx", false, &arg);
}

#[test]
fn the_usual_fee() {
    assert_eq!(TRANSACTION_FEE_E8S, 10_000);
    assert_eq!(fee_or_default(&None), Ok(ICPTs { e8s: 10_000 }));
    assert_eq!(fee_or_default(&Some("0.0002".to_string())), Ok(ICPTs { e8s: 20_000 }));
    assert_eq!(fee_or_default(&Some("x".to_string())), Err(AmountError::NotADecimal));
}

fn transfer() -> StakeRefreshNeuronSendOpts {
    StakeRefreshNeuronSendOpts {
        controller: "rrkah-fqaaa-aaaaa-aaaaq-cai".to_string(),
        memo: 0x0102030405060708,
        amount: Some("10.5".to_string()),
        icp: None,
        e8s: None,
        fee: None,
    }
}

fn digest() -> [u8; 32] {
    [
        251, 1, 16, 104, 230, 193, 47, 135, 3, 241, 216, 217, 160, 220, 252, 208, 6, 116, 93, 104,
        62, 233, 214, 88, 249, 215, 185, 124, 181, 16, 13, 22,
    ]
}

#[test]
fn the_transfer_of_a_stake() {
    let controller = Principal::from_text("rrkah-fqaaa-aaaaa-aaaaq-cai");
    let t = send(&transfer(), controller).unwrap();
    assert_eq!(t.memo, Memo(0x0102030405060708));
    assert_eq!(t.amount, ICPTs { e8s: 1_050_000_000 });
    assert_eq!(t.fee, ICPTs { e8s: 10_000 });
    assert_eq!(t.to_subaccount.0, digest());
    assert_eq!(
        t.to.to_hex(),
        "9cb93c1cfc0f022244c86984f0c0e63d76413703a1c3f6bfc9c0983f02400c84"
    );
}

#[test]
fn a_transfer_can_be_refused() {
    let controller = || Principal::from_text("rrkah-fqaaa-aaaaa-aaaaq-cai");
    let mut opts = transfer();
    opts.amount = Some("1.000000001".to_string());
    assert_eq!(
        send(&opts, controller()).unwrap_err(),
        CommandError::Amount(AmountError::TooManyDecimalPlaces)
    );
    let mut opts = transfer();
    opts.fee = Some("-1".to_string());
    assert_eq!(send(&opts, controller()).unwrap_err(), CommandError::Amount(AmountError::Negative));
    assert_eq!(send(&transfer(), None).unwrap_err(), CommandError::InvalidController);
    let mut opts = transfer();
    opts.amount = Some("bad".to_string());
    assert_eq!(send(&opts, None).unwrap_err(), CommandError::Amount(AmountError::NotADecimal));
}

#[test]
fn the_notification_of_a_stake() {
    let opts = StakeRefreshNeuronNotifyOpts {
        controller: "rrkah-fqaaa-aaaaa-aaaaq-cai".to_string(),
        memo: 0x0102030405060708,
        block_height: 1234,
        max_fee: Some("0.001".to_string()),
    };
    let n = notify(&opts, Principal::from_text(&opts.controller)).unwrap();
    assert_eq!(n.block_height, 1234);
    assert_eq!(n.max_fee, ICPTs { e8s: 100_000 });
    assert_eq!(n.to_subaccount.0, digest());
    assert_eq!(notify(&opts, None).unwrap_err(), CommandError::InvalidController);
    let bad = StakeRefreshNeuronNotifyOpts { max_fee: Some("1e".to_string()), ..opts };
    assert_eq!(
        notify(&bad, Principal::from_text(&bad.controller)).unwrap_err(),
        CommandError::Amount(AmountError::NotADecimal)
    );
}

#[test]
fn the_settings_of_the_main_network() {
    let s = settings(&None, false, &None, &None);
    assert_eq!(s.network, "https://ic0.app");
    assert!(!s.fetch_root_key);
    assert!(s.sign_payload.is_none());
}

#[test]
fn the_settings_of_another_network() {
    let s = settings(&Some("127.0.0.1:8000".to_string()), false, &None, &None);
    assert_eq!(s.network, "http://127.0.0.1:8000");
    assert!(s.fetch_root_key);
    assert!(s.sign_payload.is_none());
}

#[test]
fn the_signing_request_has_its_defaults() {
    let s = settings(&None, true, &None, &None);
    let p = s.sign_payload.unwrap();
    assert!(p.payload.is_none());
    assert_eq!(p.network, "https://ic0.app");
    assert_eq!(p.file, "message.json");
    assert_eq!(p.expire_after, "5m");
}

#[test]
fn the_signing_request_takes_what_is_given() {
    let opts = Opts {
        command: Command::GetPrincipal(GetPrincipalOpts {}),
        endpoint: Some("localhost:1".to_string()),
        use_hsm: false,
        sign: true,
        file: Some("out.json".to_string()),
        expire_after: Some("1h 30m".to_string()),
    };
    let s = opts.settings();
    assert_eq!(s.network, "http://localhost:1");
    assert!(s.fetch_root_key);
    let p = s.sign_payload.unwrap();
    assert_eq!(p.network, "http://localhost:1");
    assert_eq!(p.file, "out.json");
    assert_eq!(p.expire_after, "1h 30m");
}

#[test]
fn a_text_or_its_default() {
    assert_eq!(text_or_default(&None, "d"), "d");
    assert_eq!(text_or_default(&Some("t".to_string()), "d"), "t");
    assert_eq!(text_or_default(&Some(String::new()), "d"), "");
}

#[test]
fn a_variable_that_is_set_gives_its_value() {
    assert_eq!(expect_env_var("PEM_PATH", Some("/k.pem".to_string())), Ok("/k.pem".to_string()));
    assert_eq!(get_hsm_pin(Some("1234".to_string())), Ok("1234".to_string()));
}

#[test]
fn a_variable_that_is_not_set_is_asked_for() {
    assert_eq!(
        expect_env_var("PEM_PATH", None),
        Err("Need to specify the PEM_PATH environment variable".to_string())
    );
    assert_eq!(
        get_hsm_pin(None),
        Err("Need to specify the HSM_PIN environment variable".to_string())
    );
}

#[test]
fn the_kind_of_identity() {
    assert_eq!(create_identity(true), IdentityKind::Hsm);
    assert_eq!(create_identity(false), IdentityKind::Basic);
}
