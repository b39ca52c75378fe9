//! The commands on the governance canister: proposals.
use vstd::prelude::*;
use vstd::string::*;
use crate::commands::{dispatch, is_dispatch_of, Dispatch};
use crate::nns_types::governance::{
    governance_canister_bytes, governance_canister_id, ProposalRewardStatus, ProposalStatus,
    Topic,
};
use crate::principal::Principal;
use crate::sign::SignPayload;

verus! {

/// Call the governance canister's `get_pending_proposals` method.
#[derive(Clone, Copy, Debug)]
pub struct GetPendingProposalsOpts {}

/// Call the governance canister's `get_proposal_info` method.
#[derive(Clone, Copy, Debug)]
pub struct GetProposalInfoOpts {
    /// The proposal id.
    pub id: u64,
}

/// Call the governance canister's `list_proposals` method.
#[derive(Debug)]
pub struct ListPropsalOpts {
    pub include_reward_status: Option<Vec<String>>,
    pub before_proposal: Option<u64>,
    pub limit: u32,
    pub exclude_topic: Option<Vec<String>>,
    pub include_status: Option<Vec<String>>,
}

/// Submit a motion.
#[derive(Debug)]
pub struct MotionOpts {
    /// The text of the motion.
    pub motion_text: String,
}

/// Submit a proposal to authorize a principal to one or more subnetworks.
#[derive(Debug)]
pub struct AuthToSubnetOpts {
    /// The principal to be authorized; where there is none, the proposal
    /// sets the default list of subnets.
    pub who: Option<Principal>,
    /// The subnets that `who` would be authorized on; where there are none,
    /// `who` is removed from the authorized users.
    pub subnets: Option<Vec<Principal>>,
}

/// The kinds of proposal that can be submitted.
#[derive(Debug)]
pub enum ProposalSubCommand {
    AuthorizeToSubnet(AuthToSubnetOpts),
    Motion(MotionOpts),
}

/// Submit a proposal.
#[derive(Debug)]
pub struct SubmitProposalOpts {
    pub subcmd: ProposalSubCommand,
    /// The neuron that makes the proposal.
    pub neuron_id: u64,
    pub summary: String,
    pub url: String,
}

/// The commands on the governance canister.
#[derive(Debug)]
pub enum SubCommand {
    GetProposalInfo(GetProposalInfoOpts),
    GetPendingProposals(GetPendingProposalsOpts),
    ListProposals(ListPropsalOpts),
    SubmitProposal(SubmitProposalOpts),
}

/// Call the governance canister.
#[derive(Debug)]
pub struct GovernanceOpts {
    pub subcmd: SubCommand,
}

/// The method a governance command calls.
pub open spec fn method_of(subcmd: SubCommand) -> Seq<char> {
    match subcmd {
        SubCommand::GetProposalInfo(_) => "get_proposal_info"@,
        SubCommand::GetPendingProposals(_) => "get_pending_proposals"@,
        SubCommand::ListProposals(_) => "list_proposals"@,
        SubCommand::SubmitProposal(_) => "manage_neuron"@,
    }
}

/// Whether a governance command only reads: all but the submission of a
/// proposal do.
pub open spec fn is_query_of(subcmd: SubCommand) -> bool {
    !(subcmd is SubmitProposal)
}

/// The call of a governance command: the method named after the command, or
/// `manage_neuron` for a proposal, on the governance canister; a query but
/// for a proposal; signed where a signing request is there.
pub fn exec(opts: &GovernanceOpts, arg: Vec<u8>, maybe_sign_payload: Option<SignPayload>) -> (d:
    Dispatch)
    ensures
        is_dispatch_of(
            d,
            governance_canister_bytes(),
            method_of(opts.subcmd),
            is_query_of(opts.subcmd),
            arg@,
            maybe_sign_payload,
        ),
{
    let canister_id = governance_canister_id();
    match &opts.subcmd {
        SubCommand::GetProposalInfo(_) => dispatch(
            canister_id,
            "get_proposal_info",
            true,
            arg,
            maybe_sign_payload,
        ),
        SubCommand::GetPendingProposals(_) => dispatch(
            canister_id,
            "get_pending_proposals",
            true,
            arg,
            maybe_sign_payload,
        ),
        SubCommand::ListProposals(_) => dispatch(
            canister_id,
            "list_proposals",
            true,
            arg,
            maybe_sign_payload,
        ),
        SubCommand::SubmitProposal(_) => dispatch(
            canister_id,
            "manage_neuron",
            false,
            arg,
            maybe_sign_payload,
        ),
    }
}

/// The filter of a listing, as it goes over the wire: numbers in place of
/// names.
#[derive(Debug)]
pub struct ListProposalInfo {
    pub include_status: Vec<i32>,
    pub include_reward_status: Vec<i32>,
    pub exclude_topic: Vec<i32>,
    pub before_proposal: Option<u64>,
    pub limit: u32,
}

/// The names of an optional list.
pub open spec fn names_of(list: Option<Vec<String>>) -> Seq<Seq<char>> {
    match list {
        Some(v) => Seq::new(v@.len(), |i: int| v@[i]@),
        None => Seq::empty(),
    }
}

/// Whether every name denotes a reward status.
pub open spec fn are_reward_statuses(names: Seq<Seq<char>>) -> bool {
    forall|i: int| 0 <= i < names.len() ==> ProposalRewardStatus::of_name(#[trigger] names[i]) is Some
}

/// Whether every name denotes a status.
pub open spec fn are_statuses(names: Seq<Seq<char>>) -> bool {
    forall|i: int| 0 <= i < names.len() ==> ProposalStatus::of_name(#[trigger] names[i]) is Some
}

/// Whether every name denotes a topic.
pub open spec fn are_topics(names: Seq<Seq<char>>) -> bool {
    forall|i: int| 0 <= i < names.len() ==> Topic::of_name(#[trigger] names[i]) is Some
}

/// The numbers of the reward statuses that the names denote.
pub open spec fn reward_status_numbers(names: Seq<Seq<char>>) -> Seq<i32> {
    Seq::new(names.len(), |i: int| ProposalRewardStatus::of_name(names[i])->Some_0.number() as i32)
}

/// The numbers of the statuses that the names denote.
pub open spec fn status_numbers(names: Seq<Seq<char>>) -> Seq<i32> {
    Seq::new(names.len(), |i: int| ProposalStatus::of_name(names[i])->Some_0.number() as i32)
}

/// The numbers of the topics that the names denote.
pub open spec fn topic_numbers(names: Seq<Seq<char>>) -> Seq<i32> {
    Seq::new(names.len(), |i: int| Topic::of_name(names[i])->Some_0.number() as i32)
}

/// The numbers of the reward statuses that the names denote, in the order
/// of the names, or `None` where a name denotes none.
pub fn reward_statuses_to_numbers(list: &Option<Vec<String>>) -> (r: Option<Vec<i32>>)
    ensures
        r is Some <==> are_reward_statuses(names_of(*list)),
        r matches Some(v) ==> v@ == reward_status_numbers(names_of(*list)),
{
    let mut out: Vec<i32> = Vec::new();
    match list {
        None => {
            assert(out@ =~= reward_status_numbers(names_of(*list)));
            Some(out)
        },
        Some(names) => {
            let mut i: usize = 0;
            while i < names.len()
                invariant
                    0 <= i <= names.len(),
                    *list == Some(*names),
                    out@.len() == i,
                    forall|k: int|
                        0 <= k < i ==> ProposalRewardStatus::of_name(
                            #[trigger] names_of(*list)[k],
                        ) is Some,
                    forall|k: int|
                        0 <= k < i ==> #[trigger] out@[k] == reward_status_numbers(
                            names_of(*list),
                        )[k],
                decreases names.len() - i,
            {
                assert(names_of(*list)[i as int] == names@[i as int]@);
                match ProposalRewardStatus::from_str(names[i].as_str()) {
                    Some(v) => {
                        out.push(v.to_i32());
                    },
                    None => {
                        assert(ProposalRewardStatus::of_name(names_of(*list)[i as int]) is None);
                        return None;
                    },
                }
                i += 1;
            }
            assert(out@ =~= reward_status_numbers(names_of(*list)));
            Some(out)
        },
    }
}

/// The numbers of the statuses that the names denote, in the order of the
/// names, or `None` where a name denotes none.
pub fn statuses_to_numbers(list: &Option<Vec<String>>) -> (r: Option<Vec<i32>>)
    ensures
        r is Some <==> are_statuses(names_of(*list)),
        r matches Some(v) ==> v@ == status_numbers(names_of(*list)),
{
    let mut out: Vec<i32> = Vec::new();
    match list {
        None => {
            assert(out@ =~= status_numbers(names_of(*list)));
            Some(out)
        },
        Some(names) => {
            let mut i: usize = 0;
            while i < names.len()
                invariant
                    0 <= i <= names.len(),
                    *list == Some(*names),
                    out@.len() == i,
                    forall|k: int|
                        0 <= k < i ==> ProposalStatus::of_name(#[trigger] names_of(*list)[k])
                            is Some,
                    forall|k: int|
                        0 <= k < i ==> #[trigger] out@[k] == status_numbers(names_of(*list))[k],
                decreases names.len() - i,
            {
                assert(names_of(*list)[i as int] == names@[i as int]@);
                match ProposalStatus::from_str(names[i].as_str()) {
                    Some(v) => {
                        out.push(v.to_i32());
                    },
                    None => {
                        assert(ProposalStatus::of_name(names_of(*list)[i as int]) is None);
                        return None;
                    },
                }
                i += 1;
            }
            assert(out@ =~= status_numbers(names_of(*list)));
            Some(out)
        },
    }
}

/// The numbers of the topics that the names denote, in the order of the
/// names, or `None` where a name denotes none.
pub fn topics_to_numbers(list: &Option<Vec<String>>) -> (r: Option<Vec<i32>>)
    ensures
        r is Some <==> are_topics(names_of(*list)),
        r matches Some(v) ==> v@ == topic_numbers(names_of(*list)),
{
    let mut out: Vec<i32> = Vec::new();
    match list {
        None => {
            assert(out@ =~= topic_numbers(names_of(*list)));
            Some(out)
        },
        Some(names) => {
            let mut i: usize = 0;
            while i < names.len()
                invariant
                    0 <= i <= names.len(),
                    *list == Some(*names),
                    out@.len() == i,
                    forall|k: int|
                        0 <= k < i ==> Topic::of_name(#[trigger] names_of(*list)[k]) is Some,
                    forall|k: int|
                        0 <= k < i ==> #[trigger] out@[k] == topic_numbers(names_of(*list))[k],
                decreases names.len() - i,
            {
                assert(names_of(*list)[i as int] == names@[i as int]@);
                match Topic::from_str(names[i].as_str()) {
                    Some(v) => {
                        out.push(v.to_i32());
                    },
                    None => {
                        assert(Topic::of_name(names_of(*list)[i as int]) is None);
                        return None;
                    },
                }
                i += 1;
            }
            assert(out@ =~= topic_numbers(names_of(*list)));
            Some(out)
        },
    }
}

/// Whether the names of a listing all denote something.
pub open spec fn has_known_names(opts: ListPropsalOpts) -> bool {
    &&& are_reward_statuses(names_of(opts.include_reward_status))
    &&& are_topics(names_of(opts.exclude_topic))
    &&& are_statuses(names_of(opts.include_status))
}

/// The filter of a listing, or `None` where one of its names denotes
/// nothing: each name gives way to its number, in the same order, and the
/// proposal to start before and the limit stay as they are.
pub fn list_proposal_info(opts: &ListPropsalOpts) -> (r: Option<ListProposalInfo>)
    ensures
        r is Some <==> has_known_names(*opts),
        r matches Some(info) ==> {
            &&& info.include_reward_status@ == reward_status_numbers(
                names_of(opts.include_reward_status),
            )
            &&& info.exclude_topic@ == topic_numbers(names_of(opts.exclude_topic))
            &&& info.include_status@ == status_numbers(names_of(opts.include_status))
            &&& info.before_proposal == opts.before_proposal
            &&& info.limit == opts.limit
        },
{
    let include_reward_status = match reward_statuses_to_numbers(&opts.include_reward_status) {
        Some(v) => v,
        None => {
            return None;
        },
    };
    let exclude_topic = match topics_to_numbers(&opts.exclude_topic) {
        Some(v) => v,
        None => {
            return None;
        },
    };
    let include_status = match statuses_to_numbers(&opts.include_status) {
        Some(v) => v,
        None => {
            return None;
        },
    };
    Some(
        ListProposalInfo {
            include_status,
            include_reward_status,
            exclude_topic,
            before_proposal: opts.before_proposal,
            limit: opts.limit,
        },
    )
}

/// The subnets of an authorization: those that were given, and none where
/// none were.
pub fn authorized_subnets(opts: AuthToSubnetOpts) -> (r: Vec<Principal>)
    ensures
        match opts.subnets {
            Some(v) => r == v,
            None => r@.len() == 0,
        },
{
    match opts.subnets {
        Some(v) => v,
        None => Vec::new(),
    }
}

} // verus!
