//! The reward status, the status and the topic of a proposal: their names on
//! the command line and their numbers on the wire.
use vstd::prelude::*;
use vstd::string::*;
use crate::call_type::same_text;
use crate::principal::Principal;

verus! {

/// Where a proposal stands with respect to voting rewards.
#[derive(Clone, Copy, Debug, PartialEq, Eq, Structural)]
pub enum ProposalRewardStatus {
    Unspecified,
    /// The proposal still accepts votes, for the purpose of vote rewards.
    AcceptVotes,
    /// The proposal no longer accepts votes and is due to settle at the
    /// next reward event.
    ReadyToSettle,
    /// The proposal has been taken into account in a reward event.
    Settled,
    /// The proposal is not eligible to be taken into account in a reward
    /// event.
    Ineligible,
}

/// Where a proposal stands with respect to its decision.
#[derive(Clone, Copy, Debug, PartialEq, Eq, Structural)]
pub enum ProposalStatus {
    Unspecified,
    /// A decision has yet to be made.
    Open,
    /// The proposal has been rejected.
    Rejected,
    /// The proposal has been adopted; the outcome of its execution is not
    /// yet known.
    Adopted,
    /// The proposal was adopted and successfully executed.
    Executed,
    /// The proposal was adopted, but execution failed.
    Failed,
}

/// What a proposal is about.
#[derive(Clone, Copy, Debug, PartialEq, Eq, Structural)]
pub enum Topic {
    Unspecified,
    NeuronManagement,
    ExchangeRate,
    NetworkEconomics,
    Governance,
    NodeAdmin,
    ParticipantManagement,
    SubnetManagement,
    NetworkCanisterManagement,
    Kyc,
    NodeProviderRewards,
}

impl ProposalRewardStatus {
    /// The name of the status on the command line.
    pub open spec fn name(&self) -> Seq<char> {
        match self {
            ProposalRewardStatus::Unspecified => "unspecified"@,
            ProposalRewardStatus::AcceptVotes => "accept_votes"@,
            ProposalRewardStatus::ReadyToSettle => "ready_to_settle"@,
            ProposalRewardStatus::Settled => "settled"@,
            ProposalRewardStatus::Ineligible => "ineligible"@,
        }
    }

    /// The number of the status on the wire.
    pub open spec fn number(&self) -> int {
        match self {
            ProposalRewardStatus::Unspecified => 0,
            ProposalRewardStatus::AcceptVotes => 1,
            ProposalRewardStatus::ReadyToSettle => 2,
            ProposalRewardStatus::Settled => 3,
            ProposalRewardStatus::Ineligible => 4,
        }
    }

    /// The status that a name denotes, if it denotes one.
    pub open spec fn of_name(text: Seq<char>) -> Option<ProposalRewardStatus> {
        if text == "unspecified"@ {
            Some(ProposalRewardStatus::Unspecified)
        } else if text == "accept_votes"@ {
            Some(ProposalRewardStatus::AcceptVotes)
        } else if text == "ready_to_settle"@ {
            Some(ProposalRewardStatus::ReadyToSettle)
        } else if text == "settled"@ {
            Some(ProposalRewardStatus::Settled)
        } else if text == "ineligible"@ {
            Some(ProposalRewardStatus::Ineligible)
        } else {
            None
        }
    }

    /// The status that a name denotes, if it denotes one.
    pub fn from_str(text: &str) -> (r: Option<ProposalRewardStatus>)
        ensures
            r == Self::of_name(text@),
    {
        if same_text(text, "unspecified") {
            Some(ProposalRewardStatus::Unspecified)
        } else if same_text(text, "accept_votes") {
            Some(ProposalRewardStatus::AcceptVotes)
        } else if same_text(text, "ready_to_settle") {
            Some(ProposalRewardStatus::ReadyToSettle)
        } else if same_text(text, "settled") {
            Some(ProposalRewardStatus::Settled)
        } else if same_text(text, "ineligible") {
            Some(ProposalRewardStatus::Ineligible)
        } else {
            None
        }
    }

    /// The name of the status.
    pub fn as_ref(&self) -> (r: &'static str)
        ensures
            r@ == self.name(),
    {
        match self {
            ProposalRewardStatus::Unspecified => "unspecified",
            ProposalRewardStatus::AcceptVotes => "accept_votes",
            ProposalRewardStatus::ReadyToSettle => "ready_to_settle",
            ProposalRewardStatus::Settled => "settled",
            ProposalRewardStatus::Ineligible => "ineligible",
        }
    }

    /// The number of the status on the wire.
    pub fn to_i32(&self) -> (r: i32)
        ensures
            r == self.number(),
            0 <= r <= 4,
    {
        match self {
            ProposalRewardStatus::Unspecified => 0,
            ProposalRewardStatus::AcceptVotes => 1,
            ProposalRewardStatus::ReadyToSettle => 2,
            ProposalRewardStatus::Settled => 3,
            ProposalRewardStatus::Ineligible => 4,
        }
    }
}

/// Each reward status is the one that its own name denotes.
pub proof fn lemma_reward_status_names(status: ProposalRewardStatus)
    ensures
        ProposalRewardStatus::of_name(status.name()) == Some(status),
{
    reveal_strlit("unspecified");
    reveal_strlit("accept_votes");
    reveal_strlit("ready_to_settle");
    reveal_strlit("settled");
    reveal_strlit("ineligible");
    assert("unspecified"@.len() == 11);
    assert("accept_votes"@.len() == 12);
    assert("ready_to_settle"@.len() == 15);
    assert("settled"@.len() == 7);
    assert("ineligible"@.len() == 10);
}

impl ProposalStatus {
    /// The name of the status on the command line.
    pub open spec fn name(&self) -> Seq<char> {
        match self {
            ProposalStatus::Unspecified => "unspecified"@,
            ProposalStatus::Open => "open"@,
            ProposalStatus::Rejected => "rejected"@,
            ProposalStatus::Adopted => "adopted"@,
            ProposalStatus::Executed => "executed"@,
            ProposalStatus::Failed => "failed"@,
        }
    }

    /// The number of the status on the wire.
    pub open spec fn number(&self) -> int {
        match self {
            ProposalStatus::Unspecified => 0,
            ProposalStatus::Open => 1,
            ProposalStatus::Rejected => 2,
            ProposalStatus::Adopted => 3,
            ProposalStatus::Executed => 4,
            ProposalStatus::Failed => 5,
        }
    }

    /// The status that a name denotes, if it denotes one.
    pub open spec fn of_name(text: Seq<char>) -> Option<ProposalStatus> {
        if text == "unspecified"@ {
            Some(ProposalStatus::Unspecified)
        } else if text == "open"@ {
            Some(ProposalStatus::Open)
        } else if text == "rejected"@ {
            Some(ProposalStatus::Rejected)
        } else if text == "adopted"@ {
            Some(ProposalStatus::Adopted)
        } else if text == "executed"@ {
            Some(ProposalStatus::Executed)
        } else if text == "failed"@ {
            Some(ProposalStatus::Failed)
        } else {
            None
        }
    }

    /// The status that a name denotes, if it denotes one.
    pub fn from_str(text: &str) -> (r: Option<ProposalStatus>)
        ensures
            r == Self::of_name(text@),
    {
        if same_text(text, "unspecified") {
            Some(ProposalStatus::Unspecified)
        } else if same_text(text, "open") {
            Some(ProposalStatus::Open)
        } else if same_text(text, "rejected") {
            Some(ProposalStatus::Rejected)
        } else if same_text(text, "adopted") {
            Some(ProposalStatus::Adopted)
        } else if same_text(text, "executed") {
            Some(ProposalStatus::Executed)
        } else if same_text(text, "failed") {
            Some(ProposalStatus::Failed)
        } else {
            None
        }
    }

    /// The name of the status.
    pub fn as_ref(&self) -> (r: &'static str)
        ensures
            r@ == self.name(),
    {
        match self {
            ProposalStatus::Unspecified => "unspecified",
            ProposalStatus::Open => "open",
            ProposalStatus::Rejected => "rejected",
            ProposalStatus::Adopted => "adopted",
            ProposalStatus::Executed => "executed",
            ProposalStatus::Failed => "failed",
        }
    }

    /// The number of the status on the wire.
    pub fn to_i32(&self) -> (r: i32)
        ensures
            r == self.number(),
            0 <= r <= 5,
    {
        match self {
            ProposalStatus::Unspecified => 0,
            ProposalStatus::Open => 1,
            ProposalStatus::Rejected => 2,
            ProposalStatus::Adopted => 3,
            ProposalStatus::Executed => 4,
            ProposalStatus::Failed => 5,
        }
    }
}

/// Each status is the one that its own name denotes.
pub proof fn lemma_proposal_status_names(value: ProposalStatus)
    ensures
        ProposalStatus::of_name(value.name()) == Some(value),
{
    reveal_strlit("unspecified");
    reveal_strlit("open");
    reveal_strlit("rejected");
    reveal_strlit("adopted");
    reveal_strlit("executed");
    reveal_strlit("failed");
    assert("unspecified"@.len() == 11);
    assert("open"@.len() == 4);
    assert("rejected"@.len() == 8);
    assert("adopted"@.len() == 7);
    assert("executed"@.len() == 8);
    assert("failed"@.len() == 6);
    assert("rejected"@[0] == 'r' && "executed"@[0] == 'e');
}

impl Topic {
    /// The name of the topic on the command line.
    pub open spec fn name(&self) -> Seq<char> {
        match self {
            Topic::Unspecified => "unspecified"@,
            Topic::NeuronManagement => "neuron_management"@,
            Topic::ExchangeRate => "exchange_rate"@,
            Topic::NetworkEconomics => "network_economics"@,
            Topic::Governance => "governance"@,
            Topic::NodeAdmin => "node_admin"@,
            Topic::ParticipantManagement => "participant_management"@,
            Topic::SubnetManagement => "subnet_management"@,
            Topic::NetworkCanisterManagement => "network_canister_management"@,
            Topic::Kyc => "kyc"@,
            Topic::NodeProviderRewards => "node_provider_rewards"@,
        }
    }

    /// The number of the topic on the wire.
    pub open spec fn number(&self) -> int {
        match self {
            Topic::Unspecified => 0,
            Topic::NeuronManagement => 1,
            Topic::ExchangeRate => 2,
            Topic::NetworkEconomics => 3,
            Topic::Governance => 4,
            Topic::NodeAdmin => 5,
            Topic::ParticipantManagement => 6,
            Topic::SubnetManagement => 7,
            Topic::NetworkCanisterManagement => 8,
            Topic::Kyc => 9,
            Topic::NodeProviderRewards => 10,
        }
    }

    /// The topic that a name denotes, if it denotes one.
    pub open spec fn of_name(text: Seq<char>) -> Option<Topic> {
        if text == "unspecified"@ {
            Some(Topic::Unspecified)
        } else if text == "neuron_management"@ {
            Some(Topic::NeuronManagement)
        } else if text == "exchange_rate"@ {
            Some(Topic::ExchangeRate)
        } else if text == "network_economics"@ {
            Some(Topic::NetworkEconomics)
        } else if text == "governance"@ {
            Some(Topic::Governance)
        } else if text == "node_admin"@ {
            Some(Topic::NodeAdmin)
        } else if text == "participant_management"@ {
            Some(Topic::ParticipantManagement)
        } else if text == "subnet_management"@ {
            Some(Topic::SubnetManagement)
        } else if text == "network_canister_management"@ {
            Some(Topic::NetworkCanisterManagement)
        } else if text == "kyc"@ {
            Some(Topic::Kyc)
        } else if text == "node_provider_rewards"@ {
            Some(Topic::NodeProviderRewards)
        } else {
            None
        }
    }

    /// The topic that a name denotes, if it denotes one.
    pub fn from_str(text: &str) -> (r: Option<Topic>)
        ensures
            r == Self::of_name(text@),
    {
        if same_text(text, "unspecified") {
            Some(Topic::Unspecified)
        } else if same_text(text, "neuron_management") {
            Some(Topic::NeuronManagement)
        } else if same_text(text, "exchange_rate") {
            Some(Topic::ExchangeRate)
        } else if same_text(text, "network_economics") {
            Some(Topic::NetworkEconomics)
        } else if same_text(text, "governance") {
            Some(Topic::Governance)
        } else if same_text(text, "node_admin") {
            Some(Topic::NodeAdmin)
        } else if same_text(text, "participant_management") {
            Some(Topic::ParticipantManagement)
        } else if same_text(text, "subnet_management") {
            Some(Topic::SubnetManagement)
        } else if same_text(text, "network_canister_management") {
            Some(Topic::NetworkCanisterManagement)
        } else if same_text(text, "kyc") {
            Some(Topic::Kyc)
        } else if same_text(text, "node_provider_rewards") {
            Some(Topic::NodeProviderRewards)
        } else {
            None
        }
    }

    /// The name of the topic.
    pub fn as_ref(&self) -> (r: &'static str)
        ensures
            r@ == self.name(),
    {
        match self {
            Topic::Unspecified => "unspecified",
            Topic::NeuronManagement => "neuron_management",
            Topic::ExchangeRate => "exchange_rate",
            Topic::NetworkEconomics => "network_economics",
            Topic::Governance => "governance",
            Topic::NodeAdmin => "node_admin",
            Topic::ParticipantManagement => "participant_management",
            Topic::SubnetManagement => "subnet_management",
            Topic::NetworkCanisterManagement => "network_canister_management",
            Topic::Kyc => "kyc",
            Topic::NodeProviderRewards => "node_provider_rewards",
        }
    }

    /// The number of the topic on the wire.
    pub fn to_i32(&self) -> (r: i32)
        ensures
            r == self.number(),
            0 <= r <= 10,
    {
        match self {
            Topic::Unspecified => 0,
            Topic::NeuronManagement => 1,
            Topic::ExchangeRate => 2,
            Topic::NetworkEconomics => 3,
            Topic::Governance => 4,
            Topic::NodeAdmin => 5,
            Topic::ParticipantManagement => 6,
            Topic::SubnetManagement => 7,
            Topic::NetworkCanisterManagement => 8,
            Topic::Kyc => 9,
            Topic::NodeProviderRewards => 10,
        }
    }
}

/// Each topic is the one that its own name denotes.
pub proof fn lemma_topic_names(value: Topic)
    ensures
        Topic::of_name(value.name()) == Some(value),
{
    reveal_strlit("unspecified");
    reveal_strlit("neuron_management");
    reveal_strlit("exchange_rate");
    reveal_strlit("network_economics");
    reveal_strlit("governance");
    reveal_strlit("node_admin");
    reveal_strlit("participant_management");
    reveal_strlit("subnet_management");
    reveal_strlit("network_canister_management");
    reveal_strlit("kyc");
    reveal_strlit("node_provider_rewards");
    assert("unspecified"@.len() == 11);
    assert("neuron_management"@.len() == 17);
    assert("exchange_rate"@.len() == 13);
    assert("network_economics"@.len() == 17);
    assert("governance"@.len() == 10);
    assert("node_admin"@.len() == 10);
    assert("participant_management"@.len() == 22);
    assert("subnet_management"@.len() == 17);
    assert("network_canister_management"@.len() == 27);
    assert("kyc"@.len() == 3);
    assert("node_provider_rewards"@.len() == 21);
    assert("neuron_management"@[2] == 'u' && "network_economics"@[2] == 't');
    assert("neuron_management"@[0] == 'n' && "subnet_management"@[0] == 's');
    assert("network_economics"@[0] == 'n' && "subnet_management"@[0] == 's');
    assert("governance"@[0] == 'g' && "node_admin"@[0] == 'n');
}

/// The bytes of the principal of the ledger canister.
pub open spec fn ledger_canister_bytes() -> Seq<u8> {
    seq![0u8, 0u8, 0u8, 0u8, 0u8, 0u8, 0u8, 2u8, 1u8, 1u8]
}

/// The bytes of the principal of the governance canister.
pub open spec fn governance_canister_bytes() -> Seq<u8> {
    seq![0u8, 0u8, 0u8, 0u8, 0u8, 0u8, 0u8, 1u8, 1u8, 1u8]
}

/// The principal of the ledger canister.
pub fn ledger_canister_id() -> (p: Principal)
    ensures
        p@ == ledger_canister_bytes(),
{
    let bytes: Vec<u8> = vec![0u8, 0u8, 0u8, 0u8, 0u8, 0u8, 0u8, 2u8, 1u8, 1u8];
    assert(bytes@ =~= ledger_canister_bytes());
    Principal::from_slice(&bytes)
}

/// The principal of the governance canister.
pub fn governance_canister_id() -> (p: Principal)
    ensures
        p@ == governance_canister_bytes(),
{
    let bytes: Vec<u8> = vec![0u8, 0u8, 0u8, 0u8, 0u8, 0u8, 0u8, 1u8, 1u8, 1u8];
    assert(bytes@ =~= governance_canister_bytes());
    Principal::from_slice(&bytes)
}

} // verus!
