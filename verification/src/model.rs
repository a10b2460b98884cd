//! The governor as a mathematical state machine: its tables as maps and
//! sets, and each operation as a function from state to state.

use vstd::prelude::*;
use crate::types::{
    AccountId, Balance, DaoError, Proposal, ProposalId, ProposalVote, Timestamp, VoteType,
    ONE_MINUTE,
};

verus! {

/// The weight cast for and against one proposal, as natural numbers.
pub struct Tally {
    pub for_weight: nat,
    pub against_weight: nat,
}

impl View for ProposalVote {
    type V = Tally;

    open spec fn view(&self) -> Tally {
        Tally { for_weight: self.for_votes as nat, against_weight: self.against_votes as nat }
    }
}

impl Tally {
    /// Whether a proposal with this tally can be executed under `quorum`: the
    /// weight of both sides together reaches the quorum, and the weight in
    /// favour exceeds the weight against.
    pub open spec fn accepted(self, quorum: u8) -> bool {
        self.for_weight + self.against_weight >= quorum && self.for_weight > self.against_weight
    }

    /// The tally with `weight` more on the side that `vote` names.
    pub open spec fn counting(self, vote: VoteType, weight: nat) -> Tally {
        match vote {
            VoteType::For => Tally { for_weight: self.for_weight + weight, ..self },
            VoteType::Against => Tally { against_weight: self.against_weight + weight, ..self },
        }
    }
}

/// Everything the governor remembers.
pub struct GovernorState {
    /// The proposals made so far, by identifier.
    pub proposals: Map<ProposalId, Proposal>,
    /// The tally of each proposal.
    pub tallies: Map<ProposalId, Tally>,
    /// Who has voted on what: pairs of a proposal and an account's bytes.
    pub ballots: Set<(ProposalId, Seq<u8>)>,
    /// The identifier given out last; 0 before the first proposal.
    pub next_proposal_id: ProposalId,
    /// The account of the token whose balances weigh the votes.
    pub governance_token: AccountId,
    /// The least total weight with which a proposal can be executed.
    pub quorum: u8,
}

/// A voter's weight: the balance as a whole percentage of the supply, rounded
/// down. The balance is scaled by 100 before it is divided, so a holder of
/// less than the whole supply keeps the weight of their share. With nothing
/// in supply every weight is 0.
pub open spec fn spec_vote_weight(balance: nat, total_supply: nat) -> nat {
    if total_supply == 0 {
        0
    } else {
        (balance * 100) / total_supply
    }
}

/// The reason for which a proposal of `amount` over `duration` is refused by
/// a governor that holds `held_balance`, if there is one. The amount is
/// looked at first, then the duration, then the funds.
pub open spec fn propose_error(amount: Balance, duration: u64, held_balance: Balance) -> Option<
    DaoError,
> {
    if amount == 0 {
        Some(DaoError::AmountShouldNotBeZero)
    } else if duration == 0 {
        Some(DaoError::DurationError)
    } else if amount > held_balance {
        Some(DaoError::AmountExceedsBalance)
    } else {
        None
    }
}

/// The end of a voting window that opens at `now` and lasts `duration` minutes.
pub open spec fn window_end(now: Timestamp, duration: u64) -> int {
    now + duration * ONE_MINUTE
}

impl GovernorState {
    /// Identifiers run from 1 to the last one given out, every proposal has
    /// its tally, every window ends after it starts, a proposal that has
    /// been executed had been accepted, and ballots are held only for
    /// proposals that exist.
    pub open spec fn wf(self) -> bool {
        &&& forall|id: ProposalId| #[trigger]
            self.proposals.dom().contains(id) <==> 1 <= id <= self.next_proposal_id
        &&& forall|id: ProposalId| #[trigger]
            self.tallies.dom().contains(id) <==> 1 <= id <= self.next_proposal_id
        &&& forall|id: ProposalId| #[trigger]
            self.proposals.dom().contains(id) ==> self.proposals[id].vote_start
                < self.proposals[id].vote_end
        &&& forall|id: ProposalId| #[trigger]
            self.proposals.dom().contains(id) && self.proposals[id].executed
                ==> self.tallies[id].accepted(self.quorum)
        &&& forall|id: ProposalId, who: Seq<u8>| #[trigger]
            self.ballots.contains((id, who)) ==> self.proposals.dom().contains(id)
    }

    /// Whether this state keeps everything that `earlier` held: the same
    /// token and quorum, every proposal with its recipient, amount and
    /// window, every execution, every ballot, at least the weight on each
    /// side of every tally, and no identifier given back.
    pub open spec fn extends(self, earlier: GovernorState) -> bool {
        &&& self.governance_token == earlier.governance_token
        &&& self.quorum == earlier.quorum
        &&& self.next_proposal_id >= earlier.next_proposal_id
        &&& forall|id: ProposalId| #[trigger]
            earlier.proposals.dom().contains(id) ==> {
                &&& self.proposals.dom().contains(id)
                &&& self.proposals[id].to == earlier.proposals[id].to
                &&& self.proposals[id].amount == earlier.proposals[id].amount
                &&& self.proposals[id].vote_start == earlier.proposals[id].vote_start
                &&& self.proposals[id].vote_end == earlier.proposals[id].vote_end
                &&& earlier.proposals[id].executed ==> self.proposals[id].executed
            }
        &&& forall|id: ProposalId| #[trigger]
            earlier.tallies.dom().contains(id) ==> {
                &&& self.tallies.dom().contains(id)
                &&& self.tallies[id].for_weight >= earlier.tallies[id].for_weight
                &&& self.tallies[id].against_weight >= earlier.tallies[id].against_weight
            }
        &&& forall|ballot: (ProposalId, Seq<u8>)| #[trigger]
            earlier.ballots.contains(ballot) ==> self.ballots.contains(ballot)
    }

    /// The governor before any proposal.
    pub open spec fn init(governance_token: AccountId, quorum: u8) -> GovernorState {
        GovernorState {
            proposals: Map::empty(),
            tallies: Map::empty(),
            ballots: Set::empty(),
            next_proposal_id: 0,
            governance_token,
            quorum,
        }
    }

    /// The state with one more proposal, opened at `now` for `duration`
    /// minutes, under the next identifier and with an empty tally.
    pub open spec fn with_proposal(
        self,
        to: AccountId,
        amount: Balance,
        duration: u64,
        now: Timestamp,
    ) -> GovernorState {
        let id = (self.next_proposal_id + 1) as ProposalId;
        let proposal = Proposal {
            to,
            vote_start: now,
            vote_end: window_end(now, duration) as Timestamp,
            executed: false,
            amount,
        };
        GovernorState {
            proposals: self.proposals.insert(id, proposal),
            tallies: self.tallies.insert(id, Tally { for_weight: 0, against_weight: 0 }),
            next_proposal_id: id,
            ..self
        }
    }

    /// The state after `propose`: unchanged where the proposal is refused.
    pub open spec fn after_propose(
        self,
        to: AccountId,
        amount: Balance,
        duration: u64,
        held_balance: Balance,
        now: Timestamp,
    ) -> GovernorState {
        if propose_error(amount, duration, held_balance) is None {
            self.with_proposal(to, amount, duration, now)
        } else {
            self
        }
    }

    /// The reason for which a vote of `caller` on `proposal_id` at `now` is
    /// refused, if there is one. The proposal must exist, must not have been
    /// executed, and its window must not have passed (the end itself is
    /// inside the window); then the caller must not have voted on it before.
    pub open spec fn vote_error(
        self,
        proposal_id: ProposalId,
        caller: Seq<u8>,
        now: Timestamp,
    ) -> Option<DaoError> {
        if !self.proposals.dom().contains(proposal_id) {
            Some(DaoError::ProposalNotFound)
        } else if self.proposals[proposal_id].executed {
            Some(DaoError::ProposalAlreadyExecuted)
        } else if self.proposals[proposal_id].vote_end < now {
            Some(DaoError::VotePeriodEnded)
        } else if self.ballots.contains((proposal_id, caller)) {
            Some(DaoError::AlreadyVoted)
        } else {
            None
        }
    }

    /// The state with the ballot of `caller` on `proposal_id` recorded and
    /// `weight` added to the side of the tally that `vote` names.
    pub open spec fn with_vote(
        self,
        proposal_id: ProposalId,
        vote: VoteType,
        caller: Seq<u8>,
        weight: nat,
    ) -> GovernorState {
        GovernorState {
            ballots: self.ballots.insert((proposal_id, caller)),
            tallies: self.tallies.insert(
                proposal_id,
                self.tallies[proposal_id].counting(vote, weight),
            ),
            ..self
        }
    }

    /// Whether the tally of `proposal_id` can take `weight` more: the weight
    /// of both sides together is kept in 128 bits.
    pub open spec fn can_count(self, proposal_id: ProposalId, weight: nat) -> bool {
        self.tallies[proposal_id].for_weight + self.tallies[proposal_id].against_weight + weight
            <= u128::MAX
    }

    /// The state after `vote`: unchanged where the vote is refused.
    pub open spec fn after_vote(
        self,
        proposal_id: ProposalId,
        vote: VoteType,
        caller: Seq<u8>,
        now: Timestamp,
        weight: nat,
    ) -> GovernorState {
        if self.vote_error(proposal_id, caller, now) is None {
            self.with_vote(proposal_id, vote, caller, weight)
        } else {
            self
        }
    }

    /// The reason for which the execution of `proposal_id` is refused, if
    /// there is one. The proposal must exist and must not have been executed;
    /// the weight cast on both sides together must reach the quorum; and the
    /// weight in favour must exceed the weight against, so a tie is refused.
    /// The voting window plays no part.
    pub open spec fn execute_error(self, proposal_id: ProposalId) -> Option<DaoError> {
        if !self.proposals.dom().contains(proposal_id) {
            Some(DaoError::ProposalNotFound)
        } else if self.proposals[proposal_id].executed {
            Some(DaoError::ProposalAlreadyExecuted)
        } else if self.tallies[proposal_id].for_weight + self.tallies[proposal_id].against_weight
            < self.quorum {
            Some(DaoError::QuorumNotReached)
        } else if self.tallies[proposal_id].for_weight <= self.tallies[proposal_id].against_weight {
            Some(DaoError::ProposalNotAccepted)
        } else {
            None
        }
    }

    /// The state with `proposal_id` marked as executed.
    pub open spec fn with_execution(self, proposal_id: ProposalId) -> GovernorState {
        let proposal = self.proposals[proposal_id];
        GovernorState {
            proposals: self.proposals.insert(proposal_id, Proposal { executed: true, ..proposal }),
            ..self
        }
    }

    /// The state after `execute`: unchanged where the execution is refused.
    pub open spec fn after_execute(self, proposal_id: ProposalId) -> GovernorState {
        if self.execute_error(proposal_id) is None {
            self.with_execution(proposal_id)
        } else {
            self
        }
    }
}

} // verus!
