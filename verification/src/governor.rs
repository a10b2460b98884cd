//! The governor: the tables it owns and the three operations on them.

use vstd::prelude::*;
use vstd::pervasive::unreached;
use crate::model::{propose_error, spec_vote_weight, window_end, GovernorState};
use crate::storage::GovernorData;
use crate::types::{
    AccountId, Balance, DaoError, Proposal, ProposalId, ProposalVote, Timestamp, Transfer,
    VoteType, ONE_MINUTE,
};
use crate::weight::vote_weight;

verus! {

/// Whether a proposal of `amount` over `duration` can be opened by a governor
/// that holds `held_balance`, and if not, why not.
pub fn check_proposal(
    amount: Balance,
    duration: u64,
    held_balance: Balance,
) -> (res: Result<(), DaoError>)
    ensures
        res == (match propose_error(amount, duration, held_balance) {
            Some(e) => Err::<(), DaoError>(e),
            None => Ok::<(), DaoError>(()),
        }),
{
    if amount == 0 {
        Err(DaoError::AmountShouldNotBeZero)
    } else if duration == 0 {
        Err(DaoError::DurationError)
    } else if amount > held_balance {
        Err(DaoError::AmountExceedsBalance)
    } else {
        Ok(())
    }
}

/// Whether the end of a window that opens at `now` and lasts `duration`
/// minutes is a `Timestamp`.
pub fn window_fits(now: Timestamp, duration: u64) -> (fits: bool)
    ensures
        fits == (window_end(now, duration) <= u64::MAX),
{
    duration <= (u64::MAX - now) / ONE_MINUTE
}

/// A governor: the proposals made so far, their tallies, the ballots cast,
/// the account of the governance token and the quorum. Its tables are valid
/// at all times, so no operation asks the caller for that.
pub struct Governor {
    data: GovernorData,
}

impl View for Governor {
    type V = GovernorState;

    closed spec fn view(&self) -> GovernorState {
        self.data.state()
    }
}

impl Governor {
    #[verifier::type_invariant]
    spec fn inv(self) -> bool {
        self.data.valid()
    }

    /// A governor without proposals, for the given token and quorum.
    pub fn new(governance_token: AccountId, quorum: u8) -> (governor: Governor)
        ensures
            governor@ == GovernorState::init(governance_token, quorum),
            governor@.wf(),
    {
        let data = GovernorData::empty(governance_token, quorum);
        proof {
            data.lemma_valid_state_wf();
        }
        Governor { data }
    }

    /// The governor that stands on `data`, where the tables are valid.
    pub fn restore(data: GovernorData) -> (res: Option<Governor>)
        ensures
            res is Some <==> data.valid(),
            res matches Some(governor) ==> governor@ == data.state() && governor@.wf(),
    {
        if data.is_valid() {
            proof {
                data.lemma_valid_state_wf();
            }
            Some(Governor { data })
        } else {
            None
        }
    }

    /// The governor's tables, to be kept until the next call.
    pub fn into_data(self) -> (data: GovernorData)
        ensures
            data.valid(),
            data.state() == self@,
    {
        proof {
            use_type_invariant(&self);
        }
        self.data
    }

    /// Opens a proposal to pay `amount` to `to`, with a voting window of
    /// `duration` minutes from `now`. `held_balance` is what the governor
    /// holds at `now`.
    ///
    /// A zero amount is refused first, then a zero duration, then an amount
    /// above the held balance; a refusal changes nothing. Otherwise the
    /// proposal is stored under the next identifier with an empty tally, and
    /// the identifier is returned. The end of the window must be a
    /// `Timestamp`.
    pub fn propose(
        &mut self,
        to: AccountId,
        amount: Balance,
        duration: u64,
        held_balance: Balance,
        now: Timestamp,
    ) -> (res: Result<ProposalId, DaoError>)
        requires
            propose_error(amount, duration, held_balance) is None ==> window_end(now, duration)
                <= u64::MAX,
        ensures
            amount == 0 ==> res == Err::<ProposalId, DaoError>(DaoError::AmountShouldNotBeZero),
            amount != 0 && duration == 0 ==> res == Err::<ProposalId, DaoError>(
                DaoError::DurationError,
            ),
            amount != 0 && duration != 0 && amount > held_balance ==> res == Err::<
                ProposalId,
                DaoError,
            >(DaoError::AmountExceedsBalance),
            res is Ok <==> amount > 0 && duration > 0 && amount <= held_balance,
            res is Err ==> final(self)@ == old(self)@,
            res matches Ok(id) ==> {
                &&& id == old(self)@.next_proposal_id + 1
                &&& final(self)@ == old(self)@.with_proposal(to, amount, duration, now)
                &&& final(self)@.proposals[id].vote_end - final(self)@.proposals[id].vote_start
                    == duration * ONE_MINUTE
                &&& !final(self)@.proposals[id].executed
            },
            final(self)@ == old(self)@.after_propose(to, amount, duration, held_balance, now),
            final(self)@.wf(),
    {
        proof {
            use_type_invariant(&*self);
            self.data.lemma_valid_state_wf();
        }
        match check_proposal(amount, duration, held_balance) {
            Err(e) => {
                return Err(e);
            },
            Ok(_) => {},
        }
        let proposal = Proposal {
            to,
            vote_start: now,
            vote_end: now + duration * ONE_MINUTE,
            executed: false,
            amount,
        };
        let mut data = GovernorData::empty(self.data.governance_token, self.data.quorum);
        std::mem::swap(&mut data, &mut self.data);
        let id = data.push_proposal(proposal);
        self.data = data;
        proof {
            self.data.lemma_valid_state_wf();
        }
        Ok(id)
    }

    /// Whether a vote of `caller` on `proposal_id` at `now` would be
    /// admitted, before the caller's weight is known.
    pub fn check_vote(
        &self,
        proposal_id: ProposalId,
        caller: &AccountId,
        now: Timestamp,
    ) -> (res: Result<(), DaoError>)
        ensures
            res == (match self@.vote_error(proposal_id, caller@, now) {
                Some(e) => Err::<(), DaoError>(e),
                None => Ok::<(), DaoError>(()),
            }),
    {
        proof {
            use_type_invariant(self);
        }
        if !self.data.known(proposal_id) {
            return Err(DaoError::ProposalNotFound);
        }
        let proposal = self.data.proposal(proposal_id);
        if proposal.executed {
            return Err(DaoError::ProposalAlreadyExecuted);
        }
        if proposal.vote_end < now {
            return Err(DaoError::VotePeriodEnded);
        }
        if self.data.has_voted(proposal_id, caller) {
            return Err(DaoError::AlreadyVoted);
        }
        Ok(())
    }

    /// Whether the tally of `proposal_id` can take the weight of a voter for
    /// whom the governance token reports `caller_balance` out of
    /// `total_supply`. Of a proposal that does not exist nothing is asked.
    pub fn vote_fits(
        &self,
        proposal_id: ProposalId,
        caller_balance: Balance,
        total_supply: Balance,
    ) -> (fits: bool)
        ensures
            fits == (self@.proposals.dom().contains(proposal_id) ==> self@.can_count(
                proposal_id,
                spec_vote_weight(caller_balance as nat, total_supply as nat),
            )),
    {
        proof {
            use_type_invariant(self);
        }
        if !self.data.known(proposal_id) {
            return true;
        }
        let tally = self.data.tally(proposal_id);
        match vote_weight(caller_balance, total_supply) {
            Some(weight) => weight <= u128::MAX - (tally.for_votes + tally.against_votes),
            None => false,
        }
    }

    /// Casts the vote of `caller` on `proposal_id` at `now`. `caller_balance`
    /// and `total_supply` are what the governance token reports for the
    /// caller and for itself.
    ///
    /// The vote is refused, and nothing changes, where `check_vote` refuses
    /// it, whatever the token reports. Otherwise the ballot is recorded and
    /// the caller's weight is added to the side of the tally that `vote`
    /// names; the tally must be able to take it, which `vote_fits` tells.
    pub fn vote(
        &mut self,
        proposal_id: ProposalId,
        vote: VoteType,
        caller: AccountId,
        now: Timestamp,
        caller_balance: Balance,
        total_supply: Balance,
    ) -> (res: Result<(), DaoError>)
        requires
            old(self)@.vote_error(proposal_id, caller@, now) is None ==> old(self)@.can_count(
                proposal_id,
                spec_vote_weight(caller_balance as nat, total_supply as nat),
            ),
        ensures
            res == (match old(self)@.vote_error(proposal_id, caller@, now) {
                Some(e) => Err::<(), DaoError>(e),
                None => Ok::<(), DaoError>(()),
            }),
            final(self)@ == old(self)@.after_vote(
                proposal_id,
                vote,
                caller@,
                now,
                spec_vote_weight(caller_balance as nat, total_supply as nat),
            ),
            final(self)@.wf(),
    {
        proof {
            use_type_invariant(&*self);
            self.data.lemma_valid_state_wf();
        }
        match self.check_vote(proposal_id, &caller, now) {
            Err(e) => {
                return Err(e);
            },
            Ok(_) => {},
        }
        let weight = match vote_weight(caller_balance, total_supply) {
            Some(weight) => weight,
            None => unreached(),
        };
        let mut data = GovernorData::empty(self.data.governance_token, self.data.quorum);
        std::mem::swap(&mut data, &mut self.data);
        data.record_vote(proposal_id, vote, caller, weight);
        self.data = data;
        proof {
            self.data.lemma_valid_state_wf();
        }
        Ok(())
    }

    /// Executes `proposal_id`: where the execution is not refused, the
    /// proposal is marked as executed and the payment to make is returned.
    /// The mark is set before the payment is attempted and stays whatever
    /// becomes of the payment. A refusal changes nothing.
    pub fn execute(&mut self, proposal_id: ProposalId) -> (res: Result<Transfer, DaoError>)
        ensures
            res == (match old(self)@.execute_error(proposal_id) {
                Some(e) => Err::<Transfer, DaoError>(e),
                None => Ok::<Transfer, DaoError>(
                    Transfer {
                        to: old(self)@.proposals[proposal_id].to,
                        amount: old(self)@.proposals[proposal_id].amount,
                    },
                ),
            }),
            final(self)@ == old(self)@.after_execute(proposal_id),
            final(self)@.wf(),
    {
        proof {
            use_type_invariant(&*self);
            self.data.lemma_valid_state_wf();
        }
        if !self.data.known(proposal_id) {
            return Err(DaoError::ProposalNotFound);
        }
        let proposal = self.data.proposal(proposal_id);
        if proposal.executed {
            return Err(DaoError::ProposalAlreadyExecuted);
        }
        let tally = self.data.tally(proposal_id);
        let quorum: u128 = self.data.quorum as u128;
        if tally.for_votes + tally.against_votes < quorum {
            return Err(DaoError::QuorumNotReached);
        }
        if tally.for_votes <= tally.against_votes {
            return Err(DaoError::ProposalNotAccepted);
        }
        let mut data = GovernorData::empty(self.data.governance_token, self.data.quorum);
        std::mem::swap(&mut data, &mut self.data);
        data.mark_executed(proposal_id);
        self.data = data;
        proof {
            self.data.lemma_valid_state_wf();
        }
        Ok(Transfer { to: proposal.to, amount: proposal.amount })
    }

    /// The proposal stored under `proposal_id`, if there is one.
    pub fn get_proposal(&self, proposal_id: ProposalId) -> (res: Option<Proposal>)
        ensures
            res == (if self@.proposals.dom().contains(proposal_id) {
                Some(self@.proposals[proposal_id])
            } else {
                None
            }),
    {
        proof {
            use_type_invariant(self);
        }
        if self.data.known(proposal_id) {
            Some(self.data.proposal(proposal_id))
        } else {
            None
        }
    }

    /// The tally of `proposal_id`, if the proposal exists.
    pub fn get_proposal_votes(&self, proposal_id: ProposalId) -> (res: Option<ProposalVote>)
        ensures
            res is Some <==> self@.proposals.dom().contains(proposal_id),
            res matches Some(tally) ==> tally@ == self@.tallies[proposal_id],
    {
        proof {
            use_type_invariant(self);
        }
        if self.data.known(proposal_id) {
            Some(self.data.tally(proposal_id))
        } else {
            None
        }
    }

    /// The identifier given out last; 0 before the first proposal.
    pub fn next_proposal_id(&self) -> (id: ProposalId)
        ensures
            id == self@.next_proposal_id,
    {
        self.data.next_proposal_id
    }

    /// The account of the governance token.
    pub fn governance_token(&self) -> (token: AccountId)
        ensures
            token == self@.governance_token,
    {
        self.data.governance_token
    }

    /// The least total weight with which a proposal can be executed.
    pub fn quorum(&self) -> (quorum: u8)
        ensures
            quorum == self@.quorum,
    {
        self.data.quorum
    }
}

} // verus!
