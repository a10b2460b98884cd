//! What holds of a proposal over its life, proved of the state machine.

use vstd::prelude::*;
use crate::model::{propose_error, window_end, GovernorState};
use crate::types::{AccountId, Balance, DaoError, ProposalId, Timestamp, VoteType};

verus! {

/// An account votes once on a proposal. After its vote has been admitted, a
/// second vote of the same account on the same proposal, while the window is
/// still open, is refused as already cast, whatever its direction and weight,
/// and leaves the tallies and everything else as they were.
pub proof fn lemma_second_vote_refused(
    state: GovernorState,
    proposal_id: ProposalId,
    caller: Seq<u8>,
    first: VoteType,
    first_at: Timestamp,
    first_weight: nat,
    second: VoteType,
    second_at: Timestamp,
    second_weight: nat,
)
    requires
        state.vote_error(proposal_id, caller, first_at) is None,
        second_at <= state.proposals[proposal_id].vote_end,
    ensures
        ({
            let voted = state.after_vote(proposal_id, first, caller, first_at, first_weight);
            let again = voted.after_vote(proposal_id, second, caller, second_at, second_weight);
            &&& voted.ballots.contains((proposal_id, caller))
            &&& voted.vote_error(proposal_id, caller, second_at) == Some(DaoError::AlreadyVoted)
            &&& again == voted
            &&& again.tallies[proposal_id] == voted.tallies[proposal_id]
        }),
{
}

/// A ballot stands in the way of another. Whenever an account has a ballot on
/// a proposal, its vote on that proposal is refused and changes nothing; the
/// reason is that it has voted already, unless the proposal has been
/// executed or its window has passed, which are looked at first.
pub proof fn lemma_ballot_blocks_vote(
    state: GovernorState,
    proposal_id: ProposalId,
    caller: Seq<u8>,
    vote: VoteType,
    now: Timestamp,
    weight: nat,
)
    requires
        state.wf(),
        state.ballots.contains((proposal_id, caller)),
    ensures
        state.vote_error(proposal_id, caller, now) == Some(
            if state.proposals[proposal_id].executed {
                DaoError::ProposalAlreadyExecuted
            } else if state.proposals[proposal_id].vote_end < now {
                DaoError::VotePeriodEnded
            } else {
                DaoError::AlreadyVoted
            },
        ),
        state.after_vote(proposal_id, vote, caller, now, weight) == state,
{
}

/// The voting window includes its end. On a proposal that has not been
/// executed, a vote after the end is refused because the period has ended,
/// and a vote up to and at the end, by an account that has not voted on it,
/// is admitted.
pub proof fn lemma_vote_window(
    state: GovernorState,
    proposal_id: ProposalId,
    caller: Seq<u8>,
    now: Timestamp,
)
    requires
        state.proposals.dom().contains(proposal_id),
        !state.proposals[proposal_id].executed,
    ensures
        now > state.proposals[proposal_id].vote_end ==> state.vote_error(proposal_id, caller, now)
            == Some(DaoError::VotePeriodEnded),
        now <= state.proposals[proposal_id].vote_end && !state.ballots.contains(
            (proposal_id, caller),
        ) ==> state.vote_error(proposal_id, caller, now) is None,
        now == state.proposals[proposal_id].vote_end ==> state.vote_error(proposal_id, caller, now)
            != Some(DaoError::VotePeriodEnded),
{
}

/// Below the quorum nothing is executed. A proposal on which the weight of
/// both sides together is under the quorum is refused for want of a quorum,
/// however the weight is split.
pub proof fn lemma_execute_needs_quorum(state: GovernorState, proposal_id: ProposalId)
    requires
        state.wf(),
        state.proposals.dom().contains(proposal_id),
        state.tallies[proposal_id].for_weight + state.tallies[proposal_id].against_weight
            < state.quorum,
    ensures
        state.execute_error(proposal_id) == Some(DaoError::QuorumNotReached),
        state.after_execute(proposal_id) == state,
{
}

/// A tie is not a majority. A proposal with the quorum reached and as much
/// weight against it as for it is refused as not accepted.
pub proof fn lemma_tie_not_accepted(state: GovernorState, proposal_id: ProposalId)
    requires
        state.wf(),
        state.proposals.dom().contains(proposal_id),
        state.tallies[proposal_id].for_weight + state.tallies[proposal_id].against_weight
            >= state.quorum,
        state.tallies[proposal_id].for_weight == state.tallies[proposal_id].against_weight,
    ensures
        state.execute_error(proposal_id) == Some(DaoError::ProposalNotAccepted),
        state.after_execute(proposal_id) == state,
{
}

/// A proposal is executed once. After an execution that was not refused, a
/// second execution of the same proposal is refused as already executed, and
/// so is every vote on it.
pub proof fn lemma_second_execution_refused(
    state: GovernorState,
    proposal_id: ProposalId,
    caller: Seq<u8>,
    now: Timestamp,
)
    requires
        state.execute_error(proposal_id) is None,
    ensures
        state.after_execute(proposal_id).proposals[proposal_id].executed,
        state.after_execute(proposal_id).execute_error(proposal_id) == Some(
            DaoError::ProposalAlreadyExecuted,
        ),
        state.after_execute(proposal_id).after_execute(proposal_id) == state.after_execute(
            proposal_id,
        ),
        state.after_execute(proposal_id).vote_error(proposal_id, caller, now) == Some(
            DaoError::ProposalAlreadyExecuted,
        ),
{
}

/// Opening a proposal keeps the state well-formed and forgets nothing, as
/// long as an identifier is left and the end of the window is a `Timestamp`.
pub proof fn lemma_propose_keeps_state(
    state: GovernorState,
    to: AccountId,
    amount: Balance,
    duration: u64,
    held_balance: Balance,
    now: Timestamp,
)
    requires
        state.wf(),
        state.next_proposal_id < u64::MAX,
        propose_error(amount, duration, held_balance) is None ==> window_end(now, duration)
            <= u64::MAX,
    ensures
        state.after_propose(to, amount, duration, held_balance, now).wf(),
        state.after_propose(to, amount, duration, held_balance, now).extends(state),
        propose_error(amount, duration, held_balance) is None ==> state.after_propose(
            to,
            amount,
            duration,
            held_balance,
            now,
        ).next_proposal_id == state.next_proposal_id + 1,
{
}

/// A vote keeps the state well-formed and forgets nothing.
pub proof fn lemma_vote_keeps_state(
    state: GovernorState,
    proposal_id: ProposalId,
    vote: VoteType,
    caller: Seq<u8>,
    now: Timestamp,
    weight: nat,
)
    requires
        state.wf(),
    ensures
        state.after_vote(proposal_id, vote, caller, now, weight).wf(),
        state.after_vote(proposal_id, vote, caller, now, weight).extends(state),
{
}

/// An execution keeps the state well-formed and forgets nothing; what it
/// marks stays marked.
pub proof fn lemma_execute_keeps_state(state: GovernorState, proposal_id: ProposalId)
    requires
        state.wf(),
    ensures
        state.after_execute(proposal_id).wf(),
        state.after_execute(proposal_id).extends(state),
{
}

} // verus!
