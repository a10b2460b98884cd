//! The governor's tables as plain data: the form in which a host keeps them
//! between calls, and the operations that change them.

use vstd::prelude::*;
use crate::model::{GovernorState, Tally};
use crate::types::{AccountId, Proposal, ProposalId, ProposalVote, VoteType};

verus! {

/// The tables and the configuration of a governor. The proposal with
/// identifier `id` and its tally stand at index `id - 1`; `votes` holds one
/// pair for each ballot cast.
pub struct GovernorData {
    pub proposals: Vec<Proposal>,
    pub next_proposal_id: ProposalId,
    pub votes: Vec<(ProposalId, AccountId)>,
    pub proposal_votes: Vec<ProposalVote>,
    pub governance_token: AccountId,
    pub quorum: u8,
}

/// Every voting window ends after it starts.
pub open spec fn windows_open(proposals: Seq<Proposal>) -> bool {
    forall|i: int|
        0 <= i < proposals.len() ==> (#[trigger] proposals[i]).vote_start < proposals[i].vote_end
}

/// The weight of both sides of every tally together fits in 128 bits.
pub open spec fn tallies_fit(tallies: Seq<ProposalVote>) -> bool {
    forall|i: int|
        0 <= i < tallies.len() ==> (#[trigger] tallies[i]).for_votes + tallies[i].against_votes
            <= u128::MAX
}

/// A proposal that has been executed has a tally with which it could be.
pub open spec fn executions_accepted(
    proposals: Seq<Proposal>,
    tallies: Seq<ProposalVote>,
    quorum: u8,
) -> bool {
    forall|i: int|
        0 <= i < proposals.len() && i < tallies.len() && (#[trigger] proposals[i]).executed
            ==> tallies[i]@.accepted(quorum)
}

/// Every ballot is for a proposal with an identifier from 1 to `last`.
pub open spec fn ballots_known(votes: Seq<(ProposalId, AccountId)>, last: ProposalId) -> bool {
    forall|i: int| 0 <= i < votes.len() ==> 1 <= (#[trigger] votes[i]).0 <= last
}

/// Whether two ballots are of the same account on the same proposal.
pub open spec fn same_ballot(a: (ProposalId, AccountId), b: (ProposalId, AccountId)) -> bool {
    a.0 == b.0 && a.1@ == b.1@
}

/// No ballot is held twice.
pub open spec fn ballots_distinct(votes: Seq<(ProposalId, AccountId)>) -> bool {
    forall|i: int, j: int|
        0 <= i < j < votes.len() ==> !same_ballot(#[trigger] votes[i], #[trigger] votes[j])
}

impl GovernorData {
    /// What a governor's tables always satisfy: both tables are as long as
    /// the number of identifiers given out, and the five conditions above
    /// hold of them.
    pub open spec fn valid(&self) -> bool {
        &&& self.proposals.len() == self.next_proposal_id
        &&& self.proposal_votes.len() == self.next_proposal_id
        &&& windows_open(self.proposals@)
        &&& tallies_fit(self.proposal_votes@)
        &&& executions_accepted(self.proposals@, self.proposal_votes@, self.quorum)
        &&& ballots_known(self.votes@, self.next_proposal_id)
        &&& ballots_distinct(self.votes@)
    }

    /// Whether the tables hold a ballot of the account with these bytes on
    /// this proposal.
    pub open spec fn has_ballot(&self, ballot: (ProposalId, Seq<u8>)) -> bool {
        exists|i: int|
            0 <= i < self.votes.len() && (#[trigger] self.votes[i]).0 == ballot.0
                && self.votes[i].1@ == ballot.1
    }

    /// The proposals by identifier.
    pub open spec fn proposals_map(&self) -> Map<ProposalId, Proposal> {
        Map::new(
            |id: ProposalId| 1 <= id <= self.proposals.len(),
            |id: ProposalId| self.proposals[id - 1],
        )
    }

    /// The tallies by identifier.
    pub open spec fn tallies_map(&self) -> Map<ProposalId, Tally> {
        Map::new(
            |id: ProposalId| 1 <= id <= self.proposal_votes.len(),
            |id: ProposalId| self.proposal_votes[id - 1]@,
        )
    }

    /// The ballots as a set.
    pub open spec fn ballots(&self) -> Set<(ProposalId, Seq<u8>)> {
        Set::new(|ballot: (ProposalId, Seq<u8>)| self.has_ballot(ballot))
    }

    /// The state that the tables stand for.
    pub open spec fn state(&self) -> GovernorState {
        GovernorState {
            proposals: self.proposals_map(),
            tallies: self.tallies_map(),
            ballots: self.ballots(),
            next_proposal_id: self.next_proposal_id,
            governance_token: self.governance_token,
            quorum: self.quorum,
        }
    }

    /// Valid tables stand for a well-formed state.
    pub proof fn lemma_valid_state_wf(&self)
        requires
            self.valid(),
        ensures
            self.state().wf(),
    {
        let state = self.state();
        assert forall|id: ProposalId, who: Seq<u8>| #[trigger]
            state.ballots.contains((id, who)) implies state.proposals.dom().contains(id) by {
            let i = choose|i: int|
                0 <= i < self.votes.len() && (#[trigger] self.votes[i]).0 == id
                    && self.votes[i].1@ == who;
            assert(1 <= self.votes[i].0 <= self.next_proposal_id);
        }
    }

    /// Tables without proposals.
    pub fn empty(governance_token: AccountId, quorum: u8) -> (data: GovernorData)
        ensures
            data.valid(),
            data.state() == GovernorState::init(governance_token, quorum),
    {
        let data = GovernorData {
            proposals: Vec::new(),
            next_proposal_id: 0,
            votes: Vec::new(),
            proposal_votes: Vec::new(),
            governance_token,
            quorum,
        };
        proof {
            let init = GovernorState::init(governance_token, quorum);
            assert(data.state().proposals =~= init.proposals);
            assert(data.state().tallies =~= init.tallies);
            assert(data.state().ballots =~= init.ballots);
        }
        data
    }

    /// Whether the tables are valid, found out by looking through them.
    pub fn is_valid(&self) -> (valid: bool)
        ensures
            valid == self.valid(),
    {
        let count: usize = self.proposals.len();
        if self.proposal_votes.len() != count {
            return false;
        }
        if self.next_proposal_id > usize::MAX as u64 {
            return false;
        }
        if self.next_proposal_id as usize != count {
            return false;
        }
        self.check_windows() && self.check_tallies() && self.check_executions()
            && self.check_ballots_known() && self.check_ballots_distinct()
    }

    fn check_windows(&self) -> (ok: bool)
        ensures
            ok == windows_open(self.proposals@),
    {
        let mut i: usize = 0;
        while i < self.proposals.len()
            invariant
                i <= self.proposals.len(),
                windows_open(self.proposals@.take(i as int)),
            decreases self.proposals.len() - i,
        {
            if self.proposals[i].vote_start >= self.proposals[i].vote_end {
                return false;
            }
            assert forall|k: int| 0 <= k < i + 1 implies (#[trigger] self.proposals@.take(
                i + 1,
            )[k]).vote_start < self.proposals@.take(i + 1)[k].vote_end by {
                if k < i {
                    assert(self.proposals@.take(i as int)[k] == self.proposals@[k]);
                }
            }
            i += 1;
        }
        assert(self.proposals@.take(i as int) =~= self.proposals@);
        true
    }

    fn check_tallies(&self) -> (ok: bool)
        ensures
            ok == tallies_fit(self.proposal_votes@),
    {
        let mut i: usize = 0;
        while i < self.proposal_votes.len()
            invariant
                i <= self.proposal_votes.len(),
                forall|k: int|
                    0 <= k < i ==> (#[trigger] self.proposal_votes@[k]).for_votes
                        + self.proposal_votes@[k].against_votes <= u128::MAX,
            decreases self.proposal_votes.len() - i,
        {
            let tally: ProposalVote = self.proposal_votes[i];
            if tally.against_votes > u128::MAX - tally.for_votes {
                return false;
            }
            i += 1;
        }
        true
    }

    fn check_executions(&self) -> (ok: bool)
        requires
            self.proposals.len() == self.proposal_votes.len(),
        ensures
            ok == executions_accepted(self.proposals@, self.proposal_votes@, self.quorum),
    {
        let quorum: u128 = self.quorum as u128;
        let mut i: usize = 0;
        while i < self.proposals.len()
            invariant
                i <= self.proposals.len(),
                self.proposals.len() == self.proposal_votes.len(),
                quorum == self.quorum,
                forall|k: int|
                    0 <= k < i && (#[trigger] self.proposals@[k]).executed
                        ==> self.proposal_votes@[k]@.accepted(self.quorum),
            decreases self.proposals.len() - i,
        {
            if self.proposals[i].executed {
                let tally: ProposalVote = self.proposal_votes[i];
                let reached = tally.for_votes >= quorum || tally.against_votes >= quorum
                    - tally.for_votes;
                if !(reached && tally.for_votes > tally.against_votes) {
                    assert(!self.proposal_votes@[i as int]@.accepted(self.quorum));
                    return false;
                }
            }
            i += 1;
        }
        true
    }

    fn check_ballots_known(&self) -> (ok: bool)
        ensures
            ok == ballots_known(self.votes@, self.next_proposal_id),
    {
        let mut i: usize = 0;
        while i < self.votes.len()
            invariant
                i <= self.votes.len(),
                ballots_known(self.votes@.take(i as int), self.next_proposal_id),
            decreases self.votes.len() - i,
        {
            if self.votes[i].0 < 1 || self.votes[i].0 > self.next_proposal_id {
                return false;
            }
            assert forall|k: int| 0 <= k < i + 1 implies 1 <= (#[trigger] self.votes@.take(
                i + 1,
            )[k]).0 <= self.next_proposal_id by {
                if k < i {
                    assert(self.votes@.take(i as int)[k] == self.votes@[k]);
                }
            }
            i += 1;
        }
        assert(self.votes@.take(i as int) =~= self.votes@);
        true
    }

    fn check_ballots_distinct(&self) -> (ok: bool)
        ensures
            ok == ballots_distinct(self.votes@),
    {
        let mut j: usize = 0;
        while j < self.votes.len()
            invariant
                j <= self.votes.len(),
                forall|a: int, b: int|
                    0 <= a < b < j ==> !same_ballot(
                        #[trigger] self.votes@[a],
                        #[trigger] self.votes@[b],
                    ),
            decreases self.votes.len() - j,
        {
            let mut i: usize = 0;
            while i < j
                invariant
                    i <= j < self.votes.len(),
                    forall|a: int|
                        0 <= a < i ==> !same_ballot(#[trigger] self.votes@[a], self.votes@[j as int]),
                decreases j - i,
            {
                if self.votes[i].0 == self.votes[j].0 && self.votes[i].1 == self.votes[j].1 {
                    assert(same_ballot(self.votes@[i as int], self.votes@[j as int]));
                    return false;
                }
                i += 1;
            }
            j += 1;
        }
        true
    }

    /// Whether `proposal_id` has been given out.
    pub(crate) fn known(&self, proposal_id: ProposalId) -> (known: bool)
        requires
            self.valid(),
        ensures
            known == self.proposals_map().dom().contains(proposal_id),
    {
        1 <= proposal_id && proposal_id <= self.next_proposal_id
    }

    pub(crate) fn proposal(&self, proposal_id: ProposalId) -> (proposal: Proposal)
        requires
            self.valid(),
            self.proposals_map().dom().contains(proposal_id),
        ensures
            proposal == self.proposals_map()[proposal_id],
    {
        self.proposals[(proposal_id - 1) as usize]
    }

    pub(crate) fn tally(&self, proposal_id: ProposalId) -> (tally: ProposalVote)
        requires
            self.valid(),
            self.proposals_map().dom().contains(proposal_id),
        ensures
            tally@ == self.tallies_map()[proposal_id],
            tally == self.proposal_votes[proposal_id - 1],
            tally.for_votes + tally.against_votes <= u128::MAX,
    {
        self.proposal_votes[(proposal_id - 1) as usize]
    }

    /// Whether `caller` has a ballot on `proposal_id`.
    pub(crate) fn has_voted(&self, proposal_id: ProposalId, caller: &AccountId) -> (found: bool)
        ensures
            found == self.ballots().contains((proposal_id, caller@)),
    {
        let mut i: usize = 0;
        while i < self.votes.len()
            invariant
                i <= self.votes.len(),
                forall|k: int|
                    0 <= k < i ==> !((#[trigger] self.votes[k]).0 == proposal_id
                        && self.votes[k].1@ == caller@),
            decreases self.votes.len() - i,
        {
            if self.votes[i].0 == proposal_id && self.votes[i].1 == *caller {
                return true;
            }
            i += 1;
        }
        false
    }

    /// Stores `proposal` under the next identifier, with an empty tally.
    pub(crate) fn push_proposal(&mut self, proposal: Proposal) -> (id: ProposalId)
        requires
            old(self).valid(),
            proposal.vote_start < proposal.vote_end,
            !proposal.executed,
        ensures
            final(self).valid(),
            id == old(self).next_proposal_id + 1,
            final(self).state() == (GovernorState {
                proposals: old(self).state().proposals.insert(id, proposal),
                tallies: old(self).state().tallies.insert(
                    id,
                    Tally { for_weight: 0, against_weight: 0 },
                ),
                next_proposal_id: id,
                ..old(self).state()
            }),
    {
        self.proposals.push(proposal);
        self.proposal_votes.push(ProposalVote { for_votes: 0, against_votes: 0 });
        let count: usize = self.proposals.len();
        self.next_proposal_id = count as u64;
        proof {
            assert(final(self).proposals_map() =~= old(self).proposals_map().insert(
                self.next_proposal_id,
                proposal,
            ));
            assert(final(self).tallies_map() =~= old(self).tallies_map().insert(
                self.next_proposal_id,
                Tally { for_weight: 0, against_weight: 0 },
            ));
            assert(self.votes@ == old(self).votes@);
            assert forall|ballot: (ProposalId, Seq<u8>)|
                final(self).has_ballot(ballot) == old(self).has_ballot(ballot) by {}
            assert(final(self).ballots() =~= old(self).ballots());
        }
        self.next_proposal_id
    }

    /// Records the ballot of `caller` on `proposal_id` and counts `weight`
    /// on the side that `vote` names.
    pub(crate) fn record_vote(
        &mut self,
        proposal_id: ProposalId,
        vote: VoteType,
        caller: AccountId,
        weight: u128,
    )
        requires
            old(self).valid(),
            old(self).proposals_map().dom().contains(proposal_id),
            !old(self).proposals_map()[proposal_id].executed,
            !old(self).ballots().contains((proposal_id, caller@)),
            old(self).state().can_count(proposal_id, weight as nat),
        ensures
            final(self).valid(),
            final(self).state() == old(self).state().with_vote(
                proposal_id,
                vote,
                caller@,
                weight as nat,
            ),
    {
        let index: usize = (proposal_id - 1) as usize;
        let tally: ProposalVote = self.proposal_votes[index];
        self.votes.push((proposal_id, caller));
        let counted = match vote {
            VoteType::For => ProposalVote { for_votes: tally.for_votes + weight, ..tally },
            VoteType::Against => ProposalVote {
                against_votes: tally.against_votes + weight,
                ..tally
            },
        };
        self.proposal_votes.set(index, counted);
        proof {
            let last = old(self).votes.len() as int;
            assert(self.votes[last] == (proposal_id, caller));
            assert(!old(self).has_ballot((proposal_id, caller@)));
            assert forall|i: int, j: int| 0 <= i < j < self.votes.len() implies !same_ballot(
                #[trigger] self.votes@[i],
                #[trigger] self.votes@[j],
            ) by {
                if j < last {
                    assert(self.votes@[i] == old(self).votes@[i]);
                    assert(self.votes@[j] == old(self).votes@[j]);
                } else {
                    assert(self.votes@[i] == old(self).votes@[i]);
                }
            }
            assert forall|ballot: (ProposalId, Seq<u8>)|
                final(self).has_ballot(ballot) == (old(self).has_ballot(ballot) || ballot == (
                    proposal_id,
                    caller@,
                )) by {
                if old(self).has_ballot(ballot) {
                    let i = choose|i: int|
                        0 <= i < old(self).votes.len() && (#[trigger] old(self).votes[i]).0
                            == ballot.0 && old(self).votes[i].1@ == ballot.1;
                    assert(self.votes[i] == old(self).votes[i]);
                }
                if final(self).has_ballot(ballot) {
                    let i = choose|i: int|
                        0 <= i < self.votes.len() && (#[trigger] self.votes[i]).0 == ballot.0
                            && self.votes[i].1@ == ballot.1;
                    if i < last {
                        assert(self.votes[i] == old(self).votes[i]);
                    }
                }
            }
            assert(final(self).ballots() =~= old(self).ballots().insert((proposal_id, caller@)));
            assert(final(self).proposals_map() =~= old(self).proposals_map());
            assert(counted@ == old(self).tallies_map()[proposal_id].counting(vote, weight as nat));
            assert(final(self).tallies_map() =~= old(self).tallies_map().insert(
                proposal_id,
                counted@,
            ));
        }
    }

    /// Marks `proposal_id` as executed.
    pub(crate) fn mark_executed(&mut self, proposal_id: ProposalId)
        requires
            old(self).valid(),
            old(self).proposals_map().dom().contains(proposal_id),
            old(self).tallies_map()[proposal_id].accepted(old(self).quorum),
        ensures
            final(self).valid(),
            final(self).state() == old(self).state().with_execution(proposal_id),
    {
        let index: usize = (proposal_id - 1) as usize;
        let proposal: Proposal = self.proposals[index];
        self.proposals.set(index, Proposal { executed: true, ..proposal });
        proof {
            assert(final(self).proposals_map() =~= old(self).proposals_map().insert(
                proposal_id,
                Proposal { executed: true, ..proposal },
            ));
            assert(final(self).tallies_map() =~= old(self).tallies_map());
            assert(self.votes@ == old(self).votes@);
            assert forall|ballot: (ProposalId, Seq<u8>)|
                final(self).has_ballot(ballot) == old(self).has_ballot(ballot) by {}
            assert(final(self).ballots() =~= old(self).ballots());
        }
    }
}

} // verus!
