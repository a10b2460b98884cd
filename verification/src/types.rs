//! Plain data of the governance module.

use vstd::prelude::*;
use vstd::std_specs::cmp::PartialEqSpecImpl;

verus! {

/// Identifier of a proposal. Identifiers are handed out from 1 upwards.
pub type ProposalId = u64;

/// An amount of the ledger's native currency, or of the governance token.
pub type Balance = u128;

/// A point in ledger time.
pub type Timestamp = u64;

/// Time units in one unit of a proposal's duration.
pub const ONE_MINUTE: u64 = 60;

/// An account of the ledger, named by its 32 bytes.
#[derive(Clone, Copy, Debug)]
pub struct AccountId {
    pub bytes: [u8; 32],
}

impl View for AccountId {
    type V = Seq<u8>;

    open spec fn view(&self) -> Seq<u8> {
        self.bytes@
    }
}

impl AccountId {
    /// The account named by `bytes`.
    pub fn new(bytes: [u8; 32]) -> (account: AccountId)
        ensures
            account.bytes == bytes,
    {
        AccountId { bytes }
    }
}

impl PartialEq for AccountId {
    /// Two accounts are the same when all 32 bytes agree.
    fn eq(&self, other: &AccountId) -> (same: bool) {
        let mut i: usize = 0;
        while i < 32
            invariant
                i <= 32,
                forall|k: int| 0 <= k < i ==> self.bytes@[k] == other.bytes@[k],
            decreases 32 - i,
        {
            if self.bytes[i] != other.bytes[i] {
                return false;
            }
            i += 1;
        }
        assert(self.bytes@ =~= other.bytes@);
        true
    }
}

impl PartialEqSpecImpl for AccountId {
    open spec fn obeys_eq_spec() -> bool {
        true
    }

    open spec fn eq_spec(&self, other: &AccountId) -> bool {
        self@ == other@
    }
}

impl Eq for AccountId {}

/// The direction of a vote.
#[derive(Clone, Copy, Debug, PartialEq, Eq, Structural)]
pub enum VoteType {
    Against,
    For,
}

/// Why an operation of the governor was refused.
#[derive(Clone, Copy, Debug, PartialEq, Eq, Structural)]
pub enum DaoError {
    AmountExceedsBalance,
    AmountShouldNotBeZero,
    DurationError,
    ProposalNotFound,
    ProposalAlreadyExecuted,
    VotePeriodEnded,
    QuorumNotReached,
    ProposalNotAccepted,
    QuorumInvalid,
    AlreadyVoted,
    FailedTransfer,
}

/// A request to transfer `amount` to `to`, open for voting from `vote_start`
/// up to and including `vote_end`.
#[derive(Clone, Copy, Debug, PartialEq, Eq)]
pub struct Proposal {
    pub to: AccountId,
    pub vote_start: Timestamp,
    pub vote_end: Timestamp,
    pub executed: bool,
    pub amount: Balance,
}

/// The weight cast for and against one proposal.
#[derive(Clone, Copy, Debug, PartialEq, Eq, Structural)]
pub struct ProposalVote {
    pub for_votes: u128,
    pub against_votes: u128,
}

impl Default for ProposalVote {
    /// The tally of a proposal on which nobody has voted.
    fn default() -> (tally: ProposalVote)
        ensures
            tally.for_votes == 0,
            tally.against_votes == 0,
    {
        ProposalVote { for_votes: 0, against_votes: 0 }
    }
}

/// The payment that an accepted proposal asks for.
#[derive(Clone, Copy, Debug, PartialEq, Eq)]
pub struct Transfer {
    pub to: AccountId,
    pub amount: Balance,
}

impl Transfer {
    /// What an execution ends with once the ledger has said whether the
    /// payment went through: a payment that failed is reported, and is not
    /// tried again.
    pub fn conclude(&self, sent: bool) -> (res: Result<(), DaoError>)
        ensures
            sent ==> res == Ok::<(), DaoError>(()),
            !sent ==> res == Err::<(), DaoError>(DaoError::FailedTransfer),
    {
        if sent {
            Ok(())
        } else {
            Err(DaoError::FailedTransfer)
        }
    }
}

} // verus!
