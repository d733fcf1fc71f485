//! Upgrade proposals: voting and the decision once the voting period ends.

use vstd::prelude::*;
use crate::error::ContractError;

verus! {

/// The vote count that a quorum percentage is taken of.
pub const QUORUM_BASE: u128 = 100;

/// One voter's choice.
#[derive(Clone, Copy, Debug, PartialEq, Eq, Structural)]
pub enum VoteOption {
    Yes,
    No,
    Abstain,
}

/// Where a proposal stands.
#[derive(Clone, Copy, Debug, PartialEq, Eq, Structural)]
pub enum ProposalStatus {
    Pending,
    Passed,
    Rejected,
    Executed,
}

/// Voting rules.
#[derive(Clone, Copy, Debug, PartialEq, Eq, Structural)]
pub struct GovernanceConfig {
    /// Seconds that a proposal stays open for votes.
    pub voting_period: u64,
    /// Share of the quorum base that must vote, in percent (1 to 100).
    pub quorum_percentage: u64,
}

/// A proposal to upgrade a contract, with its tally.
#[derive(Clone, Debug, PartialEq, Eq)]
pub struct Proposal {
    pub id: u64,
    pub title: String,
    pub description: String,
    pub status: ProposalStatus,
    pub contract_addr: String,
    pub new_code_id: u64,
    pub yes_votes: u128,
    pub no_votes: u128,
    pub abstain_votes: u128,
    pub end_time: u64,
}

/// Whether enough votes were cast: `total * 100 >= QUORUM_BASE * quorum_percentage`.
pub open spec fn quorum_reached(p: Proposal, quorum_percentage: nat) -> bool {
    (p.yes_votes + p.no_votes + p.abstain_votes) * 100 >= QUORUM_BASE * quorum_percentage
}

impl GovernanceConfig {
    /// Voting rules; `InvalidConfiguration` unless the quorum is 1 to 100 percent.
    pub fn new(voting_period: u64, quorum_percentage: u64) -> (r: Result<GovernanceConfig, ContractError>)
        ensures
            r is Ok <==> 1 <= quorum_percentage <= 100,
            r is Ok ==> r->Ok_0 == (GovernanceConfig { voting_period, quorum_percentage }),
            r is Err ==> r->Err_0 == ContractError::InvalidConfiguration,
    {
        if quorum_percentage > 100 || quorum_percentage == 0 {
            return Err(ContractError::InvalidConfiguration);
        }
        Ok(GovernanceConfig { voting_period, quorum_percentage })
    }
}

impl Proposal {
    /// The next proposal after `proposal_count` others, open until `now`
    /// plus the voting period; `Overflow` where the id or the end time does
    /// not fit.
    pub fn new(
        proposal_count: u64,
        title: String,
        description: String,
        contract_addr: String,
        new_code_id: u64,
        now: u64,
        voting_period: u64,
    ) -> (r: Result<Proposal, ContractError>)
        ensures
            r is Ok <==> proposal_count + 1 <= u64::MAX && now + voting_period <= u64::MAX,
            r is Ok ==> r->Ok_0 == (Proposal {
                id: (proposal_count + 1) as u64,
                title,
                description,
                status: ProposalStatus::Pending,
                contract_addr,
                new_code_id,
                yes_votes: 0,
                no_votes: 0,
                abstain_votes: 0,
                end_time: (now + voting_period) as u64,
            }),
            r is Err ==> r->Err_0 == ContractError::Overflow,
    {
        if proposal_count == u64::MAX || now > u64::MAX - voting_period {
            return Err(ContractError::Overflow);
        }
        Ok(Proposal {
            id: proposal_count + 1,
            title,
            description,
            status: ProposalStatus::Pending,
            contract_addr,
            new_code_id,
            yes_votes: 0,
            no_votes: 0,
            abstain_votes: 0,
            end_time: now + voting_period,
        })
    }

    /// Records one vote at time `now`: `InvalidProposalState` after the end
    /// time or once the proposal left `Pending`, `Overflow` where the count
    /// is full; the proposal is unchanged on failure.
    pub fn execute_vote(&mut self, now: u64, vote: VoteOption) -> (r: Result<(), ContractError>)
        ensures
            now > old(self).end_time || old(self).status != ProposalStatus::Pending
                ==> r == Err::<(), ContractError>(ContractError::InvalidProposalState),
            r is Err ==> *final(self) == *old(self),
            r is Ok <==> now <= old(self).end_time && old(self).status == ProposalStatus::Pending && match vote {
                VoteOption::Yes => old(self).yes_votes < u128::MAX,
                VoteOption::No => old(self).no_votes < u128::MAX,
                VoteOption::Abstain => old(self).abstain_votes < u128::MAX,
            },
            r is Ok ==> *final(self) == match vote {
                VoteOption::Yes => Proposal { yes_votes: (old(self).yes_votes + 1) as u128, ..*old(self) },
                VoteOption::No => Proposal { no_votes: (old(self).no_votes + 1) as u128, ..*old(self) },
                VoteOption::Abstain => Proposal { abstain_votes: (old(self).abstain_votes + 1) as u128, ..*old(self) },
            },
            now <= old(self).end_time && old(self).status == ProposalStatus::Pending && r is Err
                ==> r->Err_0 == ContractError::Overflow,
    {
        if now > self.end_time || self.status != ProposalStatus::Pending {
            return Err(ContractError::InvalidProposalState);
        }
        match vote {
            VoteOption::Yes => {
                if self.yes_votes == u128::MAX {
                    return Err(ContractError::Overflow);
                }
                self.yes_votes = self.yes_votes + 1;
            },
            VoteOption::No => {
                if self.no_votes == u128::MAX {
                    return Err(ContractError::Overflow);
                }
                self.no_votes = self.no_votes + 1;
            },
            VoteOption::Abstain => {
                if self.abstain_votes == u128::MAX {
                    return Err(ContractError::Overflow);
                }
                self.abstain_votes = self.abstain_votes + 1;
            },
        }
        Ok(())
    }

    /// Decides the proposal once `now` is past its end time:
    /// `InvalidProposalState` before that, then `Unauthorized` unless the
    /// caller was authorized, then `QuorumNotReached`; otherwise it becomes
    /// `Executed` when the yes votes outnumber the no votes and `Rejected`
    /// otherwise, and the result says whether it passed.
    pub fn execute_proposal(&mut self, now: u64, authorized: bool, quorum_percentage: u64) -> (r: Result<bool, ContractError>)
        ensures
            now <= old(self).end_time ==> r == Err::<bool, ContractError>(ContractError::InvalidProposalState),
            now > old(self).end_time && !authorized ==> r == Err::<bool, ContractError>(ContractError::Unauthorized),
            now > old(self).end_time && authorized && !quorum_reached(*old(self), quorum_percentage as nat)
                ==> r == Err::<bool, ContractError>(ContractError::QuorumNotReached),
            r is Ok <==> now > old(self).end_time && authorized && quorum_reached(*old(self), quorum_percentage as nat),
            r is Err ==> *final(self) == *old(self),
            r is Ok ==> r->Ok_0 == (old(self).yes_votes > old(self).no_votes) && *final(self) == (Proposal {
                status: if old(self).yes_votes > old(self).no_votes {
                    ProposalStatus::Executed
                } else {
                    ProposalStatus::Rejected
                },
                ..*old(self)
            }),
    {
        if now <= self.end_time {
            return Err(ContractError::InvalidProposalState);
        }
        if !authorized {
            return Err(ContractError::Unauthorized);
        }
        let required = QUORUM_BASE * (quorum_percentage as u128);
        let reached = match self.yes_votes.checked_add(self.no_votes) {
            None => true,
            Some(partial) => match partial.checked_add(self.abstain_votes) {
                None => true,
                Some(total) => match total.checked_mul(100) {
                    None => true,
                    Some(scaled) => scaled >= required,
                },
            },
        };
        if !reached {
            return Err(ContractError::QuorumNotReached);
        }
        let passed = self.yes_votes > self.no_votes;
        if passed {
            self.status = ProposalStatus::Executed;
        } else {
            self.status = ProposalStatus::Rejected;
        }
        Ok(passed)
    }
}

} // verus!
