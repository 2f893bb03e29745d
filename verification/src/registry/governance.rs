//! Proposals: creating one, voting on it and finalizing it.

use super::Registry;
use crate::codec::{encode_proposal, proposal_fields};
use crate::consistency::{lemma_create_proposal_inv, lemma_finalize_inv, lemma_vote_inv};
use crate::framing::lemma_frame_same_len;
use crate::identity::{contains_identity, StorablePrincipal};
use crate::model::{
    outcome, quorum, with_vote, State, DAYS_TO_NANOSECONDS, MIN_PROPOSAL_THRESHOLD,
    QUORUM_PERCENTAGE,
};
use crate::records::id_key;
use crate::store::{table_contents, table_insert, MAX_ENTRY_BYTES};
use crate::tables::lemma_put_proposal;
use crate::types::{
    identities, CreateProposalRequest, Error, Proposal, ProposalStatus, ProposalView, Vote,
};
use vstd::prelude::*;

verus! {

impl Registry {
    /// Creates a proposal of the caller, at time `now`, and returns its id.
    /// On success the proposal is stored under the next id: active, without
    /// votes, open until `now` plus the requested days.
    pub fn create_proposal(
        &mut self,
        caller: &StorablePrincipal,
        request: CreateProposalRequest,
        now: u64,
    ) -> (r: Result<u64, Error>)
        requires
            old(self).wf(),
            old(self)@.create_proposal(caller@, request@, now) is Ok
                ==> old(self)@.create_proposal_fits(caller@, request@, now),
        ensures
            final(self).wf(),
            match r {
                Ok(id) => id == old(self)@.next_proposal_id && old(self)@.create_proposal(
                    caller@,
                    request@,
                    now,
                ) == Ok::<State, Error>(final(self)@),
                Err(e) => old(self)@.create_proposal(caller@, request@, now) == Err::<State, Error>(
                    e,
                ) && final(self)@ == old(self)@,
            },
    {
        match self.try_create_proposal(caller, request, now) {
            Some(r) => r,
            None => {
                proof {
                    assert(false);
                }
                Err(Error::NotRegistered)
            },
        }
    }

    /// Creates a proposal as [`Registry::create_proposal`] does, where that
    /// stays within the limits of the machine; where it would not, returns
    /// nothing and writes nothing.
    pub fn try_create_proposal(
        &mut self,
        caller: &StorablePrincipal,
        request: CreateProposalRequest,
        now: u64,
    ) -> (r: Option<Result<u64, Error>>)
        requires
            old(self).wf(),
        ensures
            final(self).wf(),
            match r {
                Some(Ok(id)) => id == old(self)@.next_proposal_id
                    && old(self)@.create_proposal_fits(caller@, request@, now)
                    && old(self)@.create_proposal(caller@, request@, now) == Ok::<State, Error>(
                    final(self)@,
                ),
                Some(Err(e)) => old(self)@.create_proposal(caller@, request@, now) == Err::<
                    State,
                    Error,
                >(e) && final(self)@ == old(self)@,
                None => old(self)@.create_proposal(caller@, request@, now) is Ok
                    && !old(self)@.create_proposal_fits(caller@, request@, now) && final(self)@
                    == old(self)@,
            },
    {
        if !self.is_registered(caller) {
            return Some(Err(Error::NotRegistered));
        }
        let caller_tokens = self.get_governance_token_balance(caller);
        if caller_tokens < MIN_PROPOSAL_THRESHOLD {
            return Some(Err(Error::InsufficientTokens));
        }
        let id = self.next_proposal_id;
        if id == u64::MAX {
            return None;
        }
        let duration = match request.voting_duration_days.checked_mul(DAYS_TO_NANOSECONDS) {
            Some(d) => d,
            None => {
                return None;
            },
        };
        let voting_ends_at = match now.checked_add(duration) {
            Some(t) => t,
            None => {
                return None;
            },
        };
        let proposal = Proposal {
            id,
            proposer: caller.copy(),
            title: request.title,
            description: request.description,
            proposal_type: request.proposal_type,
            status: ProposalStatus::Active,
            votes_for: 0,
            votes_against: 0,
            voters: Vec::new(),
            created_at: now,
            voting_ends_at,
        };
        assert(identities(proposal.voters@) =~= Seq::<Seq<u8>>::empty());
        let bytes = encode_proposal(&proposal);
        if bytes.len() > MAX_ENTRY_BYTES {
            return None;
        }
        proof {
            lemma_put_proposal(table_contents(self.proposals), id, bytes@, proposal@);
        }
        table_insert(&mut self.proposals, id_key(id), bytes);
        self.next_proposal_id = id + 1;
        proof {
            let after = old(self)@.create_proposal(caller@, request@, now);
            assert(after is Ok);
            assert(self@ =~= after.unwrap());
            lemma_create_proposal_inv(old(self)@, caller@, request@, now);
        }
        Some(Ok(id))
    }

    /// Casts the caller's vote on a proposal, at time `now`. On success the
    /// caller's balance of this moment is added to the side it chose, and the
    /// caller is listed as having voted.
    pub fn vote_on_proposal(
        &mut self,
        caller: &StorablePrincipal,
        proposal_id: u64,
        vote: Vote,
        now: u64,
    ) -> (r: Result<(), Error>)
        requires
            old(self).wf(),
            old(self)@.vote(caller@, proposal_id, vote, now) is Ok ==> old(self)@.vote_fits(
                caller@,
                proposal_id,
                vote,
                now,
            ),
        ensures
            final(self).wf(),
            match r {
                Ok(()) => old(self)@.vote(caller@, proposal_id, vote, now) == Ok::<State, Error>(
                    final(self)@,
                ),
                Err(e) => old(self)@.vote(caller@, proposal_id, vote, now) == Err::<State, Error>(e)
                    && final(self)@ == old(self)@,
            },
    {
        match self.try_vote_on_proposal(caller, proposal_id, vote, now) {
            Some(r) => r,
            None => {
                proof {
                    assert(false);
                }
                Err(Error::NotRegistered)
            },
        }
    }

    /// Casts a vote as [`Registry::vote_on_proposal`] does, where that stays
    /// within the limits of the machine; where it would not, returns nothing
    /// and writes nothing.
    pub fn try_vote_on_proposal(
        &mut self,
        caller: &StorablePrincipal,
        proposal_id: u64,
        vote: Vote,
        now: u64,
    ) -> (r: Option<Result<(), Error>>)
        requires
            old(self).wf(),
        ensures
            final(self).wf(),
            match r {
                Some(Ok(())) => old(self)@.vote_fits(caller@, proposal_id, vote, now)
                    && old(self)@.vote(caller@, proposal_id, vote, now) == Ok::<State, Error>(
                    final(self)@,
                ),
                Some(Err(e)) => old(self)@.vote(caller@, proposal_id, vote, now) == Err::<
                    State,
                    Error,
                >(e) && final(self)@ == old(self)@,
                None => old(self)@.vote(caller@, proposal_id, vote, now) is Ok
                    && !old(self)@.vote_fits(caller@, proposal_id, vote, now) && final(self)@
                    == old(self)@,
            },
    {
        if !self.is_registered(caller) {
            return Some(Err(Error::NotRegistered));
        }
        let voting_power = self.get_governance_token_balance(caller);
        if voting_power == 0 {
            return Some(Err(Error::NoVotingPower));
        }
        let mut proposal = match self.get_proposal(proposal_id) {
            Some(p) => p,
            None => {
                return Some(Err(Error::NotFound));
            },
        };
        let ghost before = proposal@;
        if now > proposal.voting_ends_at {
            return Some(Err(Error::VotingClosed));
        }
        if contains_identity(&proposal.voters, caller) {
            proof {
                let i = choose|i: int|
                    0 <= i < proposal.voters@.len() && (#[trigger] proposal.voters@[i])@
                        == caller@;
                assert(before.voters[i] == caller@);
            }
            return Some(Err(Error::AlreadyVoted));
        }
        assert(!before.voters.contains(caller@)) by {
            if before.voters.contains(caller@) {
                let i = choose|i: int| 0 <= i < before.voters.len() && before.voters[i] == caller@;
                assert(proposal.voters@[i]@ == caller@);
            }
        }
        match vote {
            Vote::For => match proposal.votes_for.checked_add(voting_power) {
                Some(t) => {
                    proposal.votes_for = t;
                },
                None => {
                    return None;
                },
            },
            Vote::Against => match proposal.votes_against.checked_add(voting_power) {
                Some(t) => {
                    proposal.votes_against = t;
                },
                None => {
                    return None;
                },
            },
        }
        proposal.voters.push(caller.copy());
        proof {
            assert(identities(proposal.voters@) =~= before.voters.push(caller@));
            assert(proposal@ == with_vote(before, caller@, voting_power, vote));
        }
        let bytes = encode_proposal(&proposal);
        if bytes.len() > MAX_ENTRY_BYTES {
            return None;
        }
        proof {
            lemma_put_proposal(table_contents(self.proposals), proposal_id, bytes@, proposal@);
        }
        table_insert(&mut self.proposals, id_key(proposal_id), bytes);
        proof {
            let after = old(self)@.vote(caller@, proposal_id, vote, now);
            assert(after is Ok);
            assert(self@ =~= after.unwrap());
            lemma_vote_inv(old(self)@, caller@, proposal_id, vote, now);
        }
        Some(Ok(()))
    }

    /// Finalizes a proposal, at time `now`. On success the proposal has its
    /// outcome: passed where its votes reach the quorum and more weight is for
    /// it than against it, rejected otherwise.
    pub fn finalize_proposal(&mut self, proposal_id: u64, now: u64) -> (r: Result<(), Error>)
        requires
            old(self).wf(),
        ensures
            final(self).wf(),
            match r {
                Ok(()) => old(self)@.finalize(proposal_id, now) == Ok::<State, Error>(final(self)@),
                Err(e) => old(self)@.finalize(proposal_id, now) == Err::<State, Error>(e)
                    && final(self)@ == old(self)@,
            },
    {
        let mut proposal = match self.get_proposal(proposal_id) {
            Some(p) => p,
            None => {
                return Err(Error::NotFound);
            },
        };
        let ghost before = proposal@;
        if now <= proposal.voting_ends_at {
            return Err(Error::VotingStillActive);
        }
        match proposal.status {
            ProposalStatus::Active => {},
            _ => {
                return Err(Error::AlreadyFinalized);
            },
        }
        let total_tokens = self.get_total_governance_tokens();
        proposal.status = decide(proposal.votes_for, proposal.votes_against, total_tokens);
        let bytes = encode_proposal(&proposal);
        proof {
            assert(proposal@ == ProposalView {
                status: outcome(before, self@.total_balance()),
                ..before
            });
            lemma_frame_same_len(proposal_fields(proposal@), proposal_fields(before));
            lemma_put_proposal(table_contents(self.proposals), proposal_id, bytes@, proposal@);
        }
        table_insert(&mut self.proposals, id_key(proposal_id), bytes);
        proof {
            let after = old(self)@.finalize(proposal_id, now);
            assert(after is Ok);
            assert(self@ =~= after.unwrap());
            lemma_finalize_inv(old(self)@, proposal_id, now);
        }
        Ok(())
    }
}

/// The outcome of a proposal with these tallies, where all balances sum to
/// `total`: passed only with the quorum met and strictly more for than
/// against.
pub fn decide(votes_for: u64, votes_against: u64, total: u64) -> (r: ProposalStatus)
    ensures
        r == if votes_for + votes_against < quorum(total as nat) {
            ProposalStatus::Rejected
        } else if votes_for > votes_against {
            ProposalStatus::Passed
        } else {
            ProposalStatus::Rejected
        },
{
    let total_votes: u128 = votes_for as u128 + votes_against as u128;
    let needed: u128 = (total as u128) * (QUORUM_PERCENTAGE as u128) / 100;
    if total_votes < needed {
        ProposalStatus::Rejected
    } else if votes_for > votes_against {
        ProposalStatus::Passed
    } else {
        ProposalStatus::Rejected
    }
}

} // verus!
