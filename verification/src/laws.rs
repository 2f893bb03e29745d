//! What holds of the registry over several operations. The laws are stated
//! over the model, against which every operation of the registry is
//! specified.

use crate::consistency::{
    lemma_create_proposal_inv, lemma_empty_inv, lemma_finalize_inv, lemma_mint_inv,
    lemma_one_owner_entry, lemma_register_inv, lemma_transfer_inv, lemma_vote_inv,
};
use crate::ledger::lemma_sum_bounds;
use crate::model::{
    new_asset, new_profile, new_proposal, State, INITIAL_GOVERNANCE_TOKENS, MINT_REWARD,
};
use crate::types::{
    CreateProposalRequestView, CreateUserRequestView, Error, MintRequestView, ProposalStatus, Vote,
};
use vstd::prelude::*;

verus! {

/// One call of an operation that writes, with what it was called with.
pub enum Op {
    Register {
        caller: Seq<u8>,
        request: CreateUserRequestView,
        resource: Option<Seq<u8>>,
        now: u64,
    },
    Mint { caller: Seq<u8>, request: MintRequestView, now: u64 },
    Transfer { caller: Seq<u8>, id: u64, to: Seq<u8> },
    CreateProposal { caller: Seq<u8>, request: CreateProposalRequestView, now: u64 },
    Vote { caller: Seq<u8>, id: u64, choice: Vote, now: u64 },
    Finalize { id: u64, now: u64 },
}

/// What a call makes of a state, or nothing where it fails.
pub open spec fn attempt(s: State, op: Op) -> Result<State, Error> {
    match op {
        Op::Register { caller, request, resource, now } => s.register(
            caller,
            request,
            resource,
            now,
        ),
        Op::Mint { caller, request, now } => s.mint(caller, request, now),
        Op::Transfer { caller, id, to } => s.transfer(caller, id, to),
        Op::CreateProposal { caller, request, now } => s.create_proposal(caller, request, now),
        Op::Vote { caller, id, choice, now } => s.vote(caller, id, choice, now),
        Op::Finalize { id, now } => s.finalize(id, now),
    }
}

/// Whether a call stays within the limits of the machine.
pub open spec fn within_limits(s: State, op: Op) -> bool {
    match op {
        Op::Register { caller, request, resource, now } => s.register_fits(
            caller,
            request,
            resource,
            now,
        ),
        Op::Mint { caller, request, now } => s.mint_fits(caller, request, now),
        Op::Transfer { caller, id, to } => s.transfer_fits(caller, id, to),
        Op::CreateProposal { caller, request, now } => s.create_proposal_fits(
            caller,
            request,
            now,
        ),
        Op::Vote { caller, id, choice, now } => s.vote_fits(caller, id, choice, now),
        Op::Finalize { id, now } => true,
    }
}

/// Whether a call succeeds: it does not fail, and it stays within the limits
/// of the machine.
pub open spec fn succeeds(s: State, op: Op) -> bool {
    attempt(s, op) is Ok && within_limits(s, op)
}

/// The state after a call: a call that does not succeed leaves the state as
/// it was.
pub open spec fn step(s: State, op: Op) -> State {
    if succeeds(s, op) {
        attempt(s, op).unwrap()
    } else {
        s
    }
}

/// The state after a sequence of calls on a new registry.
pub open spec fn run(ops: Seq<Op>) -> State
    decreases ops.len(),
{
    if ops.len() == 0 {
        State::empty()
    } else {
        step(run(ops.drop_last()), ops.last())
    }
}

/// How many of the calls were mints of `id` that succeeded.
pub open spec fn rewards(ops: Seq<Op>, id: Seq<u8>) -> nat
    decreases ops.len(),
{
    if ops.len() == 0 {
        0
    } else {
        rewards(ops.drop_last(), id) + if ops.last() is Mint && ops.last()->Mint_caller == id
            && succeeds(run(ops.drop_last()), ops.last()) {
            1nat
        } else {
            0nat
        }
    }
}

/// Every call keeps the invariant.
pub proof fn law_step_keeps_invariant(s: State, op: Op)
    requires
        s.inv(),
    ensures
        step(s, op).inv(),
{
    if succeeds(s, op) {
        match op {
            Op::Register { caller, request, resource, now } => {
                lemma_register_inv(s, caller, request, resource, now);
            },
            Op::Mint { caller, request, now } => {
                lemma_mint_inv(s, caller, request, now);
            },
            Op::Transfer { caller, id, to } => {
                lemma_transfer_inv(s, caller, id, to);
            },
            Op::CreateProposal { caller, request, now } => {
                lemma_create_proposal_inv(s, caller, request, now);
            },
            Op::Vote { caller, id, choice, now } => {
                lemma_vote_inv(s, caller, id, choice, now);
            },
            Op::Finalize { id, now } => {
                lemma_finalize_inv(s, id, now);
            },
        }
    }
}

/// After any sequence of calls on a new registry the invariant holds: among
/// the rest, after any sequence of mints and transfers every asset is listed
/// in the index entry of its owner and in no other.
pub proof fn law_reachable_states_are_consistent(ops: Seq<Op>)
    ensures
        run(ops).inv(),
    decreases ops.len(),
{
    if ops.len() == 0 {
        lemma_empty_inv();
    } else {
        law_reachable_states_are_consistent(ops.drop_last());
        law_step_keeps_invariant(run(ops.drop_last()), ops.last());
    }
}

/// What one call does to the balance of an identity: a registration of the
/// identity sets it to the initial grant, a mint by the identity adds the
/// reward, and nothing else changes it.
pub proof fn law_step_changes_balance(s: State, op: Op, id: Seq<u8>)
    requires
        s.inv(),
    ensures
        step(s, op).registered(id) == (s.registered(id) || (op is Register
            && op->Register_caller == id && succeeds(s, op))),
        step(s, op).balance_of(id) == if !succeeds(s, op) {
            s.balance_of(id) as int
        } else if op is Register && op->Register_caller == id {
            INITIAL_GOVERNANCE_TOKENS as int
        } else if op is Mint && op->Mint_caller == id {
            s.balance_of(id) + MINT_REWARD
        } else {
            s.balance_of(id) as int
        },
{
    if succeeds(s, op) {
        match op {
            Op::Mint { caller, request, now } => {
                assert(s.balances.dom().contains(caller));
                lemma_sum_bounds(s.balances, caller);
            },
            _ => {},
        }
    }
}

/// After any sequence of calls on a new registry, the balance of a
/// registered identity is the initial grant and one reward for each asset
/// that it minted; an identity that is not registered has no balance.
pub proof fn law_balance_is_grant_and_rewards(ops: Seq<Op>, id: Seq<u8>)
    ensures
        run(ops).registered(id) ==> run(ops).balance_of(id) == INITIAL_GOVERNANCE_TOKENS
            + MINT_REWARD * rewards(ops, id),
        !run(ops).registered(id) ==> run(ops).balance_of(id) == 0 && rewards(ops, id) == 0,
    decreases ops.len(),
{
    if ops.len() > 0 {
        let before = run(ops.drop_last());
        let op = ops.last();
        law_balance_is_grant_and_rewards(ops.drop_last(), id);
        law_reachable_states_are_consistent(ops.drop_last());
        law_step_changes_balance(before, op, id);
        let earlier = rewards(ops.drop_last(), id);
        assert(MINT_REWARD * (earlier + 1) == MINT_REWARD * earlier + MINT_REWARD)
            by (nonlinear_arith);
        if succeeds(before, op) && op is Mint && op->Mint_caller == id {
            assert(before.registered(id));
            assert(rewards(ops, id) == earlier + 1);
        } else {
            assert(rewards(ops, id) == earlier);
        }
    }
}

/// A second vote of the same caller on the same proposal, while the vote is
/// open, fails as a vote cast already, whatever side it is for.
pub proof fn law_second_vote_is_rejected(
    s: State,
    caller: Seq<u8>,
    id: u64,
    first: Vote,
    now: u64,
    second: Vote,
    later: u64,
)
    requires
        s.vote(caller, id, first, now) is Ok,
        later <= s.proposals[id].voting_ends_at,
    ensures
        s.vote(caller, id, first, now).unwrap().vote(caller, id, second, later) == Err::<
            State,
            Error,
        >(Error::AlreadyVoted),
        step(
            s.vote(caller, id, first, now).unwrap(),
            Op::Vote { caller, id, choice: second, now: later },
        ) == s.vote(caller, id, first, now).unwrap(),
{
    let t = s.vote(caller, id, first, now).unwrap();
    let voters = t.proposals[id].voters;
    assert(voters[voters.len() - 1] == caller);
}

/// A second finalization of the same proposal fails as finalized already,
/// and the first outcome stands.
pub proof fn law_second_finalize_is_rejected(s: State, id: u64, now: u64, later: u64)
    requires
        s.finalize(id, now) is Ok,
        later > s.proposals[id].voting_ends_at,
    ensures
        s.finalize(id, now).unwrap().finalize(id, later) == Err::<State, Error>(
            Error::AlreadyFinalized,
        ),
        step(s.finalize(id, now).unwrap(), Op::Finalize { id, now: later }) == s.finalize(
            id,
            now,
        ).unwrap(),
        s.finalize(id, now).unwrap().proposals[id].status != ProposalStatus::Active,
{
}

/// What a registration, a mint or the creation of a proposal writes is what
/// the store then holds under the caller's identity or the new id.
pub proof fn law_written_record_is_stored(s: State, op: Op)
    requires
        succeeds(s, op),
    ensures
        match op {
            Op::Register { caller, request, resource, now } => step(s, op).registered(caller)
                && step(s, op).users[caller] == new_profile(
                caller,
                request,
                resource.unwrap(),
                now,
            ),
            Op::Mint { caller, request, now } => step(s, op).assets.dom().contains(s.next_token_id)
                && step(s, op).assets[s.next_token_id] == new_asset(
                s.next_token_id,
                caller,
                request,
                now,
            ),
            Op::CreateProposal { caller, request, now } => step(s, op).proposals.dom().contains(
                s.next_proposal_id,
            ) && step(s, op).proposals[s.next_proposal_id] == new_proposal(
                s.next_proposal_id,
                caller,
                request,
                now,
            ),
            _ => true,
        },
{
}

/// A profile stays as it was written, whatever is called.
pub proof fn law_profile_is_kept(s: State, op: Op, id: Seq<u8>)
    requires
        s.registered(id),
    ensures
        step(s, op).registered(id),
        step(s, op).users[id] == s.users[id],
{
}

/// An asset stays as it was until it is transferred.
pub proof fn law_asset_is_kept(s: State, op: Op, id: u64)
    requires
        s.inv(),
        s.assets.dom().contains(id),
        !(op is Transfer && op->Transfer_id == id),
    ensures
        step(s, op).assets.dom().contains(id),
        step(s, op).assets[id] == s.assets[id],
{
}

/// A proposal stays as it was until it is voted on or finalized.
pub proof fn law_proposal_is_kept(s: State, op: Op, id: u64)
    requires
        s.inv(),
        s.proposals.dom().contains(id),
        !(op is Vote && op->Vote_id == id),
        !(op is Finalize && op->Finalize_id == id),
    ensures
        step(s, op).proposals.dom().contains(id),
        step(s, op).proposals[id] == s.proposals[id],
{
}

/// A balance changes only by the registration of its identity and by that
/// identity's mints.
pub proof fn law_balance_is_kept(s: State, op: Op, id: Seq<u8>)
    requires
        !(op is Register && op->Register_caller == id),
        !(op is Mint && op->Mint_caller == id),
    ensures
        step(s, op).balance_of(id) == s.balance_of(id),
{
}

/// After any sequence of calls on a new registry, every asset is listed once
/// in the index entry of its owner and in no other entry.
pub proof fn law_one_index_entry_per_asset(ops: Seq<Op>, id: u64, owner: Seq<u8>)
    requires
        run(ops).assets.dom().contains(id),
    ensures
        run(ops).tokens_of(owner).contains(id) <==> owner == run(ops).assets[id].owner,
        run(ops).tokens_of(owner).no_duplicates(),
        run(ops).registered(run(ops).assets[id].owner),
{
    law_reachable_states_are_consistent(ops);
    lemma_one_owner_entry(run(ops), id, owner);
}

/// After any sequence of calls on a new registry, a registered identity
/// holds the initial grant at least: it can always propose and vote.
pub proof fn law_registered_balance_is_at_least_the_grant(ops: Seq<Op>, id: Seq<u8>)
    requires
        run(ops).registered(id),
    ensures
        run(ops).balance_of(id) >= INITIAL_GOVERNANCE_TOKENS,
{
    law_balance_is_grant_and_rewards(ops, id);
    assert(MINT_REWARD * rewards(ops, id) >= 0) by (nonlinear_arith);
}

/// No call lowers a balance, the sum of all balances or a counter.
pub proof fn law_nothing_is_taken_back(s: State, op: Op, id: Seq<u8>)
    requires
        s.inv(),
    ensures
        step(s, op).balance_of(id) >= s.balance_of(id),
        step(s, op).total_balance() >= s.total_balance(),
        step(s, op).next_token_id >= s.next_token_id,
        step(s, op).next_proposal_id >= s.next_proposal_id,
{
    law_step_changes_balance(s, op, id);
    law_step_keeps_invariant(s, op);
    if succeeds(s, op) {
        match op {
            Op::Register { caller, request, resource, now } => {
                assert(step(s, op).users.dom() =~= s.users.dom().insert(caller));
            },
            _ => {},
        }
    }
}

/// A proposal moves forward only: its status changes from active to passed
/// or rejected and not otherwise, its tallies do not shrink, and those who
/// voted stay listed.
pub proof fn law_proposal_moves_forward(s: State, op: Op, id: u64)
    requires
        s.inv(),
        s.proposals.dom().contains(id),
    ensures
        step(s, op).proposals.dom().contains(id),
        step(s, op).proposals[id].status == s.proposals[id].status || (s.proposals[id].status
            == ProposalStatus::Active && (step(s, op).proposals[id].status
            == ProposalStatus::Passed || step(s, op).proposals[id].status
            == ProposalStatus::Rejected)),
        step(s, op).proposals[id].votes_for >= s.proposals[id].votes_for,
        step(s, op).proposals[id].votes_against >= s.proposals[id].votes_against,
        s.proposals[id].voters.is_prefix_of(step(s, op).proposals[id].voters),
        step(s, op).proposals[id].voting_ends_at == s.proposals[id].voting_ends_at,
{
}

} // verus!
