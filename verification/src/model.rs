//! The registry as a mathematical state and its operations as functions on
//! that state. The executable registry is specified against this model.

use crate::codec::{asset_bytes, profile_bytes, proposal_bytes};
use crate::framing::frame;
use crate::records::ids_fields;
use crate::store::{bytes_lt, MAX_ENTRY_BYTES};
use crate::types::{
    CreateProposalRequestView, CreateUserRequestView, Error, MintRequestView, ProposalStatus,
    ProposalView, ResearchNFTView, ResearchType, UserProfileView, Vote,
};
use vstd::prelude::*;

verus! {

/// What a registration grants.
pub const INITIAL_GOVERNANCE_TOKENS: u64 = 1000;

/// What minting an asset earns.
pub const MINT_REWARD: u64 = 50;

/// The balance that creating a proposal asks for.
pub const MIN_PROPOSAL_THRESHOLD: u64 = 100;

/// The share of all balances, in percent, that the votes of a proposal must
/// reach for a majority to decide it.
pub const QUORUM_PERCENTAGE: u64 = 20;

/// One day in the unit of the timestamps.
pub const DAYS_TO_NANOSECONDS: u64 = 86_400_000_000_000;

/// The sum of the balances of a ledger.
pub open spec fn sum_balances(m: Map<Seq<u8>, u64>) -> nat
    decreases m.dom().len(),
    when m.dom().finite()
    via sum_balances_decreases
{
    if m.dom().len() == 0 {
        0
    } else {
        let k = m.dom().choose();
        m[k] as nat + sum_balances(m.remove(k))
    }
}

#[via_fn]
proof fn sum_balances_decreases(m: Map<Seq<u8>, u64>) {
    if m.dom().len() != 0 {
        let k = m.dom().choose();
        assert(m.dom().contains(k)) by {
            if m.dom() =~= Set::empty() {
            }
        }
    }
}

/// Whether a key or a value is short enough for a table.
pub open spec fn fits(bytes: Seq<u8>) -> bool {
    bytes.len() <= MAX_ENTRY_BYTES
}

/// A list of asset ids as a table value.
pub open spec fn ids_bytes(ids: Seq<u64>) -> Seq<u8> {
    frame(ids_fields(ids))
}

/// What holds of every id but one.
pub open spec fn other_than(id: u64) -> spec_fn(u64) -> bool {
    |t: u64| t != id
}

/// A list of ids without one id, the others in the order they had.
pub open spec fn without(list: Seq<u64>, id: u64) -> Seq<u64> {
    list.filter(other_than(id))
}

/// The assets of one kind.
pub open spec fn of_type(t: ResearchType) -> spec_fn(ResearchNFTView) -> bool {
    |a: ResearchNFTView| a.research_type == t
}

/// The proposals that are active.
pub open spec fn is_active() -> spec_fn(ProposalView) -> bool {
    |p: ProposalView| p.status == ProposalStatus::Active
}

/// The least combined vote weight with which a majority decides.
pub open spec fn quorum(total: nat) -> nat {
    total * (QUORUM_PERCENTAGE as nat) / 100
}

/// What finalizing makes of a proposal: passed only with the quorum met and
/// strictly more weight for than against.
pub open spec fn outcome(p: ProposalView, total: nat) -> ProposalStatus {
    if p.votes_for + p.votes_against < quorum(total) {
        ProposalStatus::Rejected
    } else if p.votes_for > p.votes_against {
        ProposalStatus::Passed
    } else {
        ProposalStatus::Rejected
    }
}

/// The profile that a registration writes.
pub open spec fn new_profile(
    caller: Seq<u8>,
    request: CreateUserRequestView,
    resource: Seq<u8>,
    now: u64,
) -> UserProfileView {
    UserProfileView {
        principal: caller,
        username: request.username,
        email: request.email,
        institution: request.institution,
        research_domains: request.research_domains,
        personal_canister_id: Some(resource),
        created_at: now,
    }
}

/// The asset that minting writes.
pub open spec fn new_asset(id: u64, caller: Seq<u8>, request: MintRequestView, now: u64)
    -> ResearchNFTView {
    ResearchNFTView {
        token_id: id,
        owner: caller,
        title: request.title,
        description: request.description,
        authors: request.authors,
        research_type: request.research_type,
        content_hash: request.content_hash,
        license: request.license,
        created_at: now,
        metadata: request.metadata,
    }
}

/// The proposal that creating one writes.
pub open spec fn new_proposal(
    id: u64,
    caller: Seq<u8>,
    request: CreateProposalRequestView,
    now: u64,
) -> ProposalView {
    ProposalView {
        id,
        proposer: caller,
        title: request.title,
        description: request.description,
        proposal_type: request.proposal_type,
        status: ProposalStatus::Active,
        votes_for: 0,
        votes_against: 0,
        voters: Seq::empty(),
        created_at: now,
        voting_ends_at: (now + request.voting_duration_days * DAYS_TO_NANOSECONDS) as u64,
    }
}

/// A proposal with one more vote.
pub open spec fn with_vote(p: ProposalView, caller: Seq<u8>, power: u64, choice: Vote)
    -> ProposalView {
    ProposalView {
        votes_for: if choice == Vote::For {
            (p.votes_for + power) as u64
        } else {
            p.votes_for
        },
        votes_against: if choice == Vote::Against {
            (p.votes_against + power) as u64
        } else {
            p.votes_against
        },
        voters: p.voters.push(caller),
        ..p
    }
}

/// The state of a registry: three stores of records, the index from owners to
/// what they own, the ledger of balances, and the two counters.
#[verifier::ext_equal]
pub struct State {
    pub users: Map<Seq<u8>, UserProfileView>,
    pub assets: Map<u64, ResearchNFTView>,
    pub owners: Map<Seq<u8>, Seq<u64>>,
    pub proposals: Map<u64, ProposalView>,
    pub balances: Map<Seq<u8>, u64>,
    pub next_token_id: u64,
    pub next_proposal_id: u64,
}

impl State {
    /// The state of a new registry.
    pub open spec fn empty() -> State {
        State {
            users: Map::empty(),
            assets: Map::empty(),
            owners: Map::empty(),
            proposals: Map::empty(),
            balances: Map::empty(),
            next_token_id: 1,
            next_proposal_id: 1,
        }
    }

    /// Whether an identity has a profile.
    pub open spec fn registered(self, id: Seq<u8>) -> bool {
        self.users.dom().contains(id)
    }

    /// The balance of an identity: zero where the ledger has none for it.
    pub open spec fn balance_of(self, id: Seq<u8>) -> u64 {
        if self.balances.dom().contains(id) {
            self.balances[id]
        } else {
            0
        }
    }

    /// The sum of all balances.
    pub open spec fn total_balance(self) -> nat {
        sum_balances(self.balances)
    }

    /// The ids that the index lists for an owner, in the order in which they
    /// came: none where it has no entry.
    pub open spec fn tokens_of(self, owner: Seq<u8>) -> Seq<u64> {
        if self.owners.dom().contains(owner) {
            self.owners[owner]
        } else {
            Seq::empty()
        }
    }

    /// How many assets were minted.
    pub open spec fn asset_count(self) -> nat {
        (self.next_token_id - 1) as nat
    }

    /// How many proposals were created.
    pub open spec fn proposal_count(self) -> nat {
        (self.next_proposal_id - 1) as nat
    }

    /// All assets, by ascending id.
    pub open spec fn all_assets(self) -> Seq<ResearchNFTView> {
        Seq::new(self.asset_count(), |i: int| self.assets[(i + 1) as u64])
    }

    /// All proposals, by ascending id.
    pub open spec fn all_proposals(self) -> Seq<ProposalView> {
        Seq::new(self.proposal_count(), |i: int| self.proposals[(i + 1) as u64])
    }

    /// Whether `out` lists every profile once, by ascending identity.
    pub open spec fn lists_users(self, out: Seq<UserProfileView>) -> bool {
        &&& forall|i: int|
            0 <= i < out.len() ==> self.registered((#[trigger] out[i]).principal)
                && self.users[out[i].principal] == out[i]
        &&& forall|i: int, j: int|
            0 <= i < j < out.len() ==> bytes_lt(
                (#[trigger] out[i]).principal,
                (#[trigger] out[j]).principal,
            )
        &&& forall|id: Seq<u8>|
            self.registered(id) ==> exists|i: int|
                0 <= i < out.len() && (#[trigger] out[i]).principal == id
    }

    // Registration

    /// What a registration fails with, if it fails: the first of these that
    /// holds.
    pub open spec fn register_error(
        self,
        caller: Seq<u8>,
        request: CreateUserRequestView,
        resource: Option<Seq<u8>>,
        now: u64,
    ) -> Option<Error> {
        if self.registered(caller) {
            Some(Error::AlreadyRegistered)
        } else if resource is None {
            Some(Error::ExternalProvisioningFailed)
        } else {
            None
        }
    }

    /// Whether a registration stays within the limits of the machine: the
    /// profile and its key fit a table, and the sum of all balances stays a
    /// `u64`.
    pub open spec fn register_fits(
        self,
        caller: Seq<u8>,
        request: CreateUserRequestView,
        resource: Option<Seq<u8>>,
        now: u64,
    ) -> bool {
        &&& fits(caller)
        &&& fits(profile_bytes(new_profile(caller, request, resource.unwrap(), now)))
        &&& self.total_balance() + INITIAL_GOVERNANCE_TOKENS <= u64::MAX
    }

    /// Registration: the caller gets a profile and the initial balance.
    pub open spec fn register(
        self,
        caller: Seq<u8>,
        request: CreateUserRequestView,
        resource: Option<Seq<u8>>,
        now: u64,
    ) -> Result<State, Error> {
        match self.register_error(caller, request, resource, now) {
            Some(e) => Err(e),
            None => Ok(
                State {
                    users: self.users.insert(
                        caller,
                        new_profile(caller, request, resource.unwrap(), now),
                    ),
                    balances: self.balances.insert(caller, INITIAL_GOVERNANCE_TOKENS),
                    ..self
                },
            ),
        }
    }

    // Minting

    /// What a mint fails with, if it fails: the first of these that holds.
    pub open spec fn mint_error(self, caller: Seq<u8>, request: MintRequestView, now: u64)
        -> Option<Error> {
        if !self.registered(caller) {
            Some(Error::NotRegistered)
        } else {
            None
        }
    }

    /// Whether a mint stays within the limits of the machine: the counter
    /// and the sum of all balances stay a `u64`, and the asset and the
    /// caller's index entry fit a table.
    pub open spec fn mint_fits(self, caller: Seq<u8>, request: MintRequestView, now: u64) -> bool {
        &&& self.next_token_id < u64::MAX
        &&& self.total_balance() + MINT_REWARD <= u64::MAX
        &&& fits(asset_bytes(new_asset(self.next_token_id, caller, request, now)))
        &&& fits(ids_bytes(self.tokens_of(caller).push(self.next_token_id)))
    }

    /// Minting: a new asset under the next id, owned by the caller, listed
    /// last in the caller's index entry, and a reward on the caller's balance.
    pub open spec fn mint(self, caller: Seq<u8>, request: MintRequestView, now: u64) -> Result<
        State,
        Error,
    > {
        match self.mint_error(caller, request, now) {
            Some(e) => Err(e),
            None => Ok(
                State {
                    assets: self.assets.insert(
                        self.next_token_id,
                        new_asset(self.next_token_id, caller, request, now),
                    ),
                    owners: self.owners.insert(
                        caller,
                        self.tokens_of(caller).push(self.next_token_id),
                    ),
                    balances: self.balances.insert(
                        caller,
                        (self.balance_of(caller) + MINT_REWARD) as u64,
                    ),
                    next_token_id: (self.next_token_id + 1) as u64,
                    ..self
                },
            ),
        }
    }

    // Transfer

    /// The caller's index entry without the asset.
    pub open spec fn tokens_without(self, owner: Seq<u8>, id: u64) -> Seq<u64> {
        without(self.tokens_of(owner), id)
    }

    /// The recipient's index entry with the asset last. Where the caller
    /// transfers to itself, the asset has left the entry before.
    pub open spec fn tokens_with(self, caller: Seq<u8>, to: Seq<u8>, id: u64) -> Seq<u64> {
        if to == caller {
            self.tokens_without(caller, id).push(id)
        } else {
            self.tokens_of(to).push(id)
        }
    }

    /// What a transfer fails with, if it fails: the first of these that holds.
    pub open spec fn transfer_error(self, caller: Seq<u8>, id: u64, to: Seq<u8>) -> Option<Error> {
        if !self.assets.dom().contains(id) {
            Some(Error::NotFound)
        } else if self.assets[id].owner != caller {
            Some(Error::NotOwner)
        } else if !self.registered(to) {
            Some(Error::RecipientNotRegistered)
        } else {
            None
        }
    }

    /// Whether a transfer stays within the limits of the machine: the asset
    /// with its new owner and the two index entries fit a table.
    pub open spec fn transfer_fits(self, caller: Seq<u8>, id: u64, to: Seq<u8>) -> bool {
        &&& fits(asset_bytes(ResearchNFTView { owner: to, ..self.assets[id] }))
        &&& fits(ids_bytes(self.tokens_without(caller, id)))
        &&& fits(ids_bytes(self.tokens_with(caller, to, id)))
    }

    /// Transfer: the asset's owner becomes `to`, the asset leaves the
    /// caller's index entry and is listed last in that of `to`.
    pub open spec fn transfer(self, caller: Seq<u8>, id: u64, to: Seq<u8>) -> Result<State, Error> {
        match self.transfer_error(caller, id, to) {
            Some(e) => Err(e),
            None => Ok(
                State {
                    assets: self.assets.insert(
                        id,
                        ResearchNFTView { owner: to, ..self.assets[id] },
                    ),
                    owners: self.owners.insert(caller, self.tokens_without(caller, id)).insert(
                        to,
                        self.tokens_with(caller, to, id),
                    ),
                    ..self
                },
            ),
        }
    }

    // Proposals

    /// What creating a proposal fails with, if it fails: the first of these
    /// that holds.
    pub open spec fn create_proposal_error(
        self,
        caller: Seq<u8>,
        request: CreateProposalRequestView,
        now: u64,
    ) -> Option<Error> {
        if !self.registered(caller) {
            Some(Error::NotRegistered)
        } else if self.balance_of(caller) < MIN_PROPOSAL_THRESHOLD {
            Some(Error::InsufficientTokens)
        } else {
            None
        }
    }

    /// Whether creating a proposal stays within the limits of the machine:
    /// the counter and the deadline stay a `u64`, and the proposal fits a
    /// table.
    pub open spec fn create_proposal_fits(
        self,
        caller: Seq<u8>,
        request: CreateProposalRequestView,
        now: u64,
    ) -> bool {
        &&& self.next_proposal_id < u64::MAX
        &&& now + request.voting_duration_days * DAYS_TO_NANOSECONDS <= u64::MAX
        &&& fits(proposal_bytes(new_proposal(self.next_proposal_id, caller, request, now)))
    }

    /// Creating a proposal: a new active proposal under the next id, with no
    /// votes, open until `now` plus the requested days.
    pub open spec fn create_proposal(
        self,
        caller: Seq<u8>,
        request: CreateProposalRequestView,
        now: u64,
    ) -> Result<State, Error> {
        match self.create_proposal_error(caller, request, now) {
            Some(e) => Err(e),
            None => Ok(
                State {
                    proposals: self.proposals.insert(
                        self.next_proposal_id,
                        new_proposal(self.next_proposal_id, caller, request, now),
                    ),
                    next_proposal_id: (self.next_proposal_id + 1) as u64,
                    ..self
                },
            ),
        }
    }

    /// What a vote fails with, if it fails: the first of these that holds.
    pub open spec fn vote_error(self, caller: Seq<u8>, id: u64, choice: Vote, now: u64) -> Option<
        Error,
    > {
        if !self.registered(caller) {
            Some(Error::NotRegistered)
        } else if self.balance_of(caller) == 0 {
            Some(Error::NoVotingPower)
        } else if !self.proposals.dom().contains(id) {
            Some(Error::NotFound)
        } else if now > self.proposals[id].voting_ends_at {
            Some(Error::VotingClosed)
        } else if self.proposals[id].voters.contains(caller) {
            Some(Error::AlreadyVoted)
        } else {
            None
        }
    }

    /// Whether a vote stays within the limits of the machine: the tally that
    /// grows stays a `u64`, and the proposal with the vote fits a table.
    pub open spec fn vote_fits(self, caller: Seq<u8>, id: u64, choice: Vote, now: u64) -> bool {
        &&& (if choice == Vote::For {
            self.proposals[id].votes_for
        } else {
            self.proposals[id].votes_against
        }) + self.balance_of(caller) <= u64::MAX
        &&& fits(
            proposal_bytes(with_vote(self.proposals[id], caller, self.balance_of(caller), choice)),
        )
    }

    /// Voting: the caller's balance of this moment is added to the side it
    /// chose, and the caller is listed as having voted.
    pub open spec fn vote(self, caller: Seq<u8>, id: u64, choice: Vote, now: u64) -> Result<
        State,
        Error,
    > {
        match self.vote_error(caller, id, choice, now) {
            Some(e) => Err(e),
            None => Ok(
                State {
                    proposals: self.proposals.insert(
                        id,
                        with_vote(self.proposals[id], caller, self.balance_of(caller), choice),
                    ),
                    ..self
                },
            ),
        }
    }

    /// What finalizing fails with, if it fails: the first of these that
    /// holds.
    pub open spec fn finalize_error(self, id: u64, now: u64) -> Option<Error> {
        if !self.proposals.dom().contains(id) {
            Some(Error::NotFound)
        } else if now <= self.proposals[id].voting_ends_at {
            Some(Error::VotingStillActive)
        } else if self.proposals[id].status != ProposalStatus::Active {
            Some(Error::AlreadyFinalized)
        } else {
            None
        }
    }

    /// Finalizing: an active proposal whose deadline has passed gets its
    /// outcome, from its tallies and the sum of all balances of this moment.
    pub open spec fn finalize(self, id: u64, now: u64) -> Result<State, Error> {
        match self.finalize_error(id, now) {
            Some(e) => Err(e),
            None => Ok(
                State {
                    proposals: self.proposals.insert(
                        id,
                        ProposalView {
                            status: outcome(self.proposals[id], self.total_balance()),
                            ..self.proposals[id]
                        },
                    ),
                    ..self
                },
            ),
        }
    }
}

} // verus!
