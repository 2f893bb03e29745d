//! The registry: five tables and two counters, and the operations on them.
//!
//! Every operation is specified against the model: it returns what the
//! model's function returns on the registry's state, and leaves the registry
//! in the state that the function gives. An operation that fails has written
//! nothing.
//!
//! An operation that writes asks that what it writes stays within the limits
//! of the machine: counters, balances and tallies are `u64`, and a table
//! takes no entry longer than [`MAX_ENTRY_BYTES`]. Beside each stands a form
//! named `try_`, which asks nothing of the kind, tests the limits itself and
//! returns nothing where one would be passed.

use crate::codec::{decode_asset, decode_profile, decode_proposal, encode_profile};
use crate::consistency::{lemma_empty_inv, lemma_register_inv};
use crate::framing::{read_word, word_bytes};
use crate::identity::{copy_bytes, StorablePrincipal};
use crate::model::{State, INITIAL_GOVERNANCE_TOKENS, MINT_REWARD};
use crate::records::{decode_ids, id_key};
use crate::store::{
    table_contains_key, table_contents, table_get, table_insert, table_len, tables_new, Table,
    MAX_ENTRY_BYTES,
};
use crate::tables::{
    assets_in, assets_stored, balances_in, balances_stored, lemma_put_balance, lemma_put_profile,
    lists_in, lists_stored, profiles_in, profiles_stored, proposals_in, proposals_stored,
};
use crate::types::{
    optional_identity, CreateUserRequest, Error, Proposal, ResearchNFT, UserProfile,
};
use vstd::prelude::*;

mod balances;
mod governance;
mod minting;
mod queries;

pub use governance::decide;

verus! {

/// A registry of users, assets and proposals.
pub struct Registry {
    users: Table,
    assets: Table,
    owners: Table,
    proposals: Table,
    balances: Table,
    next_token_id: u64,
    next_proposal_id: u64,
}

impl View for Registry {
    type V = State;

    /// The state that the tables and counters stand for.
    closed spec fn view(&self) -> State {
        State {
            users: profiles_in(table_contents(self.users)),
            assets: assets_in(table_contents(self.assets)),
            owners: lists_in(table_contents(self.owners)),
            proposals: proposals_in(table_contents(self.proposals)),
            balances: balances_in(table_contents(self.balances)),
            next_token_id: self.next_token_id,
            next_proposal_id: self.next_proposal_id,
        }
    }
}

impl Registry {
    /// Every entry of every table can be read.
    pub closed spec fn stored(&self) -> bool {
        &&& profiles_stored(table_contents(self.users))
        &&& assets_stored(table_contents(self.assets))
        &&& lists_stored(table_contents(self.owners))
        &&& proposals_stored(table_contents(self.proposals))
        &&& balances_stored(table_contents(self.balances))
    }

    /// The registry is in order: its tables can be read and its state meets
    /// the invariant. A new registry is, and every operation keeps it so.
    pub closed spec fn wf(&self) -> bool {
        &&& self.stored()
        &&& self@.inv()
    }

    /// A registry that holds nothing. Its tables are made in the default
    /// memory: in a canister that is the canister's stable memory, whose
    /// earlier contents the tables do not take up, and a canister makes one
    /// registry.
    pub fn new() -> (r: Registry)
        ensures
            r.wf(),
            r@ == State::empty(),
    {
        let (users, assets, owners, proposals, balances) = tables_new([0, 1, 2, 3, 4]);
        let r = Registry {
            users,
            assets,
            owners,
            proposals,
            balances,
            next_token_id: 1,
            next_proposal_id: 1,
        };
        proof {
            lemma_empty_inv();
            assert(r@ =~= State::empty());
        }
        r
    }

    /// Whether an identity has a profile.
    pub fn is_registered(&self, id: &StorablePrincipal) -> (r: bool)
        ensures
            r == self@.registered(id@),
    {
        table_contains_key(&self.users, &id.0)
    }

    /// The profile of an identity, if it has one.
    pub fn get_user_profile(&self, user_id: &StorablePrincipal) -> (r: Option<UserProfile>)
        requires
            self.wf(),
        ensures
            match r {
                Some(p) => self@.registered(user_id@) && p@ == self@.users[user_id@],
                None => !self@.registered(user_id@),
            },
    {
        match table_get(&self.users, &user_id.0) {
            Some(bytes) => {
                let p = decode_profile(&bytes);
                assert(p is Some);
                p
            },
            None => None,
        }
    }

    /// The caller's own profile, if it has one.
    pub fn get_my_profile(&self, caller: &StorablePrincipal) -> (r: Option<UserProfile>)
        requires
            self.wf(),
        ensures
            match r {
                Some(p) => self@.registered(caller@) && p@ == self@.users[caller@],
                None => !self@.registered(caller@),
            },
    {
        self.get_user_profile(caller)
    }

    /// The balance of an identity: zero where it has none.
    pub fn get_governance_token_balance(&self, user: &StorablePrincipal) -> (r: u64)
        requires
            self.wf(),
        ensures
            r == self@.balance_of(user@),
    {
        match table_get(&self.balances, &user.0) {
            Some(bytes) => {
                match read_word(&bytes) {
                    Some(x) => x,
                    None => {
                        proof {
                            assert(false);
                        }
                        0
                    },
                }
            },
            None => 0,
        }
    }

    /// The ids of the assets that an owner holds, in the order in which they
    /// came to it: none where it holds none.
    pub fn get_tokens_by_owner(&self, owner: &StorablePrincipal) -> (r: Vec<u64>)
        requires
            self.wf(),
        ensures
            r@ == self@.tokens_of(owner@),
    {
        match table_get(&self.owners, &owner.0) {
            Some(bytes) => {
                match decode_ids(&bytes) {
                    Some(ids) => ids,
                    None => {
                        proof {
                            assert(false);
                        }
                        Vec::new()
                    },
                }
            },
            None => Vec::new(),
        }
    }

    /// The asset with an id, if there is one.
    pub fn get_research_token(&self, token_id: u64) -> (r: Option<ResearchNFT>)
        requires
            self.wf(),
        ensures
            match r {
                Some(a) => self@.assets.dom().contains(token_id) && a@ == self@.assets[token_id],
                None => !self@.assets.dom().contains(token_id),
            },
    {
        match table_get(&self.assets, &id_key(token_id)) {
            Some(bytes) => {
                let a = decode_asset(&bytes);
                assert(a is Some);
                a
            },
            None => None,
        }
    }

    /// The proposal with an id, if there is one.
    pub fn get_proposal(&self, proposal_id: u64) -> (r: Option<Proposal>)
        requires
            self.wf(),
        ensures
            match r {
                Some(p) => self@.proposals.dom().contains(proposal_id) && p@
                    == self@.proposals[proposal_id],
                None => !self@.proposals.dom().contains(proposal_id),
            },
    {
        match table_get(&self.proposals, &id_key(proposal_id)) {
            Some(bytes) => {
                let p = decode_proposal(&bytes);
                assert(p is Some);
                p
            },
            None => None,
        }
    }

    /// How many assets were ever minted.
    pub fn total_research_tokens(&self) -> (r: u64)
        requires
            self.wf(),
        ensures
            r == self@.asset_count(),
    {
        self.next_token_id - 1
    }
}

// Registration

impl Registry {
    /// Whether all balances and one more grant fit the ledger. The sum of
    /// the balances is known from the number of users and of assets.
    fn supply_fits(&self, grant: u64) -> (r: bool)
        requires
            self.wf(),
        ensures
            r == (self@.total_balance() + grant <= u64::MAX),
    {
        let users = table_len(&self.users);
        assert(self@.users.dom() =~= table_contents(self.users).dom());
        let granted: u128 = (INITIAL_GOVERNANCE_TOKENS as u128) * (users as u128);
        let earned: u128 = (MINT_REWARD as u128) * ((self.next_token_id - 1) as u128);
        granted + earned + (grant as u128) <= u64::MAX as u128
    }

    /// What a registration would fail with before anything is provided for
    /// it: the caller may be registered already.
    pub fn check_registration(&self, caller: &StorablePrincipal) -> (r: Result<(), Error>)
        ensures
            r == if self@.registered(caller@) {
                Err::<(), Error>(Error::AlreadyRegistered)
            } else {
                Ok(())
            },
    {
        if self.is_registered(caller) {
            Err(Error::AlreadyRegistered)
        } else {
            Ok(())
        }
    }

    /// Registers the caller as [`Registry::register_user`] does, where that
    /// stays within the limits of the machine; where it would not, returns
    /// nothing and writes nothing.
    pub fn try_register_user(
        &mut self,
        caller: &StorablePrincipal,
        request: CreateUserRequest,
        resource: Option<StorablePrincipal>,
        now: u64,
    ) -> (r: Option<Result<UserProfile, Error>>)
        requires
            old(self).wf(),
        ensures
            final(self).wf(),
            match r {
                Some(Ok(p)) => old(self)@.register_fits(
                    caller@,
                    request@,
                    optional_identity(resource),
                    now,
                ) && old(self)@.register(caller@, request@, optional_identity(resource), now)
                    == Ok::<State, Error>(final(self)@) && p@ == final(self)@.users[caller@],
                Some(Err(e)) => old(self)@.register(
                    caller@,
                    request@,
                    optional_identity(resource),
                    now,
                ) == Err::<State, Error>(e) && final(self)@ == old(self)@,
                None => old(self)@.register(caller@, request@, optional_identity(resource), now)
                    is Ok && !old(self)@.register_fits(
                    caller@,
                    request@,
                    optional_identity(resource),
                    now,
                ) && final(self)@ == old(self)@,
            },
    {
        if self.is_registered(caller) {
            return Some(Err(Error::AlreadyRegistered));
        }
        let ghost outcome = optional_identity(resource);
        let resource = match resource {
            Some(x) => x,
            None => {
                return Some(Err(Error::ExternalProvisioningFailed));
            },
        };
        let profile = UserProfile {
            principal: caller.copy(),
            username: request.username,
            email: request.email,
            institution: request.institution,
            research_domains: request.research_domains,
            personal_canister_id: Some(resource),
            created_at: now,
        };
        let bytes = encode_profile(&profile);
        if caller.0.len() > MAX_ENTRY_BYTES || bytes.len() > MAX_ENTRY_BYTES || !self.supply_fits(
            INITIAL_GOVERNANCE_TOKENS,
        ) {
            return None;
        }
        proof {
            lemma_put_profile(table_contents(self.users), caller@, bytes@, profile@);
            lemma_put_balance(table_contents(self.balances), caller@, INITIAL_GOVERNANCE_TOKENS);
        }
        table_insert(&mut self.users, copy_bytes(&caller.0), bytes);
        let granted = word_bytes(INITIAL_GOVERNANCE_TOKENS);
        table_insert(&mut self.balances, copy_bytes(&caller.0), granted);
        proof {
            let after = old(self)@.register(caller@, request@, outcome, now);
            assert(after is Ok);
            assert(self@ =~= after.unwrap());
            lemma_register_inv(old(self)@, caller@, request@, outcome, now);
        }
        Some(Ok(profile))
    }

    /// Registers the caller. `resource` is what was provided for the
    /// registration, or nothing where that failed; `now` is the time of the
    /// call. On success the caller has the profile that is returned, and the
    /// initial balance.
    pub fn register_user(
        &mut self,
        caller: &StorablePrincipal,
        request: CreateUserRequest,
        resource: Option<StorablePrincipal>,
        now: u64,
    ) -> (r: Result<UserProfile, Error>)
        requires
            old(self).wf(),
            old(self)@.register(caller@, request@, optional_identity(resource), now) is Ok
                ==> old(self)@.register_fits(caller@, request@, optional_identity(resource), now),
        ensures
            final(self).wf(),
            match r {
                Ok(p) => old(self)@.register(caller@, request@, optional_identity(resource), now)
                    == Ok::<State, Error>(final(self)@) && p@ == final(self)@.users[caller@],
                Err(e) => old(self)@.register(caller@, request@, optional_identity(resource), now)
                    == Err::<State, Error>(e) && final(self)@ == old(self)@,
            },
    {
        match self.try_register_user(caller, request, resource, now) {
            Some(r) => r,
            None => {
                proof {
                    assert(false);
                }
                Err(Error::AlreadyRegistered)
            },
        }
    }
}

} // verus!
