//! What holds of every state that the operations can reach, and the proofs
//! that each operation keeps it.

use crate::ledger::{lemma_sum_bounds, lemma_sum_insert};
use crate::lists::{lemma_push_no_duplicates, lemma_without};
use crate::model::{State, INITIAL_GOVERNANCE_TOKENS, MINT_REWARD};
use crate::types::{
    CreateProposalRequestView, CreateUserRequestView, MintRequestView, Vote,
};
use vstd::prelude::*;

verus! {

impl State {
    /// Every profile is stored under its own identity.
    pub open spec fn users_ok(self) -> bool {
        &&& self.users.dom().finite()
        &&& forall|id: Seq<u8>| #[trigger]
            self.users.dom().contains(id) ==> self.users[id].principal == id
    }

    /// The ledger holds a balance for the registered identities and no other,
    /// and all of it was granted: once per registration, once per mint.
    pub open spec fn ledger_ok(self) -> bool {
        &&& self.balances.dom() == self.users.dom()
        &&& self.total_balance() == INITIAL_GOVERNANCE_TOKENS * self.users.dom().len()
            + MINT_REWARD * self.asset_count()
        &&& self.total_balance() <= u64::MAX
    }

    /// The assets are those numbered from 1 up to the counter, each stored
    /// under its id and owned by a registered identity.
    pub open spec fn assets_ok(self) -> bool {
        &&& self.next_token_id >= 1
        &&& forall|id: u64| #[trigger]
            self.assets.dom().contains(id) <==> 1 <= id < self.next_token_id
        &&& forall|id: u64| #[trigger]
            self.assets.dom().contains(id) ==> self.assets[id].token_id == id
                && self.registered(self.assets[id].owner)
    }

    /// The index agrees with the assets: an entry lists an id once at most
    /// and only ids of assets that its owner owns, and every asset is listed
    /// in the entry of its owner.
    pub open spec fn index_ok(self) -> bool {
        &&& forall|o: Seq<u8>| #[trigger]
            self.owners.dom().contains(o) ==> self.owners[o].no_duplicates()
        &&& forall|o: Seq<u8>, i: int|
            self.owners.dom().contains(o) && 0 <= i < self.owners[o].len()
                ==> self.assets.dom().contains(#[trigger] self.owners[o][i])
                && self.assets[self.owners[o][i]].owner == o
        &&& forall|id: u64| #[trigger]
            self.assets.dom().contains(id) ==> self.owners.dom().contains(self.assets[id].owner)
                && self.owners[self.assets[id].owner].contains(id)
    }

    /// The proposals are those numbered from 1 up to the counter, each stored
    /// under its id, proposed by a registered identity and open at least
    /// until it was created; those listed as having voted are registered,
    /// and nobody is listed twice.
    pub open spec fn proposals_ok(self) -> bool {
        &&& self.next_proposal_id >= 1
        &&& forall|id: u64| #[trigger]
            self.proposals.dom().contains(id) <==> 1 <= id < self.next_proposal_id
        &&& forall|id: u64| #[trigger]
            self.proposals.dom().contains(id) ==> self.proposals[id].id == id
                && self.registered(self.proposals[id].proposer) && self.proposals[id].created_at
                <= self.proposals[id].voting_ends_at && self.proposals[id].voters.no_duplicates()
        &&& forall|id: u64, i: int|
            self.proposals.dom().contains(id) && 0 <= i < self.proposals[id].voters.len()
                ==> self.registered(#[trigger] self.proposals[id].voters[i])
    }

    /// The invariant of the registry.
    pub open spec fn inv(self) -> bool {
        &&& self.users_ok()
        &&& self.ledger_ok()
        &&& self.assets_ok()
        &&& self.index_ok()
        &&& self.proposals_ok()
    }
}

/// A new registry is in order.
pub proof fn lemma_empty_inv()
    ensures
        State::empty().inv(),
{
    let s = State::empty();
    assert(s.balances.dom() =~= s.users.dom());
    assert(s.users.dom().len() == 0);
}

/// An asset is listed in the index entry of its owner and in no other.
pub proof fn lemma_one_owner_entry(s: State, id: u64, o: Seq<u8>)
    requires
        s.inv(),
        s.assets.dom().contains(id),
    ensures
        s.tokens_of(o).contains(id) <==> o == s.assets[id].owner,
{
    if s.tokens_of(o).contains(id) {
        let i = choose|i: int| 0 <= i < s.tokens_of(o).len() && s.tokens_of(o)[i] == id;
        assert(s.owners.dom().contains(o));
        assert(s.assets[s.owners[o][i]].owner == o);
    }
}

/// Registration keeps the invariant.
pub proof fn lemma_register_inv(
    s: State,
    caller: Seq<u8>,
    request: CreateUserRequestView,
    resource: Option<Seq<u8>>,
    now: u64,
)
    requires
        s.inv(),
        s.register(caller, request, resource, now) is Ok,
        s.register_fits(caller, request, resource, now),
    ensures
        s.register(caller, request, resource, now).unwrap().inv(),
{
    let t = s.register(caller, request, resource, now).unwrap();
    assert(t.balances.dom() =~= t.users.dom());
    lemma_sum_insert(s.balances, caller, INITIAL_GOVERNANCE_TOKENS);
    assert(t.users.dom() =~= s.users.dom().insert(caller));
}

/// Minting keeps the invariant.
pub proof fn lemma_mint_inv(s: State, caller: Seq<u8>, request: MintRequestView, now: u64)
    requires
        s.inv(),
        s.mint(caller, request, now) is Ok,
        s.mint_fits(caller, request, now),
    ensures
        s.mint(caller, request, now).unwrap().inv(),
{
    let t = s.mint(caller, request, now).unwrap();
    let id = s.next_token_id;
    let old_list = s.tokens_of(caller);
    let new_list = old_list.push(id);
    assert(s.balances.dom().contains(caller));
    lemma_sum_bounds(s.balances, caller);
    lemma_sum_insert(s.balances, caller, (s.balance_of(caller) + MINT_REWARD) as u64);
    assert(t.balances.dom() =~= t.users.dom());
    assert(!old_list.contains(id)) by {
        if old_list.contains(id) {
            let i = choose|i: int| 0 <= i < old_list.len() && old_list[i] == id;
            assert(s.assets.dom().contains(s.owners[caller][i]));
        }
    }
    lemma_push_no_duplicates(old_list, id);
    assert forall|o: Seq<u8>, i: int|
        t.owners.dom().contains(o) && 0 <= i < t.owners[o].len() implies t.assets.dom().contains(
        #[trigger] t.owners[o][i],
    ) && t.assets[t.owners[o][i]].owner == o by {
        if o == caller {
            if i < old_list.len() {
                assert(s.assets.dom().contains(s.owners[o][i]));
            }
        } else {
            assert(s.assets.dom().contains(s.owners[o][i]));
        }
    }
    assert forall|a: u64| #[trigger] t.assets.dom().contains(a) implies t.owners.dom().contains(
        t.assets[a].owner,
    ) && t.owners[t.assets[a].owner].contains(a) by {
        if a == id {
            assert(new_list[new_list.len() - 1] == id);
        } else {
            assert(s.assets.dom().contains(a));
            let o = s.assets[a].owner;
            if o == caller {
                let i = choose|i: int| 0 <= i < old_list.len() && old_list[i] == a;
                assert(new_list[i] == a);
            }
        }
    }
}

/// Creating a proposal keeps the invariant.
pub proof fn lemma_create_proposal_inv(
    s: State,
    caller: Seq<u8>,
    request: CreateProposalRequestView,
    now: u64,
)
    requires
        s.inv(),
        s.create_proposal(caller, request, now) is Ok,
        s.create_proposal_fits(caller, request, now),
    ensures
        s.create_proposal(caller, request, now).unwrap().inv(),
{
}

/// Voting keeps the invariant.
pub proof fn lemma_vote_inv(s: State, caller: Seq<u8>, id: u64, choice: Vote, now: u64)
    requires
        s.inv(),
        s.vote(caller, id, choice, now) is Ok,
    ensures
        s.vote(caller, id, choice, now).unwrap().inv(),
{
    lemma_push_no_duplicates(s.proposals[id].voters, caller);
}

/// Finalizing keeps the invariant.
pub proof fn lemma_finalize_inv(s: State, id: u64, now: u64)
    requires
        s.inv(),
        s.finalize(id, now) is Ok,
    ensures
        s.finalize(id, now).unwrap().inv(),
{
}

/// A transfer keeps the invariant.
pub proof fn lemma_transfer_inv(s: State, caller: Seq<u8>, id: u64, to: Seq<u8>)
    requires
        s.inv(),
        s.transfer(caller, id, to) is Ok,
    ensures
        s.transfer(caller, id, to).unwrap().inv(),
{
    let t = s.transfer(caller, id, to).unwrap();
    let without = s.tokens_without(caller, id);
    let with = s.tokens_with(caller, to, id);
    let base = if to == caller {
        without
    } else {
        s.tokens_of(to)
    };
    assert(s.owners.dom().contains(caller));
    lemma_without(s.owners[caller], id);
    lemma_one_owner_entry(s, id, to);
    assert(with == base.push(id));
    assert(!base.contains(id));
    assert(base.no_duplicates());
    lemma_push_no_duplicates(base, id);
    assert forall|x: u64| base.contains(x) implies #[trigger] with.contains(x) by {
        let i = choose|i: int| 0 <= i < base.len() && base[i] == x;
        assert(with[i] == x);
    }
    assert(with.contains(id)) by {
        assert(with[with.len() - 1] == id);
    }
    assert forall|x: u64| with.contains(x) implies x == id || base.contains(x) by {
        let i = choose|i: int| 0 <= i < with.len() && with[i] == x;
        if i < base.len() {
            assert(base[i] == x);
        }
    }
    assert forall|o: Seq<u8>, i: int|
        t.owners.dom().contains(o) && 0 <= i < t.owners[o].len() implies t.assets.dom().contains(
        #[trigger] t.owners[o][i],
    ) && t.assets[t.owners[o][i]].owner == o by {
        let x = t.owners[o][i];
        assert(t.owners[o].contains(x));
        if o == to {
            if x != id {
                assert(base.contains(x));
                if to == caller {
                    assert(s.owners[caller].contains(x));
                }
                let j = choose|j: int| 0 <= j < s.owners[o].len() && s.owners[o][j] == x;
                assert(s.assets.dom().contains(s.owners[o][j]));
            }
        } else if o == caller {
            assert(s.owners[caller].contains(x) && x != id);
            let j = choose|j: int| 0 <= j < s.owners[o].len() && s.owners[o][j] == x;
            assert(s.assets.dom().contains(s.owners[o][j]));
        } else {
            assert(s.assets.dom().contains(s.owners[o][i]));
            lemma_one_owner_entry(s, id, o);
            assert(s.tokens_of(o).contains(x));
        }
    }
    assert forall|a: u64| #[trigger] t.assets.dom().contains(a) implies t.owners.dom().contains(
        t.assets[a].owner,
    ) && t.owners[t.assets[a].owner].contains(a) by {
        if a != id {
            assert(s.assets.dom().contains(a));
            let o = s.assets[a].owner;
            assert(s.owners[o].contains(a));
            if o == to {
                if to == caller {
                    assert(without.contains(a));
                }
                assert(base.contains(a));
            } else if o == caller {
                assert(without.contains(a));
            }
        }
    }
}

} // verus!
