//! Minting an asset and transferring it.

use super::Registry;
use crate::codec::encode_asset;
use crate::consistency::{lemma_mint_inv, lemma_transfer_inv};
use crate::framing::word_bytes;
use crate::identity::{copy_bytes, StorablePrincipal};
use crate::ledger::lemma_sum_bounds;
use crate::lists::{copy_ids, remove_id};
use crate::model::{State, MINT_REWARD};
use crate::records::{encode_ids, id_key};
use crate::store::{table_contents, table_insert, MAX_ENTRY_BYTES};
use crate::tables::{lemma_put_asset, lemma_put_balance, lemma_put_list};
use crate::types::{Error, MintRequest, ResearchNFT};
use vstd::prelude::*;

verus! {

impl Registry {
    /// Mints an asset for the caller, at time `now`, and returns its id. On
    /// success the asset is stored under the next id with the caller as its
    /// owner, the id is last in the caller's index entry, and the caller's
    /// balance has grown by the reward.
    pub fn mint_research_nft(
        &mut self,
        caller: &StorablePrincipal,
        request: MintRequest,
        now: u64,
    ) -> (r: Result<u64, Error>)
        requires
            old(self).wf(),
            old(self)@.mint(caller@, request@, now) is Ok ==> old(self)@.mint_fits(
                caller@,
                request@,
                now,
            ),
        ensures
            final(self).wf(),
            match r {
                Ok(id) => id == old(self)@.next_token_id && old(self)@.mint(caller@, request@, now)
                    == Ok::<State, Error>(final(self)@),
                Err(e) => old(self)@.mint(caller@, request@, now) == Err::<State, Error>(e)
                    && final(self)@ == old(self)@,
            },
    {
        match self.try_mint_research_nft(caller, request, now) {
            Some(r) => r,
            None => {
                proof {
                    assert(false);
                }
                Err(Error::NotRegistered)
            },
        }
    }

    /// Mints an asset as [`Registry::mint_research_nft`] does, where that
    /// stays within the limits of the machine; where it would not, returns
    /// nothing and writes nothing.
    pub fn try_mint_research_nft(
        &mut self,
        caller: &StorablePrincipal,
        request: MintRequest,
        now: u64,
    ) -> (r: Option<Result<u64, Error>>)
        requires
            old(self).wf(),
        ensures
            final(self).wf(),
            match r {
                Some(Ok(id)) => id == old(self)@.next_token_id && old(self)@.mint_fits(
                    caller@,
                    request@,
                    now,
                ) && old(self)@.mint(caller@, request@, now) == Ok::<State, Error>(final(self)@),
                Some(Err(e)) => old(self)@.mint(caller@, request@, now) == Err::<State, Error>(e)
                    && final(self)@ == old(self)@,
                None => old(self)@.mint(caller@, request@, now) is Ok && !old(self)@.mint_fits(
                    caller@,
                    request@,
                    now,
                ) && final(self)@ == old(self)@,
            },
    {
        if !self.is_registered(caller) {
            return Some(Err(Error::NotRegistered));
        }
        let id = self.next_token_id;
        if id == u64::MAX || !self.supply_fits(MINT_REWARD) {
            return None;
        }
        let asset = ResearchNFT {
            token_id: id,
            owner: caller.copy(),
            title: request.title,
            description: request.description,
            authors: request.authors,
            research_type: request.research_type,
            content_hash: request.content_hash,
            license: request.license,
            created_at: now,
            metadata: request.metadata,
        };
        let asset_bytes = encode_asset(&asset);
        let mut list = self.get_tokens_by_owner(caller);
        list.push(id);
        let list_bytes = encode_ids(&list);
        if asset_bytes.len() > MAX_ENTRY_BYTES || list_bytes.len() > MAX_ENTRY_BYTES {
            return None;
        }
        let balance = self.get_governance_token_balance(caller);
        proof {
            assert(self@.balances.dom().contains(caller@));
            lemma_sum_bounds(self@.balances, caller@);
        }
        let new_balance = balance + MINT_REWARD;
        proof {
            lemma_put_asset(table_contents(self.assets), id, asset_bytes@, asset@);
            lemma_put_list(table_contents(self.owners), caller@, list_bytes@, list@);
            lemma_put_balance(table_contents(self.balances), caller@, new_balance);
        }
        // The asset goes first: it says who owns it, and the index follows it.
        table_insert(&mut self.assets, id_key(id), asset_bytes);
        table_insert(&mut self.owners, copy_bytes(&caller.0), list_bytes);
        table_insert(&mut self.balances, copy_bytes(&caller.0), word_bytes(new_balance));
        self.next_token_id = id + 1;
        proof {
            let after = old(self)@.mint(caller@, request@, now);
            assert(after is Ok);
            assert(self@ =~= after.unwrap());
            lemma_mint_inv(old(self)@, caller@, request@, now);
        }
        Some(Ok(id))
    }
}

impl Registry {
    /// Transfers an asset of the caller to a registered identity. On
    /// success the asset's owner is `to`, the asset has left the caller's
    /// index entry and is last in that of `to`.
    pub fn transfer_research_token(
        &mut self,
        caller: &StorablePrincipal,
        token_id: u64,
        to: &StorablePrincipal,
    ) -> (r: Result<(), Error>)
        requires
            old(self).wf(),
            old(self)@.transfer(caller@, token_id, to@) is Ok ==> old(self)@.transfer_fits(
                caller@,
                token_id,
                to@,
            ),
        ensures
            final(self).wf(),
            match r {
                Ok(()) => old(self)@.transfer(caller@, token_id, to@) == Ok::<State, Error>(
                    final(self)@,
                ),
                Err(e) => old(self)@.transfer(caller@, token_id, to@) == Err::<State, Error>(e)
                    && final(self)@ == old(self)@,
            },
    {
        match self.try_transfer_research_token(caller, token_id, to) {
            Some(r) => r,
            None => {
                proof {
                    assert(false);
                }
                Err(Error::NotFound)
            },
        }
    }

    /// Transfers an asset as [`Registry::transfer_research_token`] does,
    /// where that stays within the limits of the machine; where it would
    /// not, returns nothing and writes nothing.
    pub fn try_transfer_research_token(
        &mut self,
        caller: &StorablePrincipal,
        token_id: u64,
        to: &StorablePrincipal,
    ) -> (r: Option<Result<(), Error>>)
        requires
            old(self).wf(),
        ensures
            final(self).wf(),
            match r {
                Some(Ok(())) => old(self)@.transfer_fits(caller@, token_id, to@)
                    && old(self)@.transfer(caller@, token_id, to@) == Ok::<State, Error>(
                    final(self)@,
                ),
                Some(Err(e)) => old(self)@.transfer(caller@, token_id, to@) == Err::<State, Error>(
                    e,
                ) && final(self)@ == old(self)@,
                None => old(self)@.transfer(caller@, token_id, to@) is Ok
                    && !old(self)@.transfer_fits(caller@, token_id, to@) && final(self)@
                    == old(self)@,
            },
    {
        let mut token = match self.get_research_token(token_id) {
            Some(t) => t,
            None => {
                return Some(Err(Error::NotFound));
            },
        };
        if !token.owner.same(caller) {
            return Some(Err(Error::NotOwner));
        }
        if !self.is_registered(to) {
            return Some(Err(Error::RecipientNotRegistered));
        }
        token.owner = to.copy();
        let asset_bytes = encode_asset(&token);
        let held = self.get_tokens_by_owner(caller);
        let kept = remove_id(&held, token_id);
        let mut received = if to.same(caller) {
            copy_ids(&kept)
        } else {
            self.get_tokens_by_owner(to)
        };
        received.push(token_id);
        let kept_bytes = encode_ids(&kept);
        let received_bytes = encode_ids(&received);
        if asset_bytes.len() > MAX_ENTRY_BYTES || kept_bytes.len() > MAX_ENTRY_BYTES
            || received_bytes.len() > MAX_ENTRY_BYTES {
            return None;
        }
        proof {
            assert(self@.registered(caller@));
            lemma_put_asset(table_contents(self.assets), token_id, asset_bytes@, token@);
            lemma_put_list(table_contents(self.owners), caller@, kept_bytes@, kept@);
            lemma_put_list(
                table_contents(self.owners).insert(caller@, kept_bytes@),
                to@,
                received_bytes@,
                received@,
            );
        }
        // The asset goes first: it says who owns it, and the index follows it.
        table_insert(&mut self.assets, id_key(token_id), asset_bytes);
        table_insert(&mut self.owners, copy_bytes(&caller.0), kept_bytes);
        table_insert(&mut self.owners, copy_bytes(&to.0), received_bytes);
        proof {
            let after = old(self)@.transfer(caller@, token_id, to@);
            assert(after is Ok);
            assert(self@ =~= after.unwrap());
            lemma_transfer_inv(old(self)@, caller@, token_id, to@);
        }
        Some(Ok(()))
    }
}

} // verus!
