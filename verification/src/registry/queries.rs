//! Reads over whole tables: listings, selections and counts.

use super::Registry;
use crate::identity::{copy_bytes, StorablePrincipal};
use crate::lists::{lemma_filter_empty, lemma_filter_push};
use crate::model::{is_active, of_type};
use crate::search::{lowercase, lowered, matches_keyword, matching};
use crate::store::{key_views, table_contents, table_keys, table_len};
use crate::types::{
    asset_views, profile_views, proposal_views, PlatformStats, Proposal, ProposalStatus,
    ResearchNFT, ResearchType, UserProfile,
};
use vstd::prelude::*;

verus! {

impl Registry {
    /// Every profile, by ascending identity.
    pub fn list_all_users(&self) -> (r: Vec<UserProfile>)
        requires
            self.wf(),
        ensures
            self@.lists_users(profile_views(r@)),
    {
        let keys = table_keys(&self.users);
        let ghost kv = key_views(keys@);
        let mut out: Vec<UserProfile> = Vec::with_capacity(keys.len());
        let mut i: usize = 0;
        while i < keys.len()
            invariant
                self.wf(),
                kv == key_views(keys@),
                kv.to_set() == table_contents(self.users).dom(),
                i <= keys@.len(),
                out@.len() == i,
                forall|j: int|
                    0 <= j < i ==> self@.registered(kv[j]) && (#[trigger] out@[j])@
                        == self@.users[kv[j]] && out@[j]@.principal == kv[j],
            decreases keys@.len() - i,
        {
            let id = StorablePrincipal(copy_bytes(&keys[i]));
            assert(kv.contains(kv[i as int]));
            match self.get_user_profile(&id) {
                Some(p) => {
                    out.push(p);
                },
                None => {
                    proof {
                        assert(false);
                    }
                },
            }
            i += 1;
        }
        proof {
            let listed = profile_views(out@);
            assert forall|id: Seq<u8>| self@.registered(id) implies exists|i: int|
                0 <= i < listed.len() && (#[trigger] listed[i]).principal == id by {
                assert(kv.to_set().contains(id));
                let j = choose|j: int| 0 <= j < kv.len() && kv[j] == id;
                assert(listed[j].principal == id);
            }
        }
        out
    }

    /// The assets of one kind, by ascending id.
    pub fn get_tokens_by_research_type(&self, research_type: ResearchType) -> (r: Vec<
        ResearchNFT,
    >)
        requires
            self.wf(),
        ensures
            asset_views(r@) == self@.all_assets().filter(of_type(research_type)),
    {
        let mut out: Vec<ResearchNFT> = Vec::new();
        let mut id: u64 = 1;
        let ghost all = self@.all_assets();
        let ghost wanted = of_type(research_type);
        proof {
            lemma_filter_empty(wanted);
            assert(all.take(0) =~= Seq::empty());
            assert(asset_views(out@) =~= Seq::empty());
        }
        while id < self.next_token_id
            invariant
                self.wf(),
                1 <= id <= self.next_token_id,
                all == self@.all_assets(),
                wanted == of_type(research_type),
                asset_views(out@) == all.take(id - 1).filter(wanted),
            decreases self.next_token_id - id,
        {
            match self.get_research_token(id) {
                Some(a) => {
                    proof {
                        lemma_filter_push(all.take(id - 1), a@, wanted);
                        assert(all.take(id as int) =~= all.take(id - 1).push(a@));
                    }
                    if a.research_type == research_type {
                        let ghost before = asset_views(out@);
                        out.push(a);
                        assert(asset_views(out@) =~= before.push(a@));
                    }
                },
                None => {
                    proof {
                        assert(false);
                    }
                },
            }
            id += 1;
        }
        assert(all.take(all.len() as int) =~= all);
        out
    }

    /// The assets that a keyword stands in, by ascending id. Case does not
    /// count: the keyword and the asset's title, description and keywords
    /// are compared in lower case.
    pub fn search_research_by_keyword(&self, keyword: &String) -> (r: Vec<ResearchNFT>)
        requires
            self.wf(),
        ensures
            asset_views(r@) == self@.all_assets().filter(matching(lowercase(keyword@))),
    {
        let keyword_lower = lowered(keyword);
        let mut out: Vec<ResearchNFT> = Vec::new();
        let mut id: u64 = 1;
        let ghost all = self@.all_assets();
        let ghost wanted = matching(keyword_lower@);
        proof {
            lemma_filter_empty(wanted);
            assert(all.take(0) =~= Seq::empty());
            assert(asset_views(out@) =~= Seq::empty());
        }
        while id < self.next_token_id
            invariant
                self.wf(),
                1 <= id <= self.next_token_id,
                all == self@.all_assets(),
                wanted == matching(keyword_lower@),
                asset_views(out@) == all.take(id - 1).filter(wanted),
            decreases self.next_token_id - id,
        {
            match self.get_research_token(id) {
                Some(a) => {
                    proof {
                        lemma_filter_push(all.take(id - 1), a@, wanted);
                        assert(all.take(id as int) =~= all.take(id - 1).push(a@));
                    }
                    if matches_keyword(&a, &keyword_lower) {
                        let ghost before = asset_views(out@);
                        out.push(a);
                        assert(asset_views(out@) =~= before.push(a@));
                    }
                },
                None => {
                    proof {
                        assert(false);
                    }
                },
            }
            id += 1;
        }
        assert(all.take(all.len() as int) =~= all);
        out
    }

    /// Every proposal, by ascending id.
    pub fn get_all_proposals(&self) -> (r: Vec<Proposal>)
        requires
            self.wf(),
        ensures
            proposal_views(r@) == self@.all_proposals(),
    {
        let mut out: Vec<Proposal> = Vec::new();
        let mut id: u64 = 1;
        let ghost all = self@.all_proposals();
        proof {
            assert(proposal_views(out@) =~= all.take(0));
        }
        while id < self.next_proposal_id
            invariant
                self.wf(),
                1 <= id <= self.next_proposal_id,
                all == self@.all_proposals(),
                proposal_views(out@) == all.take(id - 1),
            decreases self.next_proposal_id - id,
        {
            match self.get_proposal(id) {
                Some(p) => {
                    let ghost before = proposal_views(out@);
                    out.push(p);
                    assert(proposal_views(out@) =~= before.push(p@));
                    assert(all.take(id as int) =~= all.take(id - 1).push(p@));
                },
                None => {
                    proof {
                        assert(false);
                    }
                },
            }
            id += 1;
        }
        assert(all.take(all.len() as int) =~= all);
        out
    }

    /// The proposals that are active, by ascending id.
    pub fn get_active_proposals(&self) -> (r: Vec<Proposal>)
        requires
            self.wf(),
        ensures
            proposal_views(r@) == self@.all_proposals().filter(is_active()),
    {
        let mut out: Vec<Proposal> = Vec::new();
        let mut id: u64 = 1;
        let ghost all = self@.all_proposals();
        let ghost wanted = is_active();
        proof {
            lemma_filter_empty(wanted);
            assert(all.take(0) =~= Seq::empty());
            assert(proposal_views(out@) =~= Seq::empty());
        }
        while id < self.next_proposal_id
            invariant
                self.wf(),
                1 <= id <= self.next_proposal_id,
                all == self@.all_proposals(),
                wanted == is_active(),
                proposal_views(out@) == all.take(id - 1).filter(wanted),
            decreases self.next_proposal_id - id,
        {
            match self.get_proposal(id) {
                Some(p) => {
                    proof {
                        lemma_filter_push(all.take(id - 1), p@, wanted);
                        assert(all.take(id as int) =~= all.take(id - 1).push(p@));
                    }
                    match p.status {
                        ProposalStatus::Active => {
                            let ghost before = proposal_views(out@);
                            out.push(p);
                            assert(proposal_views(out@) =~= before.push(p@));
                        },
                        _ => {},
                    }
                },
                None => {
                    proof {
                        assert(false);
                    }
                },
            }
            id += 1;
        }
        assert(all.take(all.len() as int) =~= all);
        out
    }

    /// The number of users, of assets and of active proposals, and the sum of
    /// all balances.
    pub fn get_platform_stats(&self) -> (r: PlatformStats)
        requires
            self.wf(),
        ensures
            r.total_users == self@.users.dom().len(),
            r.total_research_tokens == self@.asset_count(),
            r.active_proposals == self@.all_proposals().filter(is_active()).len(),
            r.total_governance_tokens == self@.total_balance(),
    {
        let total_users = table_len(&self.users);
        assert(self@.users.dom() =~= table_contents(self.users).dom());
        let total_research_tokens = self.total_research_tokens();
        let active = self.get_active_proposals();
        let active_proposals = active.len() as u64;
        assert(proposal_views(active@).len() == active@.len());
        let total_governance_tokens = self.get_total_governance_tokens();
        PlatformStats {
            total_users,
            total_research_tokens,
            active_proposals,
            total_governance_tokens,
        }
    }
}

} // verus!
