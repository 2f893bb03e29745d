//! The five tables read as maps of records: what their bytes stand for, when
//! every entry can be read, and what one write does to the map.

use crate::codec::{
    asset_bytes, parse_asset, parse_profile, parse_proposal, profile_bytes, proposal_bytes,
};
use crate::framing::{lemma_word, parse_word, word};
use crate::model::{fits, ids_bytes};
use crate::records::parse_ids;
use crate::types::{ProposalView, ResearchNFTView, UserProfileView};
use vstd::prelude::*;

verus! {

/// A key is eight bytes, and two ids with the same key are the same id.
pub proof fn lemma_keys(a: u64, b: u64)
    ensures
        word(a).len() == 8,
        word(a) == word(b) ==> a == b,
{
    lemma_word(a);
    lemma_word(b);
}

// Profiles, by identity

/// The profiles that a table holds, by identity.
pub open spec fn profiles_in(c: Map<Seq<u8>, Seq<u8>>) -> Map<Seq<u8>, UserProfileView> {
    Map::new(|k: Seq<u8>| c.dom().contains(k), |k: Seq<u8>| parse_profile(c[k]).unwrap())
}

/// Every entry holds a profile as it is written, and fits.
pub open spec fn profiles_stored(c: Map<Seq<u8>, Seq<u8>>) -> bool {
    &&& c.dom().finite()
    &&& forall|k: Seq<u8>| #[trigger]
        c.dom().contains(k) ==> fits(k) && fits(c[k]) && parse_profile(c[k]) is Some && c[k]
            == profile_bytes(parse_profile(c[k]).unwrap())
}

/// Writing a profile puts it into the map and keeps the table readable.
pub proof fn lemma_put_profile(c: Map<Seq<u8>, Seq<u8>>, k: Seq<u8>, b: Seq<u8>, p: UserProfileView)
    requires
        profiles_stored(c),
        fits(k),
        fits(b),
        b == profile_bytes(p),
        parse_profile(b) == Some(p),
    ensures
        profiles_stored(c.insert(k, b)),
        profiles_in(c.insert(k, b)) == profiles_in(c).insert(k, p),
{
    assert(profiles_in(c.insert(k, b)) =~= profiles_in(c).insert(k, p));
}

// Balances, by identity

/// The balances that a table holds, by identity.
pub open spec fn balances_in(c: Map<Seq<u8>, Seq<u8>>) -> Map<Seq<u8>, u64> {
    Map::new(|k: Seq<u8>| c.dom().contains(k), |k: Seq<u8>| parse_word(c[k]).unwrap())
}

/// Every entry holds a word, under a key that fits.
pub open spec fn balances_stored(c: Map<Seq<u8>, Seq<u8>>) -> bool {
    &&& c.dom().finite()
    &&& forall|k: Seq<u8>| #[trigger] c.dom().contains(k) ==> fits(k) && c[k].len() == 8
}

/// Writing a balance puts it into the map and keeps the table readable.
pub proof fn lemma_put_balance(c: Map<Seq<u8>, Seq<u8>>, k: Seq<u8>, v: u64)
    requires
        balances_stored(c),
        fits(k),
    ensures
        balances_stored(c.insert(k, word(v))),
        balances_in(c.insert(k, word(v))) == balances_in(c).insert(k, v),
{
    lemma_word(v);
    assert(balances_in(c.insert(k, word(v))) =~= balances_in(c).insert(k, v));
}

// Index entries, by owner

/// The lists of ids that a table holds, by owner.
pub open spec fn lists_in(c: Map<Seq<u8>, Seq<u8>>) -> Map<Seq<u8>, Seq<u64>> {
    Map::new(|k: Seq<u8>| c.dom().contains(k), |k: Seq<u8>| parse_ids(c[k]).unwrap())
}

/// Every entry holds a list of ids as it is written, and fits.
pub open spec fn lists_stored(c: Map<Seq<u8>, Seq<u8>>) -> bool {
    &&& c.dom().finite()
    &&& forall|k: Seq<u8>| #[trigger]
        c.dom().contains(k) ==> fits(k) && fits(c[k]) && parse_ids(c[k]) is Some && c[k]
            == ids_bytes(parse_ids(c[k]).unwrap())
}

/// Writing a list puts it into the map and keeps the table readable.
pub proof fn lemma_put_list(c: Map<Seq<u8>, Seq<u8>>, k: Seq<u8>, b: Seq<u8>, ids: Seq<u64>)
    requires
        lists_stored(c),
        fits(k),
        fits(b),
        b == ids_bytes(ids),
        parse_ids(b) == Some(ids),
    ensures
        lists_stored(c.insert(k, b)),
        lists_in(c.insert(k, b)) == lists_in(c).insert(k, ids),
{
    assert(lists_in(c.insert(k, b)) =~= lists_in(c).insert(k, ids));
}

// Assets, by id

/// The assets that a table holds, by id.
pub open spec fn assets_in(c: Map<Seq<u8>, Seq<u8>>) -> Map<u64, ResearchNFTView> {
    Map::new(|id: u64| c.dom().contains(word(id)), |id: u64| parse_asset(c[word(id)]).unwrap())
}

/// Every entry holds an asset as it is written, under a key of eight bytes,
/// and fits.
pub open spec fn assets_stored(c: Map<Seq<u8>, Seq<u8>>) -> bool {
    &&& c.dom().finite()
    &&& forall|k: Seq<u8>| #[trigger]
        c.dom().contains(k) ==> k.len() == 8 && fits(c[k]) && parse_asset(c[k]) is Some && c[k]
            == asset_bytes(parse_asset(c[k]).unwrap())
}

/// Writing an asset puts it into the map and keeps the table readable.
pub proof fn lemma_put_asset(c: Map<Seq<u8>, Seq<u8>>, id: u64, b: Seq<u8>, a: ResearchNFTView)
    requires
        assets_stored(c),
        fits(b),
        b == asset_bytes(a),
        parse_asset(b) == Some(a),
    ensures
        assets_stored(c.insert(word(id), b)),
        assets_in(c.insert(word(id), b)) == assets_in(c).insert(id, a),
{
    lemma_word(id);
    assert forall|other: u64| word(other) == word(id) implies other == id by {
        lemma_keys(other, id);
    }
    assert(assets_in(c.insert(word(id), b)) =~= assets_in(c).insert(id, a));
}

// Proposals, by id

/// The proposals that a table holds, by id.
pub open spec fn proposals_in(c: Map<Seq<u8>, Seq<u8>>) -> Map<u64, ProposalView> {
    Map::new(
        |id: u64| c.dom().contains(word(id)),
        |id: u64| parse_proposal(c[word(id)]).unwrap(),
    )
}

/// Every entry holds a proposal as it is written, under a key of eight
/// bytes, and fits.
pub open spec fn proposals_stored(c: Map<Seq<u8>, Seq<u8>>) -> bool {
    &&& c.dom().finite()
    &&& forall|k: Seq<u8>| #[trigger]
        c.dom().contains(k) ==> k.len() == 8 && fits(c[k]) && parse_proposal(c[k]) is Some
            && c[k] == proposal_bytes(parse_proposal(c[k]).unwrap())
}

/// Writing a proposal puts it into the map and keeps the table readable.
pub proof fn lemma_put_proposal(c: Map<Seq<u8>, Seq<u8>>, id: u64, b: Seq<u8>, p: ProposalView)
    requires
        proposals_stored(c),
        fits(b),
        b == proposal_bytes(p),
        parse_proposal(b) == Some(p),
    ensures
        proposals_stored(c.insert(word(id), b)),
        proposals_in(c.insert(word(id), b)) == proposals_in(c).insert(id, p),
{
    lemma_word(id);
    assert forall|other: u64| word(other) == word(id) implies other == id by {
        lemma_keys(other, id);
    }
    assert(proposals_in(c.insert(word(id), b)) =~= proposals_in(c).insert(id, p));
}

} // verus!
