//! The three records of the registry as table values.

use crate::fields::{
    decode_flag, decode_identity, decode_text, decode_texts, encode_flag, encode_text,
    encode_texts, flag_bytes, optional_bytes, parse_flag, parse_optional, parse_text, parse_texts,
    texts_bytes,
};
use crate::framing::{
    frame, frame_items, lemma_word, parse_word, read_word, unframe, unframe_items, word,
    word_bytes,
};
use crate::identity::copy_bytes;
use crate::records::{
    decode_identities, decode_optional_identity, decode_optional_text, decode_proposal_status,
    decode_proposal_type, decode_research_type, encode_identities, encode_optional_identity,
    encode_optional_text, encode_proposal_status, encode_proposal_type, encode_research_type,
    optional_text_bytes, parse_optional_text, parse_proposal_status, parse_proposal_type,
    parse_research_type, proposal_status_tag, proposal_type_tag, research_type_tag,
};
use crate::store::key_views;
use crate::types::{
    License, LicenseView, Proposal, ProposalView, ResearchMetadata, ResearchMetadataView,
    ResearchNFT, ResearchNFTView, UserProfile, UserProfileView,
};
use vstd::prelude::*;
use vstd::utf8::*;

verus! {

// Profiles

/// The seven fields of a profile, in the order in which they are framed.
pub open spec fn profile_fields(p: UserProfileView) -> Seq<Seq<u8>> {
    seq![
        p.principal,
        encode_utf8(p.username),
        encode_utf8(p.email),
        encode_utf8(p.institution),
        texts_bytes(p.research_domains),
        optional_bytes(p.personal_canister_id),
        word(p.created_at),
    ]
}

/// A profile as a table value.
pub open spec fn profile_bytes(p: UserProfileView) -> Seq<u8> {
    frame(profile_fields(p))
}

/// The profile that a table value holds, if it holds one.
pub open spec fn parse_profile(b: Seq<u8>) -> Option<UserProfileView> {
    match unframe(b) {
        Some(f) => if f.len() == 7 && parse_text(f[1]) is Some && parse_text(f[2]) is Some
            && parse_text(f[3]) is Some && parse_texts(f[4]) is Some && parse_optional(f[5])
            is Some && parse_word(f[6]) is Some {
            Some(
                UserProfileView {
                    principal: f[0],
                    username: parse_text(f[1]).unwrap(),
                    email: parse_text(f[2]).unwrap(),
                    institution: parse_text(f[3]).unwrap(),
                    research_domains: parse_texts(f[4]).unwrap(),
                    personal_canister_id: parse_optional(f[5]).unwrap(),
                    created_at: parse_word(f[6]).unwrap(),
                },
            )
        } else {
            None
        },
        None => None,
    }
}

/// Writes a profile as a table value.
pub fn encode_profile(p: &UserProfile) -> (r: Vec<u8>)
    ensures
        r@ == profile_bytes(p@),
        parse_profile(r@) == Some(p@),
{
    let mut fields: Vec<Vec<u8>> = Vec::with_capacity(7);
    fields.push(copy_bytes(&p.principal.0));
    fields.push(encode_text(&p.username));
    fields.push(encode_text(&p.email));
    fields.push(encode_text(&p.institution));
    fields.push(encode_texts(&p.research_domains));
    fields.push(encode_optional_identity(&p.personal_canister_id));
    fields.push(word_bytes(p.created_at));
    proof {
        lemma_word(p.created_at);
        assert(key_views(fields@) =~= profile_fields(p@));
    }
    frame_items(&fields)
}

/// Reads a profile from a table value, or nothing where the bytes hold none.
pub fn decode_profile(b: &Vec<u8>) -> (r: Option<UserProfile>)
    ensures
        match r {
            Some(p) => parse_profile(b@) == Some(p@),
            None => parse_profile(b@) is None,
        },
{
    let f = match unframe_items(b) {
        Some(f) => f,
        None => {
            return None;
        },
    };
    if f.len() != 7 {
        return None;
    }
    let ghost fv = key_views(f@);
    assert(fv[0] == f@[0]@ && fv[1] == f@[1]@ && fv[2] == f@[2]@ && fv[3] == f@[3]@ && fv[4]
        == f@[4]@ && fv[5] == f@[5]@ && fv[6] == f@[6]@);
    let username = match decode_text(&f[1]) {
        Some(x) => x,
        None => {
            return None;
        },
    };
    let email = match decode_text(&f[2]) {
        Some(x) => x,
        None => {
            return None;
        },
    };
    let institution = match decode_text(&f[3]) {
        Some(x) => x,
        None => {
            return None;
        },
    };
    let research_domains = match decode_texts(&f[4]) {
        Some(x) => x,
        None => {
            return None;
        },
    };
    let personal_canister_id = match decode_optional_identity(&f[5]) {
        Some(x) => x,
        None => {
            return None;
        },
    };
    let created_at = match read_word(&f[6]) {
        Some(x) => x,
        None => {
            return None;
        },
    };
    Some(
        UserProfile {
            principal: decode_identity(&f[0]),
            username,
            email,
            institution,
            research_domains,
            personal_canister_id,
            created_at,
        },
    )
}

// Assets

/// The sixteen fields of an asset, in the order in which they are framed.
pub open spec fn asset_fields(a: ResearchNFTView) -> Seq<Seq<u8>> {
    seq![
        word(a.token_id),
        a.owner,
        encode_utf8(a.title),
        encode_utf8(a.description),
        texts_bytes(a.authors),
        seq![research_type_tag(a.research_type)],
        encode_utf8(a.content_hash),
        encode_utf8(a.license.license_type),
        flag_bytes(a.license.commercial_use),
        flag_bytes(a.license.attribution_required),
        word(a.created_at),
        texts_bytes(a.metadata.keywords),
        encode_utf8(a.metadata.research_domain),
        encode_utf8(a.metadata.institution),
        optional_text_bytes(a.metadata.doi),
        flag_bytes(a.metadata.peer_reviewed),
    ]
}

/// An asset as a table value.
pub open spec fn asset_bytes(a: ResearchNFTView) -> Seq<u8> {
    frame(asset_fields(a))
}

/// Whether sixteen fields each hold what an asset has in that place.
pub open spec fn asset_fields_ok(f: Seq<Seq<u8>>) -> bool {
    &&& f.len() == 16
    &&& parse_word(f[0]) is Some
    &&& parse_text(f[2]) is Some
    &&& parse_text(f[3]) is Some
    &&& parse_texts(f[4]) is Some
    &&& parse_research_type(f[5]) is Some
    &&& parse_text(f[6]) is Some
    &&& parse_text(f[7]) is Some
    &&& parse_flag(f[8]) is Some
    &&& parse_flag(f[9]) is Some
    &&& parse_word(f[10]) is Some
    &&& parse_texts(f[11]) is Some
    &&& parse_text(f[12]) is Some
    &&& parse_text(f[13]) is Some
    &&& parse_optional_text(f[14]) is Some
    &&& parse_flag(f[15]) is Some
}

/// The asset that a table value holds, if it holds one.
pub open spec fn parse_asset(b: Seq<u8>) -> Option<ResearchNFTView> {
    match unframe(b) {
        Some(f) => if asset_fields_ok(f) {
            Some(
                ResearchNFTView {
                    token_id: parse_word(f[0]).unwrap(),
                    owner: f[1],
                    title: parse_text(f[2]).unwrap(),
                    description: parse_text(f[3]).unwrap(),
                    authors: parse_texts(f[4]).unwrap(),
                    research_type: parse_research_type(f[5]).unwrap(),
                    content_hash: parse_text(f[6]).unwrap(),
                    license: LicenseView {
                        license_type: parse_text(f[7]).unwrap(),
                        commercial_use: parse_flag(f[8]).unwrap(),
                        attribution_required: parse_flag(f[9]).unwrap(),
                    },
                    created_at: parse_word(f[10]).unwrap(),
                    metadata: ResearchMetadataView {
                        keywords: parse_texts(f[11]).unwrap(),
                        research_domain: parse_text(f[12]).unwrap(),
                        institution: parse_text(f[13]).unwrap(),
                        doi: parse_optional_text(f[14]).unwrap(),
                        peer_reviewed: parse_flag(f[15]).unwrap(),
                    },
                },
            )
        } else {
            None
        },
        None => None,
    }
}

/// Writes an asset as a table value.
pub fn encode_asset(a: &ResearchNFT) -> (r: Vec<u8>)
    ensures
        r@ == asset_bytes(a@),
        parse_asset(r@) == Some(a@),
{
    let mut fields: Vec<Vec<u8>> = Vec::with_capacity(16);
    fields.push(word_bytes(a.token_id));
    fields.push(copy_bytes(&a.owner.0));
    fields.push(encode_text(&a.title));
    fields.push(encode_text(&a.description));
    fields.push(encode_texts(&a.authors));
    fields.push(encode_research_type(a.research_type));
    fields.push(encode_text(&a.content_hash));
    fields.push(encode_text(&a.license.license_type));
    fields.push(encode_flag(a.license.commercial_use));
    fields.push(encode_flag(a.license.attribution_required));
    fields.push(word_bytes(a.created_at));
    fields.push(encode_texts(&a.metadata.keywords));
    fields.push(encode_text(&a.metadata.research_domain));
    fields.push(encode_text(&a.metadata.institution));
    fields.push(encode_optional_text(&a.metadata.doi));
    fields.push(encode_flag(a.metadata.peer_reviewed));
    proof {
        lemma_word(a.token_id);
        lemma_word(a.created_at);
        assert(key_views(fields@) =~= asset_fields(a@));
    }
    frame_items(&fields)
}

/// Reads an asset from a table value, or nothing where the bytes hold none.
pub fn decode_asset(b: &Vec<u8>) -> (r: Option<ResearchNFT>)
    ensures
        match r {
            Some(a) => parse_asset(b@) == Some(a@),
            None => parse_asset(b@) is None,
        },
{
    let f = match unframe_items(b) {
        Some(f) => f,
        None => {
            return None;
        },
    };
    if f.len() != 16 {
        return None;
    }
    let ghost fv = key_views(f@);
    assert(forall|i: int| 0 <= i < 16 ==> fv[i] == (#[trigger] f@[i])@);
    let token_id = match read_word(&f[0]) {
        Some(x) => x,
        None => {
            return None;
        },
    };
    let title = match decode_text(&f[2]) {
        Some(x) => x,
        None => {
            return None;
        },
    };
    let description = match decode_text(&f[3]) {
        Some(x) => x,
        None => {
            return None;
        },
    };
    let authors = match decode_texts(&f[4]) {
        Some(x) => x,
        None => {
            return None;
        },
    };
    let research_type = match decode_research_type(&f[5]) {
        Some(x) => x,
        None => {
            return None;
        },
    };
    let content_hash = match decode_text(&f[6]) {
        Some(x) => x,
        None => {
            return None;
        },
    };
    let license = match decode_license(&f[7], &f[8], &f[9]) {
        Some(x) => x,
        None => {
            return None;
        },
    };
    let created_at = match read_word(&f[10]) {
        Some(x) => x,
        None => {
            return None;
        },
    };
    let metadata = match decode_metadata(&f[11], &f[12], &f[13], &f[14], &f[15]) {
        Some(x) => x,
        None => {
            return None;
        },
    };
    Some(
        ResearchNFT {
            token_id,
            owner: decode_identity(&f[1]),
            title,
            description,
            authors,
            research_type,
            content_hash,
            license,
            created_at,
            metadata,
        },
    )
}

fn decode_license(kind: &Vec<u8>, commercial: &Vec<u8>, attribution: &Vec<u8>) -> (r: Option<
    License,
>)
    ensures
        match r {
            Some(l) => parse_text(kind@) == Some(l@.license_type) && parse_flag(commercial@)
                == Some(l@.commercial_use) && parse_flag(attribution@) == Some(
                l@.attribution_required,
            ),
            None => parse_text(kind@) is None || parse_flag(commercial@) is None || parse_flag(
                attribution@,
            ) is None,
        },
{
    let license_type = match decode_text(kind) {
        Some(x) => x,
        None => {
            return None;
        },
    };
    let commercial_use = match decode_flag(commercial) {
        Some(x) => x,
        None => {
            return None;
        },
    };
    let attribution_required = match decode_flag(attribution) {
        Some(x) => x,
        None => {
            return None;
        },
    };
    Some(License { license_type, commercial_use, attribution_required })
}

fn decode_metadata(
    keywords: &Vec<u8>,
    domain: &Vec<u8>,
    institution: &Vec<u8>,
    doi: &Vec<u8>,
    reviewed: &Vec<u8>,
) -> (r: Option<ResearchMetadata>)
    ensures
        match r {
            Some(m) => parse_texts(keywords@) == Some(m@.keywords) && parse_text(domain@) == Some(
                m@.research_domain,
            ) && parse_text(institution@) == Some(m@.institution) && parse_optional_text(doi@)
                == Some(m@.doi) && parse_flag(reviewed@) == Some(m@.peer_reviewed),
            None => parse_texts(keywords@) is None || parse_text(domain@) is None || parse_text(
                institution@,
            ) is None || parse_optional_text(doi@) is None || parse_flag(reviewed@) is None,
        },
{
    let keywords = match decode_texts(keywords) {
        Some(x) => x,
        None => {
            return None;
        },
    };
    let research_domain = match decode_text(domain) {
        Some(x) => x,
        None => {
            return None;
        },
    };
    let institution = match decode_text(institution) {
        Some(x) => x,
        None => {
            return None;
        },
    };
    let doi = match decode_optional_text(doi) {
        Some(x) => x,
        None => {
            return None;
        },
    };
    let peer_reviewed = match decode_flag(reviewed) {
        Some(x) => x,
        None => {
            return None;
        },
    };
    Some(ResearchMetadata { keywords, research_domain, institution, doi, peer_reviewed })
}

// Proposals

/// The eleven fields of a proposal, in the order in which they are framed.
pub open spec fn proposal_fields(p: ProposalView) -> Seq<Seq<u8>> {
    seq![
        word(p.id),
        p.proposer,
        encode_utf8(p.title),
        encode_utf8(p.description),
        seq![proposal_type_tag(p.proposal_type)],
        seq![proposal_status_tag(p.status)],
        word(p.votes_for),
        word(p.votes_against),
        frame(p.voters),
        word(p.created_at),
        word(p.voting_ends_at),
    ]
}

/// A proposal as a table value.
pub open spec fn proposal_bytes(p: ProposalView) -> Seq<u8> {
    frame(proposal_fields(p))
}

/// Whether eleven fields each hold what a proposal has in that place.
pub open spec fn proposal_fields_ok(f: Seq<Seq<u8>>) -> bool {
    &&& f.len() == 11
    &&& parse_word(f[0]) is Some
    &&& parse_text(f[2]) is Some
    &&& parse_text(f[3]) is Some
    &&& parse_proposal_type(f[4]) is Some
    &&& parse_proposal_status(f[5]) is Some
    &&& parse_word(f[6]) is Some
    &&& parse_word(f[7]) is Some
    &&& unframe(f[8]) is Some
    &&& parse_word(f[9]) is Some
    &&& parse_word(f[10]) is Some
}

/// The proposal that a table value holds, if it holds one.
pub open spec fn parse_proposal(b: Seq<u8>) -> Option<ProposalView> {
    match unframe(b) {
        Some(f) => if proposal_fields_ok(f) {
            Some(
                ProposalView {
                    id: parse_word(f[0]).unwrap(),
                    proposer: f[1],
                    title: parse_text(f[2]).unwrap(),
                    description: parse_text(f[3]).unwrap(),
                    proposal_type: parse_proposal_type(f[4]).unwrap(),
                    status: parse_proposal_status(f[5]).unwrap(),
                    votes_for: parse_word(f[6]).unwrap(),
                    votes_against: parse_word(f[7]).unwrap(),
                    voters: unframe(f[8]).unwrap(),
                    created_at: parse_word(f[9]).unwrap(),
                    voting_ends_at: parse_word(f[10]).unwrap(),
                },
            )
        } else {
            None
        },
        None => None,
    }
}

/// Writes a proposal as a table value.
pub fn encode_proposal(p: &Proposal) -> (r: Vec<u8>)
    ensures
        r@ == proposal_bytes(p@),
        parse_proposal(r@) == Some(p@),
{
    let mut fields: Vec<Vec<u8>> = Vec::with_capacity(11);
    fields.push(word_bytes(p.id));
    fields.push(copy_bytes(&p.proposer.0));
    fields.push(encode_text(&p.title));
    fields.push(encode_text(&p.description));
    fields.push(encode_proposal_type(p.proposal_type));
    fields.push(encode_proposal_status(p.status));
    fields.push(word_bytes(p.votes_for));
    fields.push(word_bytes(p.votes_against));
    fields.push(encode_identities(&p.voters));
    fields.push(word_bytes(p.created_at));
    fields.push(word_bytes(p.voting_ends_at));
    proof {
        lemma_word(p.id);
        lemma_word(p.votes_for);
        lemma_word(p.votes_against);
        lemma_word(p.created_at);
        lemma_word(p.voting_ends_at);
        assert(key_views(fields@) =~= proposal_fields(p@));
    }
    frame_items(&fields)
}

/// Reads a proposal from a table value, or nothing where the bytes hold none.
pub fn decode_proposal(b: &Vec<u8>) -> (r: Option<Proposal>)
    ensures
        match r {
            Some(p) => parse_proposal(b@) == Some(p@),
            None => parse_proposal(b@) is None,
        },
{
    let f = match unframe_items(b) {
        Some(f) => f,
        None => {
            return None;
        },
    };
    if f.len() != 11 {
        return None;
    }
    let ghost fv = key_views(f@);
    assert(forall|i: int| 0 <= i < 11 ==> fv[i] == (#[trigger] f@[i])@);
    let id = match read_word(&f[0]) {
        Some(x) => x,
        None => {
            return None;
        },
    };
    let title = match decode_text(&f[2]) {
        Some(x) => x,
        None => {
            return None;
        },
    };
    let description = match decode_text(&f[3]) {
        Some(x) => x,
        None => {
            return None;
        },
    };
    let proposal_type = match decode_proposal_type(&f[4]) {
        Some(x) => x,
        None => {
            return None;
        },
    };
    let status = match decode_proposal_status(&f[5]) {
        Some(x) => x,
        None => {
            return None;
        },
    };
    let votes_for = match read_word(&f[6]) {
        Some(x) => x,
        None => {
            return None;
        },
    };
    let votes_against = match read_word(&f[7]) {
        Some(x) => x,
        None => {
            return None;
        },
    };
    let voters = match decode_identities(&f[8]) {
        Some(x) => x,
        None => {
            return None;
        },
    };
    let created_at = match read_word(&f[9]) {
        Some(x) => x,
        None => {
            return None;
        },
    };
    let voting_ends_at = match read_word(&f[10]) {
        Some(x) => x,
        None => {
            return None;
        },
    };
    Some(
        Proposal {
            id,
            proposer: decode_identity(&f[1]),
            title,
            description,
            proposal_type,
            status,
            votes_for,
            votes_against,
            voters,
            created_at,
            voting_ends_at,
        },
    )
}

} // verus!
