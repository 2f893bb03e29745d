use devite_backend::codec::{
    decode_asset, decode_profile, decode_proposal, encode_asset, encode_profile, encode_proposal,
};
use devite_backend::fields::{
    decode_flag, decode_optional, decode_text, decode_texts, encode_flag, encode_optional,
    encode_text, encode_texts,
};
use devite_backend::framing::{
    frame_items, put_bytes, put_frame, put_word, read_word, unframe_items, word_bytes,
};
use devite_backend::identity::StorablePrincipal;
use devite_backend::lists::{copy_ids, remove_id};
use devite_backend::records::{
    decode_identities, decode_ids, decode_optional_identity, decode_optional_text,
    decode_proposal_status, decode_proposal_type, decode_research_type, encode_identities,
    encode_ids, encode_optional_identity, encode_optional_text, encode_proposal_status,
    encode_proposal_type, encode_research_type, id_key,
};
use devite_backend::types::{
    License, Proposal, ProposalStatus, ProposalType, ResearchMetadata, ResearchNFT, ResearchType,
    UserProfile,
};

#[test]
fn a_word_is_eight_bytes_lowest_first() {
    assert_eq!(word_bytes(0), vec![0; 8]);
    assert_eq!(word_bytes(1), vec![1, 0, 0, 0, 0, 0, 0, 0]);
    assert_eq!(word_bytes(0x0102_0304_0506_0708), vec![8, 7, 6, 5, 4, 3, 2, 1]);
    assert_eq!(word_bytes(u64::MAX), vec![255; 8]);
    assert_eq!(id_key(258), vec![2, 1, 0, 0, 0, 0, 0, 0]);
    assert_eq!(read_word(&vec![8, 7, 6, 5, 4, 3, 2, 1]), Some(0x0102_0304_0506_0708));
    assert_eq!(read_word(&vec![255; 8]), Some(u64::MAX));
    assert_eq!(read_word(&vec![0; 7]), None);
    assert_eq!(read_word(&vec![0; 9]), None);
    assert_eq!(read_word(&vec![]), None);
}

#[test]
fn a_frame_is_the_length_then_the_bytes() {
    let mut out = vec![9];
    put_word(&mut out, 3);
    assert_eq!(out, vec![9, 3, 0, 0, 0, 0, 0, 0, 0]);
    put_bytes(&mut out, &vec![1, 2]);
    assert_eq!(out, vec![9, 3, 0, 0, 0, 0, 0, 0, 0, 1, 2]);
    let mut framed = vec![];
    put_frame(&mut framed, &vec![97, 98]);
    assert_eq!(framed, vec![2, 0, 0, 0, 0, 0, 0, 0, 97, 98]);
    assert_eq!(frame_items(&vec![]), Vec::<u8>::new());
    assert_eq!(
        frame_items(&vec![vec![7], vec![], vec![1, 2, 3]]),
        vec![1, 0, 0, 0, 0, 0, 0, 0, 7, 0, 0, 0, 0, 0, 0, 0, 0, 3, 0, 0, 0, 0, 0, 0, 0, 1, 2, 3]
    );
}

#[test]
fn unframing_gives_the_items_back_or_nothing() {
    assert_eq!(unframe_items(&vec![]), Some(vec![]));
    let items = vec![vec![7], vec![], vec![1, 2, 3], vec![0; 300]];
    assert_eq!(unframe_items(&frame_items(&items)), Some(items));
    assert_eq!(unframe_items(&vec![0; 8]), Some(vec![vec![]]));
    assert_eq!(unframe_items(&vec![1, 0, 0, 0, 0, 0, 0]), None);
    assert_eq!(unframe_items(&vec![1, 0, 0, 0, 0, 0, 0, 0]), None);
    assert_eq!(unframe_items(&vec![2, 0, 0, 0, 0, 0, 0, 0, 5]), None);
    assert_eq!(unframe_items(&vec![1, 0, 0, 0, 0, 0, 0, 0, 5, 1]), None);
    assert_eq!(unframe_items(&vec![255; 9]), None);
    assert_eq!(unframe_items(&vec![1, 0, 0, 0, 0, 0, 0, 0, 5]), Some(vec![vec![5]]));
}

#[test]
fn texts_are_written_as_utf8_and_read_only_from_utf8() {
    assert_eq!(encode_text(&"aé€".to_string()), vec![0x61, 0xc3, 0xa9, 0xe2, 0x82, 0xac]);
    assert_eq!(encode_text(&String::new()), Vec::<u8>::new());
    assert_eq!(decode_text(&vec![0x61, 0xc3, 0xa9, 0xe2, 0x82, 0xac]), Some("aé€".to_string()));
    assert_eq!(decode_text(&vec![]), Some(String::new()));
    assert_eq!(decode_text(&vec![0xff]), None);
    assert_eq!(decode_text(&vec![0xc3]), None);
    assert_eq!(decode_text(&vec![0x61, 0x80]), None);
    assert_eq!(decode_text(&vec![0xed, 0xa0, 0x80]), None);
    assert_eq!(decode_text(&vec![0xc0, 0xaf]), None);
    let list = vec!["one".to_string(), String::new(), "trois né".to_string()];
    assert_eq!(decode_texts(&encode_texts(&list)), Some(list));
    assert_eq!(encode_texts(&vec!["hi".to_string()]), vec![2, 0, 0, 0, 0, 0, 0, 0, 0x68, 0x69]);
    assert_eq!(decode_texts(&vec![]), Some(vec![]));
    assert_eq!(decode_texts(&vec![1, 0, 0, 0, 0, 0, 0, 0, 0xff]), None);
    assert_eq!(decode_texts(&vec![1, 0, 0]), None);
}

#[test]
fn flags_tags_and_missing_values_read_back() {
    assert_eq!(encode_flag(true), vec![1]);
    assert_eq!(encode_flag(false), vec![0]);
    assert_eq!(decode_flag(&vec![1]), Some(true));
    assert_eq!(decode_flag(&vec![0]), Some(false));
    assert_eq!(decode_flag(&vec![2]), None);
    assert_eq!(decode_flag(&vec![]), None);
    assert_eq!(decode_flag(&vec![1, 0]), None);
    assert_eq!(encode_optional(None), Vec::<u8>::new());
    assert_eq!(encode_optional(Some(&vec![4, 5])), vec![2, 0, 0, 0, 0, 0, 0, 0, 4, 5]);
    assert_eq!(decode_optional(&vec![]), Some(None));
    assert_eq!(decode_optional(&vec![0; 8]), Some(Some(vec![])));
    assert_eq!(decode_optional(&vec![0; 16]), None);
    assert_eq!(decode_optional(&vec![0; 3]), None);
    assert_eq!(decode_optional_text(&encode_optional_text(&None)), Some(None));
    let doi = Some("10.1/x".to_string());
    assert_eq!(decode_optional_text(&encode_optional_text(&doi)), Some(doi));
    assert_eq!(decode_optional_text(&vec![1, 0, 0, 0, 0, 0, 0, 0, 0xff]), None);
    let id = Some(StorablePrincipal(vec![1, 2]));
    assert_eq!(decode_optional_identity(&encode_optional_identity(&id)), Some(id));
    assert_eq!(decode_optional_identity(&encode_optional_identity(&None)), Some(None));
    let kinds = [
        (ResearchType::Paper, 0u8),
        (ResearchType::Dataset, 1),
        (ResearchType::Code, 2),
        (ResearchType::Experiment, 3),
        (ResearchType::Review, 4),
    ];
    for (kind, tag) in kinds {
        assert_eq!(encode_research_type(kind), vec![tag]);
        assert_eq!(decode_research_type(&vec![tag]), Some(kind));
    }
    assert_eq!(decode_research_type(&vec![5]), None);
    assert_eq!(decode_research_type(&vec![]), None);
    let types = [
        (ProposalType::PlatformUpgrade, 0u8),
        (ProposalType::ResearchStandard, 1),
        (ProposalType::TreasuryAllocation, 2),
        (ProposalType::GovernanceChange, 3),
    ];
    for (t, tag) in types {
        assert_eq!(encode_proposal_type(t), vec![tag]);
        assert_eq!(decode_proposal_type(&vec![tag]), Some(t));
    }
    assert_eq!(decode_proposal_type(&vec![4]), None);
    let statuses = [
        (ProposalStatus::Active, 0u8),
        (ProposalStatus::Passed, 1),
        (ProposalStatus::Rejected, 2),
        (ProposalStatus::Executed, 3),
    ];
    for (s, tag) in statuses {
        assert_eq!(encode_proposal_status(s), vec![tag]);
        assert_eq!(decode_proposal_status(&vec![tag]), Some(s));
    }
    assert_eq!(decode_proposal_status(&vec![4]), None);
    assert_eq!(decode_proposal_status(&vec![0, 0]), None);
}

#[test]
fn lists_of_ids_and_identities_read_back() {
    assert_eq!(encode_ids(&vec![]), Vec::<u8>::new());
    assert_eq!(
        encode_ids(&vec![1, 258]),
        vec![
            8, 0, 0, 0, 0, 0, 0, 0, 1, 0, 0, 0, 0, 0, 0, 0, 8, 0, 0, 0, 0, 0, 0, 0, 2, 1, 0, 0, 0,
            0, 0, 0
        ]
    );
    assert_eq!(decode_ids(&encode_ids(&vec![5, 3, u64::MAX, 0])), Some(vec![5, 3, u64::MAX, 0]));
    assert_eq!(decode_ids(&vec![]), Some(vec![]));
    assert_eq!(decode_ids(&vec![1, 0, 0, 0, 0, 0, 0, 0, 9]), None);
    assert_eq!(decode_ids(&vec![8, 0, 0, 0, 0, 0, 0, 0, 9]), None);
    let ids = vec![StorablePrincipal(vec![]), StorablePrincipal(vec![1, 2, 3])];
    assert_eq!(decode_identities(&encode_identities(&ids)), Some(ids));
    assert_eq!(decode_identities(&vec![3]), None);
    assert_eq!(remove_id(&vec![4, 2, 9, 2, 7], 2), vec![4, 9, 7]);
    assert_eq!(remove_id(&vec![4, 9], 2), vec![4, 9]);
    assert_eq!(remove_id(&vec![], 2), Vec::<u64>::new());
    assert_eq!(copy_ids(&vec![3, 1, 2]), vec![3, 1, 2]);
}

fn profile() -> UserProfile {
    UserProfile {
        principal: StorablePrincipal(vec![1, 2, 3]),
        username: "ada".to_string(),
        email: "ada@lab.example".to_string(),
        institution: "Lab".to_string(),
        research_domains: vec!["a".to_string(), "b".to_string()],
        personal_canister_id: None,
        created_at: 99,
    }
}

fn asset() -> ResearchNFT {
    ResearchNFT {
        token_id: 7,
        owner: StorablePrincipal(vec![4]),
        title: "Title".to_string(),
        description: "Description".to_string(),
        authors: vec!["Ada".to_string()],
        research_type: ResearchType::Review,
        content_hash: "hash".to_string(),
        license: License {
            license_type: "L".to_string(),
            commercial_use: false,
            attribution_required: true,
        },
        created_at: 5,
        metadata: ResearchMetadata {
            keywords: vec!["k1".to_string(), "k2".to_string()],
            research_domain: "d".to_string(),
            institution: "i".to_string(),
            doi: Some("doi".to_string()),
            peer_reviewed: true,
        },
    }
}

fn proposal() -> Proposal {
    Proposal {
        id: 3,
        proposer: StorablePrincipal(vec![4]),
        title: "T".to_string(),
        description: "D".to_string(),
        proposal_type: ProposalType::TreasuryAllocation,
        status: ProposalStatus::Passed,
        votes_for: 10,
        votes_against: u64::MAX,
        voters: vec![StorablePrincipal(vec![4]), StorablePrincipal(vec![5, 5])],
        created_at: 1,
        voting_ends_at: 2,
    }
}

#[test]
fn records_read_back_as_written() {
    assert_eq!(decode_profile(&encode_profile(&profile())), Some(profile()));
    let mut with_resource = profile();
    with_resource.personal_canister_id = Some(StorablePrincipal(vec![]));
    assert_eq!(decode_profile(&encode_profile(&with_resource)), Some(with_resource));
    assert_eq!(decode_asset(&encode_asset(&asset())), Some(asset()));
    let mut no_doi = asset();
    no_doi.metadata.doi = None;
    no_doi.authors = vec![];
    assert_eq!(decode_asset(&encode_asset(&no_doi)), Some(no_doi));
    assert_eq!(decode_proposal(&encode_proposal(&proposal())), Some(proposal()));
    let mut fresh = proposal();
    fresh.voters = vec![];
    fresh.status = ProposalStatus::Active;
    assert_eq!(decode_proposal(&encode_proposal(&fresh)), Some(fresh));
}

#[test]
fn a_profile_is_the_frames_of_its_seven_fields() {
    let mut p = profile();
    p.research_domains = vec![];
    p.username = "a".to_string();
    p.email = String::new();
    p.institution = String::new();
    let expected = frame_items(&vec![
        vec![1, 2, 3],
        vec![0x61],
        vec![],
        vec![],
        vec![],
        vec![],
        vec![99, 0, 0, 0, 0, 0, 0, 0],
    ]);
    assert_eq!(encode_profile(&p), expected);
    assert_eq!(expected.len(), 7 * 8 + 3 + 1 + 8);
}

#[test]
fn records_are_not_read_from_other_bytes() {
    assert_eq!(decode_profile(&vec![]), None);
    assert_eq!(decode_asset(&vec![]), None);
    assert_eq!(decode_proposal(&vec![]), None);
    assert_eq!(decode_profile(&vec![1, 2, 3]), None);
    assert_eq!(decode_profile(&encode_asset(&asset())), None);
    assert_eq!(decode_asset(&encode_proposal(&proposal())), None);
    assert_eq!(decode_proposal(&encode_profile(&profile())), None);
    let mut cut = encode_profile(&profile());
    cut.pop();
    assert_eq!(decode_profile(&cut), None);
    let mut longer = encode_asset(&asset());
    longer.extend_from_slice(&[0; 8]);
    assert_eq!(decode_asset(&longer), None);
    let mut bad_name = profile();
    bad_name.username = "x".to_string();
    let mut bytes = encode_profile(&bad_name);
    bytes[8 + 3 + 8] = 0xff;
    assert_eq!(decode_profile(&bytes), None);
    let mut bad_status = encode_proposal(&proposal());
    let at = 8 + 8 + 8 + 1 + 8 + 1 + 8 + 1 + 8 + 1 + 8;
    assert_eq!(bad_status[at], 1);
    bad_status[at] = 9;
    assert_eq!(decode_proposal(&bad_status), None);
}
