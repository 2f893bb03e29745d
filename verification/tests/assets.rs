use devite_backend::identity::StorablePrincipal;
use devite_backend::registry::Registry;
use devite_backend::search::{lowered, matches_keyword, text_matches};
use devite_backend::types::{
    CreateProposalRequest, CreateUserRequest, License, MintRequest, PlatformStats, ProposalType,
    ResearchMetadata, ResearchNFT, ResearchType,
};

fn who(n: u8) -> StorablePrincipal {
    StorablePrincipal(vec![n, n])
}

fn join(r: &mut Registry, n: u8) {
    let request = CreateUserRequest {
        username: format!("user{}", n),
        email: String::new(),
        institution: "Lab".to_string(),
        research_domains: vec!["math".to_string()],
    };
    assert!(r.register_user(&who(n), request, Some(StorablePrincipal(vec![n])), 5).is_ok());
}

fn work(title: &str, kind: ResearchType, keywords: &[&str]) -> MintRequest {
    MintRequest {
        title: title.to_string(),
        description: "Notes on ÉCLAIRS and storms".to_string(),
        authors: vec!["Ada".to_string(), "Bob".to_string()],
        research_type: kind,
        content_hash: "00ff".to_string(),
        license: License {
            license_type: "CC0".to_string(),
            commercial_use: true,
            attribution_required: false,
        },
        metadata: ResearchMetadata {
            keywords: keywords.iter().map(|k| k.to_string()).collect(),
            research_domain: "weather".to_string(),
            institution: "Lab".to_string(),
            doi: None,
            peer_reviewed: true,
        },
    }
}

fn ids(v: &[ResearchNFT]) -> Vec<u64> {
    v.iter().map(|a| a.token_id).collect()
}

#[test]
fn minted_asset_reads_back_as_written() {
    let mut r = Registry::new();
    join(&mut r, 1);
    let request = work("Lightning", ResearchType::Experiment, &["Storm", "plasma"]);
    assert_eq!(r.mint_research_nft(&who(1), request.clone(), 77), Ok(1));
    let expected = ResearchNFT {
        token_id: 1,
        owner: who(1),
        title: request.title,
        description: request.description,
        authors: request.authors,
        research_type: request.research_type,
        content_hash: request.content_hash,
        license: request.license,
        created_at: 77,
        metadata: request.metadata,
    };
    assert_eq!(r.get_research_token(1), Some(expected.clone()));
    assert_eq!(r.get_research_token(2), None);
    assert_eq!(r.get_research_token(0), None);
    join(&mut r, 2);
    assert_eq!(r.mint_research_nft(&who(2), work("Rain", ResearchType::Paper, &[]), 78), Ok(2));
    assert_eq!(r.get_research_token(1), Some(expected));
}

#[test]
fn ids_count_up_from_one_and_rewards_add_up() {
    let mut r = Registry::new();
    join(&mut r, 1);
    join(&mut r, 2);
    for n in 1..=5u64 {
        let by = if n % 2 == 1 { who(1) } else { who(2) };
        assert_eq!(r.mint_research_nft(&by, work("W", ResearchType::Code, &[]), n), Ok(n));
        assert_eq!(r.total_research_tokens(), n);
    }
    assert_eq!(r.get_tokens_by_owner(&who(1)), vec![1, 3, 5]);
    assert_eq!(r.get_tokens_by_owner(&who(2)), vec![2, 4]);
    assert_eq!(r.get_governance_token_balance(&who(1)), 1000 + 3 * 50);
    assert_eq!(r.get_governance_token_balance(&who(2)), 1000 + 2 * 50);
    assert_eq!(r.get_total_governance_tokens(), 2250);
}

#[test]
fn transfer_moves_the_asset_between_index_entries() {
    let mut r = Registry::new();
    join(&mut r, 1);
    join(&mut r, 2);
    for n in 1..=3u64 {
        assert_eq!(r.mint_research_nft(&who(1), work("W", ResearchType::Code, &[]), n), Ok(n));
    }
    assert_eq!(r.mint_research_nft(&who(2), work("W", ResearchType::Code, &[]), 4), Ok(4));
    assert_eq!(r.transfer_research_token(&who(1), 2, &who(2)), Ok(()));
    assert_eq!(r.get_tokens_by_owner(&who(1)), vec![1, 3]);
    assert_eq!(r.get_tokens_by_owner(&who(2)), vec![4, 2]);
    assert_eq!(r.get_research_token(2).unwrap().owner, who(2));
    assert_eq!(r.get_research_token(2).unwrap().created_at, 2);
    assert_eq!(r.get_research_token(1).unwrap().owner, who(1));
    assert_eq!(r.get_governance_token_balance(&who(1)), 1150);
    assert_eq!(r.get_governance_token_balance(&who(2)), 1050);
    assert_eq!(r.transfer_research_token(&who(2), 2, &who(1)), Ok(()));
    assert_eq!(r.get_tokens_by_owner(&who(1)), vec![1, 3, 2]);
    assert_eq!(r.get_tokens_by_owner(&who(2)), vec![4]);
    assert_eq!(r.total_research_tokens(), 4);
}

#[test]
fn transfer_to_oneself_moves_the_asset_to_the_end() {
    let mut r = Registry::new();
    join(&mut r, 1);
    for n in 1..=3u64 {
        assert_eq!(r.mint_research_nft(&who(1), work("W", ResearchType::Code, &[]), n), Ok(n));
    }
    assert_eq!(r.transfer_research_token(&who(1), 1, &who(1)), Ok(()));
    assert_eq!(r.get_tokens_by_owner(&who(1)), vec![2, 3, 1]);
    assert_eq!(r.get_research_token(1).unwrap().owner, who(1));
}

#[test]
fn every_asset_is_in_exactly_one_index_entry() {
    let mut r = Registry::new();
    for n in 1..=3u8 {
        join(&mut r, n);
    }
    for n in 1..=6u64 {
        let by = who((n % 3) as u8 + 1);
        assert_eq!(r.mint_research_nft(&by, work("W", ResearchType::Code, &[]), n), Ok(n));
    }
    assert_eq!(r.transfer_research_token(&who(2), 1, &who(3)), Ok(()));
    assert_eq!(r.transfer_research_token(&who(3), 1, &who(1)), Ok(()));
    assert_eq!(r.transfer_research_token(&who(1), 3, &who(2)), Ok(()));
    assert_eq!(r.transfer_research_token(&who(2), 4, &who(2)), Ok(()));
    for id in 1..=6u64 {
        let owner = r.get_research_token(id).unwrap().owner;
        let mut entries = 0;
        for n in 1..=3u8 {
            let listed = r.get_tokens_by_owner(&who(n));
            let times = listed.iter().filter(|t| **t == id).count();
            assert_eq!(times, if who(n) == owner { 1 } else { 0 });
            entries += times;
        }
        assert_eq!(entries, 1);
    }
}

#[test]
fn assets_are_selected_by_kind_in_id_order() {
    let mut r = Registry::new();
    join(&mut r, 1);
    let kinds = [
        ResearchType::Paper,
        ResearchType::Dataset,
        ResearchType::Paper,
        ResearchType::Code,
        ResearchType::Experiment,
        ResearchType::Paper,
    ];
    for (n, kind) in kinds.iter().enumerate() {
        assert_eq!(r.mint_research_nft(&who(1), work("W", *kind, &[]), 1), Ok(n as u64 + 1));
    }
    assert_eq!(ids(&r.get_tokens_by_research_type(ResearchType::Paper)), vec![1, 3, 6]);
    assert_eq!(ids(&r.get_tokens_by_research_type(ResearchType::Dataset)), vec![2]);
    assert_eq!(ids(&r.get_tokens_by_research_type(ResearchType::Code)), vec![4]);
    assert_eq!(ids(&r.get_tokens_by_research_type(ResearchType::Experiment)), vec![5]);
    assert_eq!(ids(&r.get_tokens_by_research_type(ResearchType::Review)), Vec::<u64>::new());
}

#[test]
fn search_ignores_case_and_looks_in_title_description_and_keywords() {
    let mut r = Registry::new();
    join(&mut r, 1);
    let mut a = work("Lightning Rods", ResearchType::Paper, &["Plasma"]);
    a.description = "About sparks".to_string();
    let mut b = work("Rainfall", ResearchType::Paper, &["Clouds", "LIGHTNING"]);
    b.description = "About water".to_string();
    let mut c = work("Snow", ResearchType::Paper, &[]);
    c.description = "No lightNing here, only flakes".to_string();
    let mut d = work("Fog", ResearchType::Paper, &["mist"]);
    d.description = "Grey".to_string();
    for request in [a, b, c, d] {
        assert!(r.mint_research_nft(&who(1), request, 1).is_ok());
    }
    assert_eq!(ids(&r.search_research_by_keyword(&"lightning".to_string())), vec![1, 2, 3]);
    assert_eq!(ids(&r.search_research_by_keyword(&"LIGHTNING".to_string())), vec![1, 2, 3]);
    assert_eq!(ids(&r.search_research_by_keyword(&"LightNing R".to_string())), vec![1]);
    assert_eq!(ids(&r.search_research_by_keyword(&"mist".to_string())), vec![4]);
    assert_eq!(ids(&r.search_research_by_keyword(&"o".to_string())), vec![1, 2, 3, 4]);
    assert_eq!(ids(&r.search_research_by_keyword(&"".to_string())), vec![1, 2, 3, 4]);
    assert_eq!(ids(&r.search_research_by_keyword(&"thunder".to_string())), Vec::<u64>::new());
    assert_eq!(ids(&r.search_research_by_keyword(&"Cc0".to_string())), Vec::<u64>::new());
}

#[test]
fn keyword_is_compared_as_given_against_lowered_texts() {
    let mut r = Registry::new();
    join(&mut r, 1);
    let request = work("Thunder", ResearchType::Paper, &["ÉCLAIRS"]);
    assert!(r.mint_research_nft(&who(1), request, 1).is_ok());
    let asset = r.get_research_token(1).unwrap();
    assert!(matches_keyword(&asset, &"thunder".to_string()));
    assert!(!matches_keyword(&asset, &"Thunder".to_string()));
    assert!(matches_keyword(&asset, &"éclairs".to_string()));
    assert!(matches_keyword(&asset, &lowered(&"ÉCLAIRS AND".to_string())));
    assert_eq!(lowered(&"ÉCLAIRS and Storms".to_string()), "éclairs and storms");
}

#[test]
fn text_matches_looks_for_the_needle_as_a_substring() {
    let none: Vec<String> = vec![];
    let words = vec!["alpha".to_string(), "beta".to_string()];
    let t = "title".to_string();
    let d = "description".to_string();
    assert!(text_matches(&"itl".to_string(), &t, &d, &none));
    assert!(text_matches(&"script".to_string(), &t, &d, &none));
    assert!(text_matches(&"et".to_string(), &t, &d, &words));
    assert!(text_matches(&"".to_string(), &t, &d, &none));
    assert!(!text_matches(&"tile".to_string(), &t, &d, &words));
    assert!(!text_matches(&"alphabeta".to_string(), &t, &d, &words));
    assert!(!text_matches(&"Title".to_string(), &t, &d, &words));
    assert!(!text_matches(&"titles".to_string(), &t, &d, &none));
}

#[test]
fn stats_count_users_assets_active_proposals_and_balances() {
    let mut r = Registry::new();
    assert_eq!(
        r.get_platform_stats(),
        PlatformStats {
            total_users: 0,
            total_research_tokens: 0,
            active_proposals: 0,
            total_governance_tokens: 0,
        }
    );
    for n in 1..=3u8 {
        join(&mut r, n);
    }
    assert!(r.mint_research_nft(&who(1), work("W", ResearchType::Code, &[]), 1).is_ok());
    assert!(r.mint_research_nft(&who(2), work("W", ResearchType::Code, &[]), 1).is_ok());
    for n in 1..=3u8 {
        let request = CreateProposalRequest {
            title: "T".to_string(),
            description: "D".to_string(),
            proposal_type: ProposalType::ResearchStandard,
            voting_duration_days: 0,
        };
        assert_eq!(r.create_proposal(&who(n), request, 10), Ok(n as u64));
    }
    assert_eq!(r.finalize_proposal(2, 11), Ok(()));
    assert_eq!(
        r.get_platform_stats(),
        PlatformStats {
            total_users: 3,
            total_research_tokens: 2,
            active_proposals: 2,
            total_governance_tokens: 3100,
        }
    );
}

#[test]
fn an_index_entry_can_become_empty_and_fill_again() {
    let mut r = Registry::new();
    join(&mut r, 1);
    join(&mut r, 2);
    assert_eq!(r.mint_research_nft(&who(1), work("W", ResearchType::Code, &[]), 1), Ok(1));
    assert_eq!(r.transfer_research_token(&who(1), 1, &who(2)), Ok(()));
    assert_eq!(r.get_tokens_by_owner(&who(1)), Vec::<u64>::new());
    assert_eq!(r.get_tokens_by_owner(&who(2)), vec![1]);
    let again = r.transfer_research_token(&who(1), 1, &who(2));
    assert_eq!(again, Err(devite_backend::Error::NotOwner));
    assert_eq!(r.transfer_research_token(&who(2), 1, &who(1)), Ok(()));
    assert_eq!(r.get_tokens_by_owner(&who(1)), vec![1]);
    assert_eq!(r.get_tokens_by_owner(&who(2)), Vec::<u64>::new());
}

#[test]
fn long_records_and_many_entries_read_back() {
    let mut r = Registry::new();
    join(&mut r, 1);
    let mut long = work("Long", ResearchType::Dataset, &[]);
    long.description = "x".repeat(200_000);
    long.authors = (0..500).map(|n| format!("author {}", n)).collect();
    assert_eq!(r.mint_research_nft(&who(1), long.clone(), 9), Ok(1));
    let got = r.get_research_token(1).unwrap();
    assert_eq!(got.description, long.description);
    assert_eq!(got.authors, long.authors);
    for n in 2..=300u64 {
        assert_eq!(r.mint_research_nft(&who(1), work("W", ResearchType::Code, &[]), n), Ok(n));
    }
    assert_eq!(r.total_research_tokens(), 300);
    assert_eq!(r.get_tokens_by_owner(&who(1)), (1..=300).collect::<Vec<u64>>());
    assert_eq!(r.get_governance_token_balance(&who(1)), 1000 + 300 * 50);
    assert_eq!(r.get_research_token(1).unwrap().description.len(), 200_000);
    assert_eq!(r.get_research_token(300).unwrap().created_at, 300);
    assert_eq!(ids(&r.get_tokens_by_research_type(ResearchType::Dataset)), vec![1]);
    assert_eq!(r.get_tokens_by_research_type(ResearchType::Code).len(), 299);
}
