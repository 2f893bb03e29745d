use devite_backend::identity::StorablePrincipal;
use devite_backend::registry::decide;
use devite_backend::registry::Registry;
use devite_backend::types::{
    CreateProposalRequest, CreateUserRequest, Proposal, ProposalStatus, ProposalType, Vote,
};

const DAY: u64 = 86_400_000_000_000;

fn who(n: u8) -> StorablePrincipal {
    StorablePrincipal(vec![n])
}

fn join(r: &mut Registry, n: u8) {
    let request = CreateUserRequest {
        username: "u".to_string(),
        email: "e".to_string(),
        institution: "i".to_string(),
        research_domains: vec![],
    };
    assert!(r.register_user(&who(n), request, Some(who(0)), 1).is_ok());
}

fn request(days: u64) -> CreateProposalRequest {
    CreateProposalRequest {
        title: "Fund the archive".to_string(),
        description: "Three years of storage".to_string(),
        proposal_type: ProposalType::TreasuryAllocation,
        voting_duration_days: days,
    }
}

#[test]
fn quorum_is_a_fifth_of_all_balances_rounded_down() {
    assert_eq!(decide(150, 0, 1000), ProposalStatus::Rejected);
    assert_eq!(decide(199, 0, 1000), ProposalStatus::Rejected);
    assert_eq!(decide(200, 0, 1000), ProposalStatus::Passed);
    assert_eq!(decide(0, 200, 1000), ProposalStatus::Rejected);
    assert_eq!(decide(300, 300, 1000), ProposalStatus::Rejected);
    assert_eq!(decide(301, 300, 1000), ProposalStatus::Passed);
    assert_eq!(decide(300, 301, 1000), ProposalStatus::Rejected);
    assert_eq!(decide(0, 0, 0), ProposalStatus::Rejected);
    assert_eq!(decide(0, 0, 4), ProposalStatus::Rejected);
    assert_eq!(decide(1, 0, 9), ProposalStatus::Passed);
    assert_eq!(decide(1, 0, 10), ProposalStatus::Rejected);
    assert_eq!(decide(2, 0, 14), ProposalStatus::Passed);
    assert_eq!(decide(u64::MAX, u64::MAX, u64::MAX), ProposalStatus::Rejected);
    assert_eq!(decide(u64::MAX, u64::MAX - 1, u64::MAX), ProposalStatus::Passed);
    assert_eq!(decide(u64::MAX / 5 - 1, 0, u64::MAX), ProposalStatus::Rejected);
    assert_eq!(decide(u64::MAX / 5, 0, u64::MAX), ProposalStatus::Passed);
}

#[test]
fn created_proposal_reads_back_as_written() {
    let mut r = Registry::new();
    join(&mut r, 1);
    assert_eq!(r.create_proposal(&who(1), request(7), 1_000), Ok(1));
    let expected = Proposal {
        id: 1,
        proposer: who(1),
        title: "Fund the archive".to_string(),
        description: "Three years of storage".to_string(),
        proposal_type: ProposalType::TreasuryAllocation,
        status: ProposalStatus::Active,
        votes_for: 0,
        votes_against: 0,
        voters: vec![],
        created_at: 1_000,
        voting_ends_at: 1_000 + 7 * DAY,
    };
    assert_eq!(r.get_proposal(1), Some(expected.clone()));
    assert_eq!(r.get_proposal(2), None);
    assert_eq!(r.get_proposal(0), None);
    assert_eq!(r.create_proposal(&who(1), request(0), 2_000), Ok(2));
    assert_eq!(r.get_proposal(2).unwrap().voting_ends_at, 2_000);
    assert_eq!(r.get_proposal(1), Some(expected));
    assert_eq!(r.get_governance_token_balance(&who(1)), 1000);
}

#[test]
fn a_vote_weighs_the_balance_at_the_time_it_is_cast() {
    let mut r = Registry::new();
    join(&mut r, 1);
    join(&mut r, 2);
    assert_eq!(r.create_proposal(&who(1), request(1), 10), Ok(1));
    assert_eq!(r.vote_on_proposal(&who(1), 1, Vote::For, 11), Ok(()));
    let mint = devite_backend::types::MintRequest {
        title: "T".to_string(),
        description: "D".to_string(),
        authors: vec![],
        research_type: devite_backend::types::ResearchType::Paper,
        content_hash: "h".to_string(),
        license: devite_backend::types::License {
            license_type: "L".to_string(),
            commercial_use: false,
            attribution_required: false,
        },
        metadata: devite_backend::types::ResearchMetadata {
            keywords: vec![],
            research_domain: "d".to_string(),
            institution: "i".to_string(),
            doi: None,
            peer_reviewed: false,
        },
    };
    assert_eq!(r.mint_research_nft(&who(1), mint.clone(), 12), Ok(1));
    assert_eq!(r.mint_research_nft(&who(2), mint, 12), Ok(2));
    assert_eq!(r.vote_on_proposal(&who(2), 1, Vote::Against, 13), Ok(()));
    let p = r.get_proposal(1).unwrap();
    assert_eq!(p.votes_for, 1000);
    assert_eq!(p.votes_against, 1050);
    assert_eq!(p.voters, vec![who(1), who(2)]);
    assert_eq!(p.status, ProposalStatus::Active);
    assert_eq!(r.finalize_proposal(1, 10 + DAY + 1), Ok(()));
    assert_eq!(r.get_proposal(1).unwrap().status, ProposalStatus::Rejected);
}

#[test]
fn proposals_are_listed_in_id_order_and_active_ones_selected() {
    let mut r = Registry::new();
    join(&mut r, 1);
    for n in 1..=4u64 {
        assert_eq!(r.create_proposal(&who(1), request(0), n * 10), Ok(n));
    }
    assert_eq!(r.vote_on_proposal(&who(1), 3, Vote::For, 30), Ok(()));
    assert_eq!(r.finalize_proposal(1, 11), Ok(()));
    assert_eq!(r.finalize_proposal(3, 31), Ok(()));
    let all: Vec<(u64, ProposalStatus)> =
        r.get_all_proposals().into_iter().map(|p| (p.id, p.status)).collect();
    assert_eq!(
        all,
        vec![
            (1, ProposalStatus::Rejected),
            (2, ProposalStatus::Active),
            (3, ProposalStatus::Passed),
            (4, ProposalStatus::Active),
        ]
    );
    let active: Vec<u64> = r.get_active_proposals().into_iter().map(|p| p.id).collect();
    assert_eq!(active, vec![2, 4]);
}

#[test]
fn registries_do_not_share_their_tables() {
    let mut a = Registry::new();
    let mut b = Registry::new();
    join(&mut a, 1);
    assert!(!b.is_registered(&who(1)));
    join(&mut b, 2);
    assert!(!a.is_registered(&who(2)));
    assert_eq!(a.create_proposal(&who(1), request(1), 5), Ok(1));
    assert_eq!(b.get_proposal(1), None);
    assert_eq!(a.get_total_governance_tokens(), 1000);
    assert_eq!(b.list_all_users().len(), 1);
}
