//! The records of the registry, what callers ask with, and what an operation
//! can fail with. Each record has a view: the same fields as mathematical
//! values, which is what the contracts speak of.

use crate::identity::StorablePrincipal;
use vstd::prelude::*;

verus! {

/// The views of a list of texts.
pub open spec fn texts(v: Seq<String>) -> Seq<Seq<char>> {
    v.map_values(|s: String| s@)
}

/// The views of a list of identities.
pub open spec fn identities(v: Seq<StorablePrincipal>) -> Seq<Seq<u8>> {
    v.map_values(|p: StorablePrincipal| p@)
}

/// The view of an identity that may be missing.
pub open spec fn optional_identity(o: Option<StorablePrincipal>) -> Option<Seq<u8>> {
    match o {
        Some(p) => Some(p@),
        None => None,
    }
}

/// The view of a text that may be missing.
pub open spec fn optional_text(o: Option<String>) -> Option<Seq<char>> {
    match o {
        Some(s) => Some(s@),
        None => None,
    }
}

// Users

/// What the registry keeps of a registered identity.
#[derive(Clone, Debug, PartialEq, Eq)]
pub struct UserProfile {
    pub principal: StorablePrincipal,
    pub username: String,
    pub email: String,
    pub institution: String,
    pub research_domains: Vec<String>,
    pub personal_canister_id: Option<StorablePrincipal>,
    pub created_at: u64,
}

/// A profile as mathematical values.
pub struct UserProfileView {
    pub principal: Seq<u8>,
    pub username: Seq<char>,
    pub email: Seq<char>,
    pub institution: Seq<char>,
    pub research_domains: Seq<Seq<char>>,
    pub personal_canister_id: Option<Seq<u8>>,
    pub created_at: u64,
}

impl View for UserProfile {
    type V = UserProfileView;

    open spec fn view(&self) -> UserProfileView {
        UserProfileView {
            principal: self.principal@,
            username: self.username@,
            email: self.email@,
            institution: self.institution@,
            research_domains: texts(self.research_domains@),
            personal_canister_id: optional_identity(self.personal_canister_id),
            created_at: self.created_at,
        }
    }
}

/// What a caller registers with.
#[derive(Clone, Debug, PartialEq, Eq)]
pub struct CreateUserRequest {
    pub username: String,
    pub email: String,
    pub institution: String,
    pub research_domains: Vec<String>,
}

/// A registration request as mathematical values.
pub struct CreateUserRequestView {
    pub username: Seq<char>,
    pub email: Seq<char>,
    pub institution: Seq<char>,
    pub research_domains: Seq<Seq<char>>,
}

impl View for CreateUserRequest {
    type V = CreateUserRequestView;

    open spec fn view(&self) -> CreateUserRequestView {
        CreateUserRequestView {
            username: self.username@,
            email: self.email@,
            institution: self.institution@,
            research_domains: texts(self.research_domains@),
        }
    }
}

// Research assets

/// The kind of work that an asset records.
#[derive(Clone, Copy, Debug, PartialEq, Eq, Structural)]
pub enum ResearchType {
    Paper,
    Dataset,
    Code,
    Experiment,
    Review,
}

/// The terms under which an asset may be used.
#[derive(Clone, Debug, PartialEq, Eq)]
pub struct License {
    pub license_type: String,
    pub commercial_use: bool,
    pub attribution_required: bool,
}

/// A license as mathematical values.
pub struct LicenseView {
    pub license_type: Seq<char>,
    pub commercial_use: bool,
    pub attribution_required: bool,
}

impl View for License {
    type V = LicenseView;

    open spec fn view(&self) -> LicenseView {
        LicenseView {
            license_type: self.license_type@,
            commercial_use: self.commercial_use,
            attribution_required: self.attribution_required,
        }
    }
}

/// What describes an asset beyond its title.
#[derive(Clone, Debug, PartialEq, Eq)]
pub struct ResearchMetadata {
    pub keywords: Vec<String>,
    pub research_domain: String,
    pub institution: String,
    pub doi: Option<String>,
    pub peer_reviewed: bool,
}

/// The metadata of an asset as mathematical values.
pub struct ResearchMetadataView {
    pub keywords: Seq<Seq<char>>,
    pub research_domain: Seq<char>,
    pub institution: Seq<char>,
    pub doi: Option<Seq<char>>,
    pub peer_reviewed: bool,
}

impl View for ResearchMetadata {
    type V = ResearchMetadataView;

    open spec fn view(&self) -> ResearchMetadataView {
        ResearchMetadataView {
            keywords: texts(self.keywords@),
            research_domain: self.research_domain@,
            institution: self.institution@,
            doi: optional_text(self.doi),
            peer_reviewed: self.peer_reviewed,
        }
    }
}

/// A research asset: numbered, owned by one identity, transferable.
#[derive(Clone, Debug, PartialEq, Eq)]
pub struct ResearchNFT {
    pub token_id: u64,
    pub owner: StorablePrincipal,
    pub title: String,
    pub description: String,
    pub authors: Vec<String>,
    pub research_type: ResearchType,
    pub content_hash: String,
    pub license: License,
    pub created_at: u64,
    pub metadata: ResearchMetadata,
}

/// An asset as mathematical values.
pub struct ResearchNFTView {
    pub token_id: u64,
    pub owner: Seq<u8>,
    pub title: Seq<char>,
    pub description: Seq<char>,
    pub authors: Seq<Seq<char>>,
    pub research_type: ResearchType,
    pub content_hash: Seq<char>,
    pub license: LicenseView,
    pub created_at: u64,
    pub metadata: ResearchMetadataView,
}

impl View for ResearchNFT {
    type V = ResearchNFTView;

    open spec fn view(&self) -> ResearchNFTView {
        ResearchNFTView {
            token_id: self.token_id,
            owner: self.owner@,
            title: self.title@,
            description: self.description@,
            authors: texts(self.authors@),
            research_type: self.research_type,
            content_hash: self.content_hash@,
            license: self.license@,
            created_at: self.created_at,
            metadata: self.metadata@,
        }
    }
}

/// What a caller mints an asset with.
#[derive(Clone, Debug, PartialEq, Eq)]
pub struct MintRequest {
    pub title: String,
    pub description: String,
    pub authors: Vec<String>,
    pub research_type: ResearchType,
    pub content_hash: String,
    pub license: License,
    pub metadata: ResearchMetadata,
}

/// A mint request as mathematical values.
pub struct MintRequestView {
    pub title: Seq<char>,
    pub description: Seq<char>,
    pub authors: Seq<Seq<char>>,
    pub research_type: ResearchType,
    pub content_hash: Seq<char>,
    pub license: LicenseView,
    pub metadata: ResearchMetadataView,
}

impl View for MintRequest {
    type V = MintRequestView;

    open spec fn view(&self) -> MintRequestView {
        MintRequestView {
            title: self.title@,
            description: self.description@,
            authors: texts(self.authors@),
            research_type: self.research_type,
            content_hash: self.content_hash@,
            license: self.license@,
            metadata: self.metadata@,
        }
    }
}

// Governance

/// What a proposal is about.
#[derive(Clone, Copy, Debug, PartialEq, Eq, Structural)]
pub enum ProposalType {
    PlatformUpgrade,
    ResearchStandard,
    TreasuryAllocation,
    GovernanceChange,
}

/// Where a proposal stands. It starts `Active`; finalizing makes it `Passed`
/// or `Rejected`; `Executed` is kept for what may follow either.
#[derive(Clone, Copy, Debug, PartialEq, Eq, Structural)]
pub enum ProposalStatus {
    Active,
    Passed,
    Rejected,
    Executed,
}

/// One side of a vote.
#[derive(Clone, Copy, Debug, PartialEq, Eq, Structural)]
pub enum Vote {
    For,
    Against,
}

/// A proposal with its tallies and the identities that voted.
#[derive(Clone, Debug, PartialEq, Eq)]
pub struct Proposal {
    pub id: u64,
    pub proposer: StorablePrincipal,
    pub title: String,
    pub description: String,
    pub proposal_type: ProposalType,
    pub status: ProposalStatus,
    pub votes_for: u64,
    pub votes_against: u64,
    pub voters: Vec<StorablePrincipal>,
    pub created_at: u64,
    pub voting_ends_at: u64,
}

/// A proposal as mathematical values.
pub struct ProposalView {
    pub id: u64,
    pub proposer: Seq<u8>,
    pub title: Seq<char>,
    pub description: Seq<char>,
    pub proposal_type: ProposalType,
    pub status: ProposalStatus,
    pub votes_for: u64,
    pub votes_against: u64,
    pub voters: Seq<Seq<u8>>,
    pub created_at: u64,
    pub voting_ends_at: u64,
}

impl View for Proposal {
    type V = ProposalView;

    open spec fn view(&self) -> ProposalView {
        ProposalView {
            id: self.id,
            proposer: self.proposer@,
            title: self.title@,
            description: self.description@,
            proposal_type: self.proposal_type,
            status: self.status,
            votes_for: self.votes_for,
            votes_against: self.votes_against,
            voters: identities(self.voters@),
            created_at: self.created_at,
            voting_ends_at: self.voting_ends_at,
        }
    }
}

/// What a caller creates a proposal with.
#[derive(Clone, Debug, PartialEq, Eq)]
pub struct CreateProposalRequest {
    pub title: String,
    pub description: String,
    pub proposal_type: ProposalType,
    pub voting_duration_days: u64,
}

/// A request for a proposal as mathematical values.
pub struct CreateProposalRequestView {
    pub title: Seq<char>,
    pub description: Seq<char>,
    pub proposal_type: ProposalType,
    pub voting_duration_days: u64,
}

impl View for CreateProposalRequest {
    type V = CreateProposalRequestView;

    open spec fn view(&self) -> CreateProposalRequestView {
        CreateProposalRequestView {
            title: self.title@,
            description: self.description@,
            proposal_type: self.proposal_type,
            voting_duration_days: self.voting_duration_days,
        }
    }
}

/// The views of a list of profiles.
pub open spec fn profile_views(v: Seq<UserProfile>) -> Seq<UserProfileView> {
    v.map_values(|p: UserProfile| p@)
}

/// The views of a list of assets.
pub open spec fn asset_views(v: Seq<ResearchNFT>) -> Seq<ResearchNFTView> {
    v.map_values(|a: ResearchNFT| a@)
}

/// The views of a list of proposals.
pub open spec fn proposal_views(v: Seq<Proposal>) -> Seq<ProposalView> {
    v.map_values(|p: Proposal| p@)
}

// Personal storage

/// What describes an item of a user's personal storage.
#[derive(Clone, Debug, PartialEq, Eq)]
pub struct ItemMetadata {
    pub content_type: String,
    pub filename: String,
    pub description: String,
    pub tags: Vec<String>,
}

/// The metadata of a stored item as mathematical values.
pub struct ItemMetadataView {
    pub content_type: Seq<char>,
    pub filename: Seq<char>,
    pub description: Seq<char>,
    pub tags: Seq<Seq<char>>,
}

impl View for ItemMetadata {
    type V = ItemMetadataView;

    open spec fn view(&self) -> ItemMetadataView {
        ItemMetadataView {
            content_type: self.content_type@,
            filename: self.filename@,
            description: self.description@,
            tags: texts(self.tags@),
        }
    }
}

/// An item of a user's personal storage.
#[derive(Clone, Debug, PartialEq, Eq)]
pub struct StoredItem {
    pub id: String,
    pub content: Vec<u8>,
    pub metadata: ItemMetadata,
    pub created_at: u64,
    pub updated_at: u64,
}

/// A stored item as mathematical values.
pub struct StoredItemView {
    pub id: Seq<char>,
    pub content: Seq<u8>,
    pub metadata: ItemMetadataView,
    pub created_at: u64,
    pub updated_at: u64,
}

impl View for StoredItem {
    type V = StoredItemView;

    open spec fn view(&self) -> StoredItemView {
        StoredItemView {
            id: self.id@,
            content: self.content@,
            metadata: self.metadata@,
            created_at: self.created_at,
            updated_at: self.updated_at,
        }
    }
}

// Statistics and errors

/// Four counts over the whole registry.
#[derive(Clone, Copy, Debug, PartialEq, Eq, Structural)]
pub struct PlatformStats {
    pub total_users: u64,
    pub total_research_tokens: u64,
    pub active_proposals: u64,
    pub total_governance_tokens: u64,
}

/// Why an operation wrote nothing.
#[derive(Clone, Copy, Debug, PartialEq, Eq, Structural)]
pub enum Error {
    /// The caller has a profile already.
    AlreadyRegistered,
    /// The caller has no profile.
    NotRegistered,
    /// The caller's balance is under what a proposal asks for.
    InsufficientTokens,
    /// No asset, or no proposal, has the id.
    NotFound,
    /// The caller does not own the asset.
    NotOwner,
    /// The identity that should receive the asset has no profile.
    RecipientNotRegistered,
    /// The caller's balance is zero.
    NoVotingPower,
    /// The proposal's deadline has passed.
    VotingClosed,
    /// The caller voted on the proposal before.
    AlreadyVoted,
    /// The proposal's deadline has not passed.
    VotingStillActive,
    /// The proposal is no longer active.
    AlreadyFinalized,
    /// The resource that a registration needs could not be provided.
    ExternalProvisioningFailed,
}

impl Error {
    /// What the error says, in words.
    pub open spec fn text(self) -> Seq<char> {
        match self {
            Error::AlreadyRegistered => "User already registered"@,
            Error::NotRegistered => "User must be registered first"@,
            Error::InsufficientTokens => "Need at least 100 governance tokens to create proposal"@,
            Error::NotFound => "Not found"@,
            Error::NotOwner => "Not the owner"@,
            Error::RecipientNotRegistered => "Recipient must be registered"@,
            Error::NoVotingPower => "No governance tokens to vote"@,
            Error::VotingClosed => "Voting period has ended"@,
            Error::AlreadyVoted => "Already voted on this proposal"@,
            Error::VotingStillActive => "Voting period still active"@,
            Error::AlreadyFinalized => "Proposal already finalized"@,
            Error::ExternalProvisioningFailed => "Failed to create canister"@,
        }
    }

    /// What the error says, in words, as a string.
    pub fn message(&self) -> (r: String)
        ensures
            r@ == self.text(),
    {
        match self {
            Error::AlreadyRegistered => "User already registered".to_owned(),
            Error::NotRegistered => "User must be registered first".to_owned(),
            Error::InsufficientTokens => {
                "Need at least 100 governance tokens to create proposal".to_owned()
            },
            Error::NotFound => "Not found".to_owned(),
            Error::NotOwner => "Not the owner".to_owned(),
            Error::RecipientNotRegistered => "Recipient must be registered".to_owned(),
            Error::NoVotingPower => "No governance tokens to vote".to_owned(),
            Error::VotingClosed => "Voting period has ended".to_owned(),
            Error::AlreadyVoted => "Already voted on this proposal".to_owned(),
            Error::VotingStillActive => "Voting period still active".to_owned(),
            Error::AlreadyFinalized => "Proposal already finalized".to_owned(),
            Error::ExternalProvisioningFailed => "Failed to create canister".to_owned(),
        }
    }
}

} // verus!
