//! Metadata of the contract and of the carbonite NFT that each user holds.
use vstd::prelude::*;

use crate::runtime;
use crate::Contract;

verus! {

/// A skill, or a comma separated list of skills.
pub type Skills = String;

/// `company_name.task_name`, where the company's account ID is `company_name.carbonite.near`.
pub type TaskId = String;

/// Media that a newly minted token points to.
pub const DEFAULT_MEDIA_REFERENCE: &'static str = "ipfs://dummy_default_media_link";

/// Off-chain JSON that a newly minted token points to.
pub const DEFAULT_NFT_REFERENCE: &'static str = "ipfs://dummy_default_nft_link";

/// Metadata of the NFT contract.
pub struct NFTContractMetadata {
    pub spec: String,
    pub name: String,
    pub symbol: String,
    /// data URL
    pub icon: String,
    /// gateway known to have reliable access to the assets that `reference` and media URLs point to
    pub base_uri: String,
    /// URL to a JSON file with more info
    pub reference: String,
    /// sha256 hash of the JSON that `reference` points to
    pub reference_hash: Vec<u8>,
}

impl NFTContractMetadata {
    /// `self` and `other` hold the same texts and bytes.
    pub open spec fn same_as(&self, other: &NFTContractMetadata) -> bool {
        &&& self.spec@ == other.spec@
        &&& self.name@ == other.name@
        &&& self.symbol@ == other.symbol@
        &&& self.icon@ == other.icon@
        &&& self.base_uri@ == other.base_uri@
        &&& self.reference@ == other.reference@
        &&& self.reference_hash@ == other.reference_hash@
    }
}

impl Clone for NFTContractMetadata {
    fn clone(&self) -> (r: Self)
        ensures
            r.same_as(self),
    {
        let reference_hash = self.reference_hash.clone();
        assert(reference_hash@ =~= self.reference_hash@);
        NFTContractMetadata {
            spec: self.spec.clone(),
            name: self.name.clone(),
            symbol: self.symbol.clone(),
            icon: self.icon.clone(),
            base_uri: self.base_uri.clone(),
            reference: self.reference.clone(),
            reference_hash,
        }
    }
}

/// Counters of a user's activity that the NFT carries.
pub struct CarboniteMetdata {
    pub xp: u16,
    pub current_working_task_count: u8,
    pub total_tasks_completed: u16,
    pub total_bounty_earned: u32,
}

impl Default for CarboniteMetdata {
    fn default() -> (r: Self)
        ensures
            r.xp == 0,
            r.current_working_task_count == 0,
            r.total_tasks_completed == 0,
            r.total_bounty_earned == 0,
    {
        CarboniteMetdata { xp: 0, current_working_task_count: 0, total_tasks_completed: 0, total_bounty_earned: 0 }
    }
}

/// Metadata of a user's carbonite NFT.
pub struct TokenMetadata {
    pub title: String,
    /// free-form description, such as a short about-me section
    pub description: Option<String>,
    /// URL to the associated media on decentralised storage
    pub media: String,
    pub media_hash: Vec<u8>,
    /// when the token was minted, Unix epoch in milliseconds
    pub issued_at: u64,
    pub updated_at: Option<u64>,
    /// anything extra the NFT wants to store on-chain
    pub extra: Option<String>,
    pub carbonite_metadata: CarboniteMetdata,
    /// URL to an off-chain JSON file with more info
    pub reference: String,
    /// sha256 hash of the JSON that `reference` points to
    pub reference_hash: Vec<u8>,
}

/// The text of an optional string.
pub open spec fn opt_view(o: Option<String>) -> Option<Seq<char>> {
    match o {
        Some(s) => Some(s@),
        None => None,
    }
}

/// The placeholder hash that a new token carries: 32 bytes of value 5.
pub open spec fn placeholder_hash() -> Seq<u8> {
    Seq::new(32, |i: int| 5u8)
}

impl TokenMetadata {
    /// The token that `new` mints with the given title and description, issued at `now`.
    pub open spec fn is_default_token(&self, title: Seq<char>, description: Option<Seq<char>>, now: u64) -> bool {
        &&& self.title@ == title
        &&& match (self.description, description) {
            (Some(d), Some(e)) => d@ == e,
            (None, None) => true,
            _ => false,
        }
        &&& self.media@ == DEFAULT_MEDIA_REFERENCE@
        &&& self.media_hash@ == placeholder_hash()
        &&& self.issued_at == now
        &&& self.updated_at is None
        &&& self.extra is None
        &&& self.carbonite_metadata.xp == 0
        &&& self.carbonite_metadata.current_working_task_count == 0
        &&& self.carbonite_metadata.total_tasks_completed == 0
        &&& self.carbonite_metadata.total_bounty_earned == 0
        &&& self.reference@ == DEFAULT_NFT_REFERENCE@
        &&& self.reference_hash@ == placeholder_hash()
    }

    /// The default NFT token metadata with the given title and description, issued at `now`
    /// (Unix epoch in milliseconds).
    pub fn new_at(title: String, description: Option<String>, now: u64) -> (r: Self)
        ensures
            r.title == title,
            r.description == description,
            r.is_default_token(title@, opt_view(description), now),
    {
        let media_hash = vec![5u8; 32];
        let reference_hash = vec![5u8; 32];
        assert(media_hash@ =~= placeholder_hash());
        assert(reference_hash@ =~= placeholder_hash());
        TokenMetadata {
            title,
            description,
            media: DEFAULT_MEDIA_REFERENCE.to_owned(),
            media_hash,
            issued_at: now,
            updated_at: None,
            extra: None,
            carbonite_metadata: CarboniteMetdata::default(),
            reference: DEFAULT_NFT_REFERENCE.to_owned(),
            reference_hash,
        }
    }

    /// The default NFT token metadata with the given title and description, issued now.
    pub fn new(title: String, description: Option<String>) -> (r: Self)
        ensures
            r.title == title,
            r.description == description,
            exists|now: u64| #[trigger] r.is_default_token(title@, opt_view(description), now),
    {
        let now = runtime::block_timestamp_ms();
        Self::new_at(title, description, now)
    }
}

/// Access to the metadata of the NFT contract.
pub trait NonFungibleTokenMetadata {
    fn nft_metadata(&self) -> NFTContractMetadata;
}

impl NonFungibleTokenMetadata for Contract {
    fn nft_metadata(&self) -> (r: NFTContractMetadata)
        ensures
            r.same_as(&self.metadata),
    {
        self.metadata.clone()
    }
}

} // verus!
