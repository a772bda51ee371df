//! The records of the ledger, and what holds of each of them at all times.

use crate::address::Address;
use vstd::prelude::*;
use vstd::utf8::encode_utf8;

verus! {

/// The longest asset type and category, in bytes.
pub const MAX_TYPE_LEN: usize = 32;

/// The longest name, city, province and country, in bytes.
pub const MAX_NAME_LEN: usize = 64;

/// The longest reference to an image or to metadata kept elsewhere, in bytes.
pub const MAX_CID_LEN: usize = 100;

/// The longest title of a proposal, in bytes.
pub const MAX_TITLE_LEN: usize = 200;

/// The longest description of a proposal, in bytes.
pub const MAX_DESCRIPTION_LEN: usize = 1000;

/// The longest picture that a unit carries, in bytes.
pub const MAX_SVG_LEN: usize = 5000;

/// The number of bytes that a text takes when it is stored.
pub open spec fn byte_len(text: Seq<char>) -> nat {
    encode_utf8(text).len()
}

/// Counts the bytes that a text takes when it is stored.
pub fn stored_len(text: &String) -> (len: usize)
    ensures
        len == byte_len(text@),
{
    text.as_str().as_bytes().len()
}

/// The registry of the operator: one for the whole program.
#[derive(Clone, Copy, Debug, PartialEq, Eq)]
pub struct Factory {
    pub admin: Address,
    pub treasury: Address,
    pub property_count: u64,
    pub bump: u8,
}

/// An asset that was split into units.
#[derive(Clone, Debug, PartialEq, Eq)]
pub struct Property {
    pub factory: Address,
    pub property_id: u64,
    pub asset_type: String,
    pub name: String,
    pub city: String,
    pub province: String,
    pub country: String,
    pub total_shares: u64,
    pub share_price: u64,
    pub shares_sold: u64,
    pub sale_start: i64,
    pub sale_end: i64,
    pub is_active: bool,
    pub surface: u32,
    pub rooms: u8,
    pub expected_return: u32,
    pub property_type: String,
    pub year_built: u16,
    pub image_cid: String,
    pub metadata_cid: String,
    pub voting_enabled: bool,
    pub total_dividends_deposited: u64,
    pub total_dividends_claimed: u64,
    pub proposal_count: u64,
    pub is_liquidated: bool,
    pub liquidation_amount: u64,
    pub liquidation_claimed: u64,
    pub bump: u8,
}

/// One unit of a property, held by its owner.
#[derive(Clone, Debug, PartialEq, Eq)]
pub struct ShareNFT {
    pub property: Address,
    pub owner: Address,
    pub token_id: u64,
    pub mint_time: i64,
    pub dividends_claimed: u64,
    pub nft_image_uri: String,
    pub nft_metadata_uri: String,
    pub voting_power: u64,
    pub bump: u8,
    pub nft_svg_data: String,
}

/// A question put to the holders of a property's units.
#[derive(Clone, Debug, PartialEq, Eq)]
pub struct Proposal {
    pub property: Address,
    pub proposal_id: u64,
    pub title: String,
    pub description: String,
    pub creator: Address,
    pub created_at: i64,
    pub voting_ends_at: i64,
    pub yes_votes: u64,
    pub no_votes: u64,
    pub is_active: bool,
    pub is_executed: bool,
    pub bump: u8,
}

/// The vote that one unit cast on one proposal.
#[derive(Clone, Copy, Debug, PartialEq, Eq)]
pub struct Vote {
    pub proposal: Address,
    pub voter: Address,
    pub share_nft: Address,
    pub vote_choice: bool,
    pub voted_at: i64,
    pub bump: u8,
}

/// A wallet to which the operator gave its own rights over a registry.
#[derive(Clone, Copy, Debug, PartialEq, Eq)]
pub struct TeamMember {
    pub factory: Address,
    pub wallet: Address,
    pub added_by: Address,
    pub added_at: i64,
    pub is_active: bool,
    pub bump: u8,
}

/// The rules of the program that a call can break.
#[derive(Clone, Copy, Debug, PartialEq, Eq)]
pub enum FactoryError {
    AssetTypeTooLong,
    NameTooLong,
    CityTooLong,
    ProvinceTooLong,
    CountryTooLong,
    TypeTooLong,
    ImageCidTooLong,
    MetadataCidTooLong,
    InvalidShareAmount,
    InvalidPrice,
    SaleEnded,
    PropertyInactive,
    AllSharesSold,
    InvalidAmount,
    NoSharesSold,
    MathOverflow,
    NoDividendsToClaim,
    SaleStillActive,
    TitleTooLong,
    DescriptionTooLong,
    SvgDataTooLong,
    EmptySvgData,
    InvalidDuration,
    VotingDisabled,
    ProposalInactive,
    VotingEnded,
    NotNftOwner,
    WrongProperty,
    NoVotingPower,
    VotingStillActive,
    TeamMemberInactive,
    Unauthorized,
    AlreadyLiquidated,
    NotLiquidated,
    LiquidationInsufficientFunds,
}

impl Property {
    /// What holds of a property from its creation on, whatever is done to it.
    pub open spec fn well_formed(&self) -> bool {
        &&& byte_len(self.asset_type@) <= MAX_TYPE_LEN
        &&& byte_len(self.name@) <= MAX_NAME_LEN
        &&& byte_len(self.city@) <= MAX_NAME_LEN
        &&& byte_len(self.province@) <= MAX_NAME_LEN
        &&& byte_len(self.country@) <= MAX_NAME_LEN
        &&& byte_len(self.property_type@) <= MAX_TYPE_LEN
        &&& byte_len(self.image_cid@) <= MAX_CID_LEN
        &&& byte_len(self.metadata_cid@) <= MAX_CID_LEN
        &&& self.total_shares > 0
        &&& self.share_price > 0
        &&& self.sale_start <= self.sale_end
        &&& self.shares_sold <= self.total_shares
        &&& self.is_active ==> self.shares_sold < self.total_shares
        &&& self.liquidation_claimed <= self.liquidation_amount
        &&& if self.is_liquidated {
            &&& self.shares_sold == self.total_shares
            &&& !self.is_active
            &&& self.liquidation_amount > 0
            &&& self.liquidation_amount % self.total_shares == 0
        } else {
            self.liquidation_amount == 0
        }
    }
}

impl Proposal {
    /// What holds of a proposal from its creation on.
    pub open spec fn well_formed(&self) -> bool {
        &&& byte_len(self.title@) <= MAX_TITLE_LEN
        &&& byte_len(self.description@) <= MAX_DESCRIPTION_LEN
        &&& self.created_at < self.voting_ends_at
        &&& !self.is_executed
    }
}

} // verus!
