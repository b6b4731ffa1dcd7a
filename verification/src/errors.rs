//! The ways in which an operation is refused: one list for the operations of
//! the marketplace, one for the rules on the assets that are traded there.

use vstd::prelude::*;

verus! {

/// Why an operation was refused. An operation that is refused changes nothing.
#[derive(Clone, Copy, Debug, PartialEq, Eq, Structural)]
pub enum MarketplaceError {
    /// Listing or buying was attempted while the marketplace is paused.
    MarketplacePaused,
    /// The price is zero.
    InvalidPrice,
    /// A custody account is not held by the party it should belong to, or the
    /// escrow does not hold exactly one unit of the asset.
    InvalidOwner,
    /// The caller is not the seller that the listing names.
    InvalidSeller,
    /// The asset is not part of the collection.
    InvalidCollection,
    /// The listing is closed, sold or otherwise not active.
    ListingNotActive,
    /// The fee rate is above 10000 basis points.
    InvalidFeePercentage,
    /// The listing duration is not positive.
    InvalidDuration,
    /// An account that must exist holds no record.
    AccountNotInitialized,
    /// The escrow is not the one that the listing refers to.
    InvalidEscrowAccount,
    /// The buyer holds less than the purchase requires.
    InsufficientBalance,
    /// Buyer and seller are the same identity.
    CannotBuyOwnNFT,
    /// The royalty rate is not acceptable.
    InvalidRoyaltyPercentage,
    /// The transaction index already holds as many ids as it can.
    IndexFull,
    /// An amount or a time does not fit its integer range.
    ArithmeticOverflow,
    /// The asset does not have a supply of exactly one unit.
    InvalidNFTSupply,
    /// The owner's custody account does not hold exactly one unit.
    InvalidTokenAmount,
    /// The caller is not the authority of the marketplace.
    InvalidMarketplaceAuthority,
    /// A record would be created where one already exists.
    AccountAlreadyInitialized,
    /// The wallet offered for the fee is not the treasury of the marketplace.
    InvalidTreasury,
    /// A record does not sit at the address derived from its seeds.
    InvalidDerivedAddress,
}

/// Why an asset, its metadata or its issue was refused.
#[derive(Clone, Copy, Debug, PartialEq, Eq, Structural)]
pub enum NFTError {
    /// The metadata of the asset is not in order: the shares of its creators
    /// do not make up the whole.
    InvalidMetadata,
    /// The metadata of the collection is not in order.
    InvalidCollectionMetadata,
    /// The metadata may not be changed.
    MetadataUpdateNotAllowed,
    /// The share of a creator is not in order.
    InvalidCreatorShare,
    /// The caller is not the authority.
    InvalidAuthority,
    /// The caller is not the authority that issues the asset.
    InvalidMintAuthority,
    /// The asset was issued already.
    AlreadyMinted,
    /// The asset does not have a supply of exactly one unit.
    InvalidNFTSupply,
    /// The custody account does not hold exactly one unit.
    InvalidTokenAmount,
    /// The caller is not the authority of the marketplace.
    InvalidMarketplaceAuthority,
    /// The marketplace is paused.
    MarketplacePaused,
}

} // verus!
