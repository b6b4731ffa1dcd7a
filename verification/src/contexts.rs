//! The operations of the marketplace. Each operation has a context: the
//! accounts it reads and writes, as plain values. An operation either
//! succeeds and leaves the context as its contract says, or is refused and
//! leaves the context as it was.

pub mod buy_nft;
pub mod delist_nft;
pub mod manage_index;
pub mod marketplace;
pub mod update_listing;

pub use buy_nft::BuyNft;
pub use delist_nft::DelistNft;
pub use manage_index::CreateIndex;
pub use marketplace::{
    close_marketplace, CloseMarketplace, InitializeMarketplace, ListNFT, PauseMarketplace,
};
pub use update_listing::UpdateListingMint;
