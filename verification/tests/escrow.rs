use marketplace_core::accounts::{Account, Address, Clock, Mint, TokenAccount, Wallet};
use marketplace_core::contexts::buy_nft::BuyNft;
use marketplace_core::contexts::delist_nft::DelistNft;
use marketplace_core::contexts::marketplace::ListNFT;
use marketplace_core::contexts::update_listing::UpdateListingMint;
use marketplace_core::errors::MarketplaceError;
use marketplace_core::pda::listing_address;
use marketplace_core::settlement::SettlementPolicy;
use marketplace_core::state::{ListingAccount, MarketplaceConfig};

fn addr(n: u8) -> Address {
    Address::new([n; 32])
}

fn active(listing: &Account<ListingAccount>) -> bool {
    match listing.data {
        Some(record) => record.is_active,
        None => false,
    }
}

fn held(escrow: &Account<TokenAccount>) -> u64 {
    match escrow.data {
        Some(custody) => custody.amount,
        None => 0,
    }
}

fn in_step(listing: &Account<ListingAccount>, escrow: &Account<TokenAccount>) -> bool {
    active(listing) == (held(escrow) == 1)
}

fn config() -> MarketplaceConfig {
    MarketplaceConfig {
        authority: addr(90),
        treasury_wallet: addr(91),
        fee_percentage: 250,
        is_paused: false,
        bump: 254,
    }
}

fn fresh() -> ListNFT {
    let mint = addr(10);
    ListNFT {
        owner: Wallet { key: addr(1), lamports: 5_000 },
        listing_account: Account {
            key: listing_address(&mint).unwrap().0,
            lamports: 1_500,
            data: None,
        },
        nft_mint: Mint { key: mint, supply: 1 },
        nft_token: Account {
            key: addr(11),
            lamports: 2_000,
            data: Some(TokenAccount { mint, owner: addr(1), amount: 1 }),
        },
        escrow_token_account: Account { key: addr(12), lamports: 2_000, data: None },
        marketplace_config: config(),
        clock: Clock { unix_timestamp: 1_700_000_000 },
    }
}

fn purchase_of(listed: &ListNFT) -> BuyNft {
    BuyNft {
        buyer: Wallet { key: addr(2), lamports: 3_000_000 },
        seller: listed.owner,
        config: listed.marketplace_config,
        listing_account: listed.listing_account,
        escrow_token_account: listed.escrow_token_account,
        buyer_token_account: Account {
            key: addr(13),
            lamports: 2_000,
            data: Some(TokenAccount { mint: addr(10), owner: addr(2), amount: 0 }),
        },
        treasury_wallet: Wallet { key: addr(91), lamports: 0 },
        creator_wallet: Wallet { key: addr(92), lamports: 0 },
    }
}

#[test]
fn listing_is_active_exactly_while_the_escrow_holds_the_asset() {
    let mut list = fresh();
    assert!(in_step(&list.listing_account, &list.escrow_token_account));
    assert!(!active(&list.listing_account));

    assert_eq!(list.list_nft(0, 60), Err(MarketplaceError::InvalidPrice));
    assert!(in_step(&list.listing_account, &list.escrow_token_account));
    assert!(!active(&list.listing_account));

    assert_eq!(list.list_nft(1_000_000, 60), Ok(()));
    assert!(in_step(&list.listing_account, &list.escrow_token_account));
    assert!(active(&list.listing_account));
    assert_eq!(held(&list.escrow_token_account), 1);

    let mut change = UpdateListingMint {
        listing_account: list.listing_account,
        seller: list.owner,
        clock: Clock { unix_timestamp: 1_700_000_010 },
    };
    assert_eq!(change.update_listing(2_000_000, 120), Ok(()));
    assert!(in_step(&change.listing_account, &list.escrow_token_account));
    assert!(active(&change.listing_account));
    list.listing_account = change.listing_account;

    let mut poor = purchase_of(&list);
    poor.buyer.lamports = 1_999_999;
    assert_eq!(
        poor.purchase(SettlementPolicy::SellerPaysFee),
        Err(MarketplaceError::InsufficientBalance)
    );
    assert!(in_step(&poor.listing_account, &poor.escrow_token_account));
    assert!(active(&poor.listing_account));

    let mut purchase = purchase_of(&list);
    let settlement = purchase.purchase(SettlementPolicy::SellerPaysFee).unwrap();
    assert_eq!(settlement.price, 2_000_000);
    assert_eq!(settlement.fee_amount, 50_000);
    assert!(in_step(&purchase.listing_account, &purchase.escrow_token_account));
    assert!(!active(&purchase.listing_account));
    assert_eq!(held(&purchase.escrow_token_account), 0);
    assert_eq!(held(&purchase.buyer_token_account), 1);
}

#[test]
fn delisting_ends_a_listing_in_step_with_its_escrow() {
    let mut list = fresh();
    assert_eq!(list.list_nft(1_000_000, 60), Ok(()));
    let mut back = DelistNft {
        owner: list.owner,
        listing_account: list.listing_account,
        owner_token_account: list.nft_token,
        escrow_token_account: list.escrow_token_account,
    };
    let mut stranger = back;
    stranger.owner.key = addr(3);
    assert_eq!(stranger.delist_nft(), Err(MarketplaceError::InvalidSeller));
    assert!(in_step(&stranger.listing_account, &stranger.escrow_token_account));
    assert!(active(&stranger.listing_account));

    assert_eq!(back.delist_nft(), Ok(()));
    assert!(in_step(&back.listing_account, &back.escrow_token_account));
    assert!(!active(&back.listing_account));
    assert_eq!(held(&back.escrow_token_account), 0);
    assert_eq!(held(&back.owner_token_account), 1);
}

#[test]
fn escrow_belongs_to_the_listing_and_to_no_user() {
    let mut list = fresh();
    assert_eq!(list.list_nft(1_000_000, 60), Ok(()));
    let escrow = list.escrow_token_account.data.unwrap();
    assert_eq!(escrow.owner, list.listing_account.key);
    assert_ne!(escrow.owner, list.owner.key);
    assert_eq!(list.listing_account.data.unwrap().escrow_token_account, addr(12));

    let mut taken = purchase_of(&list);
    taken.escrow_token_account.data =
        Some(TokenAccount { mint: addr(10), owner: addr(1), amount: 1 });
    assert_eq!(
        taken.purchase(SettlementPolicy::SellerPaysFee),
        Err(MarketplaceError::InvalidEscrowAccount)
    );
}
