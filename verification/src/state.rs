//! The records that the marketplace keeps: its configuration, one listing per
//! listed asset, and the bounded transaction index.

use vstd::prelude::*;
use crate::accounts::{nobody, units_held, Account, Address, TokenAccount};

verus! {

/// The highest fee rate: 10000 basis points are the whole price.
pub const MAX_FEE_BASIS_POINTS: u16 = 10000;

/// The listing of one asset: who sells it, at what price and until when, and
/// where the asset is held meanwhile.
#[derive(Clone, Copy, Debug, PartialEq)]
pub struct ListingAccount {
    pub seller: Address,
    pub nft_mint: Address,
    pub price: u64,
    pub token_account: Address,
    pub escrow_token_account: Address,
    pub created_at: i64,
    pub expires_at: Option<i64>,
    pub is_active: bool,
    pub bump: u8,
}

impl ListingAccount {
    /// The price of a listing is positive.
    pub open spec fn wf(&self) -> bool {
        self.price > 0
    }
}

impl Default for ListingAccount {
    /// A listing that names nobody and nothing, and is not active.
    fn default() -> (listing: ListingAccount)
        ensures
            listing.seller@ == nobody(),
            listing.nft_mint@ == nobody(),
            listing.token_account@ == nobody(),
            listing.escrow_token_account@ == nobody(),
            listing.price == 0,
            listing.created_at == 0,
            listing.expires_at is None,
            !listing.is_active,
            listing.bump == 0,
    {
        let zero = Address::default();
        ListingAccount {
            seller: zero,
            nft_mint: zero,
            price: 0,
            token_account: zero,
            escrow_token_account: zero,
            created_at: 0,
            expires_at: None,
            is_active: false,
            bump: 0,
        }
    }
}

/// The configuration of the marketplace, of which there is one.
#[derive(Clone, Copy, Debug, PartialEq)]
pub struct MarketplaceConfig {
    pub authority: Address,
    pub treasury_wallet: Address,
    pub fee_percentage: u16,
    pub is_paused: bool,
    pub bump: u8,
}

impl MarketplaceConfig {
    /// The fee rate is at most the whole price.
    pub open spec fn wf(&self) -> bool {
        self.fee_percentage <= MAX_FEE_BASIS_POINTS
    }
}

/// How many transaction ids one index holds at most.
pub const MAX_TRANSACTION_IDS: usize = 100;

/// The bytes of an index record besides its key and its ids: a tag of 8
/// bytes, the marketplace's address, the kind, two length prefixes of 4 bytes
/// and the bump seed.
pub const INDEX_BASE_SIZE: usize = 50;

/// What the keys of a transaction index stand for.
#[derive(Clone, Copy, Debug, PartialEq, Eq, Structural)]
pub enum IndexType {
    /// The index lists the transactions of one seller.
    Seller,
    /// The index lists the transactions of one buyer.
    Buyer,
    /// The index lists the transactions of one asset.
    Asset,
}

/// A bounded, append-only list of transaction ids under one key, kept so
/// that transactions can be found from outside the ledger.
#[derive(Debug, PartialEq)]
pub struct TransactionIndex {
    pub marketplace: Address,
    pub index_type: IndexType,
    pub key: String,
    pub transaction_ids: Vec<u64>,
    pub bump: u8,
}

/// A transaction index as plain values.
pub struct TransactionIndexView {
    pub marketplace: Address,
    pub index_type: IndexType,
    pub key: Seq<char>,
    pub transaction_ids: Seq<u64>,
    pub bump: u8,
}

impl View for TransactionIndex {
    type V = TransactionIndexView;

    open spec fn view(&self) -> TransactionIndexView {
        TransactionIndexView {
            marketplace: self.marketplace,
            index_type: self.index_type,
            key: self.key@,
            transaction_ids: self.transaction_ids@,
            bump: self.bump,
        }
    }
}

/// The ids of an index after `id` is appended; `None` where the index is
/// full. The ids that were there stay, in their order, before the new one.
pub open spec fn append_id(ids: Seq<u64>, id: u64) -> Option<Seq<u64>> {
    if ids.len() < MAX_TRANSACTION_IDS {
        Some(ids.push(id))
    } else {
        None
    }
}

/// The ids of an index after the ids of `new` are appended one by one;
/// `None` as soon as one of them meets a full index.
pub open spec fn append_ids(ids: Seq<u64>, new: Seq<u64>) -> Option<Seq<u64>>
    decreases new.len(),
{
    if new.len() == 0 {
        Some(ids)
    } else {
        match append_id(ids, new[0]) {
            Some(next) => append_ids(next, new.drop_first()),
            None => None,
        }
    }
}

/// Appending ids one by one goes through exactly while all of them fit, and
/// then the index holds the old ids followed by the new ones in their order.
pub proof fn lemma_append_ids(ids: Seq<u64>, new: Seq<u64>)
    requires
        ids.len() <= MAX_TRANSACTION_IDS,
    ensures
        ids.len() + new.len() <= MAX_TRANSACTION_IDS ==> append_ids(ids, new) == Some(ids + new),
        ids.len() + new.len() > MAX_TRANSACTION_IDS ==> append_ids(ids, new) is None,
    decreases new.len(),
{
    if new.len() == 0 {
        assert(ids + new =~= ids);
    } else if ids.len() < MAX_TRANSACTION_IDS {
        lemma_append_ids(ids.push(new[0]), new.drop_first());
        assert(ids.push(new[0]) + new.drop_first() =~= ids + new);
    }
}

/// The capacity of an index: an empty index takes any `MAX_TRANSACTION_IDS`
/// ids and then holds them in the order in which they came; the id after
/// them is refused, and so is every longer run of ids.
pub proof fn lemma_index_capacity(new: Seq<u64>)
    ensures
        new.len() <= MAX_TRANSACTION_IDS ==> append_ids(Seq::empty(), new) == Some(new),
        new.len() > MAX_TRANSACTION_IDS ==> append_ids(Seq::empty(), new) is None,
        new.len() > MAX_TRANSACTION_IDS ==> {
            let first = new.take(MAX_TRANSACTION_IDS as int);
            &&& append_ids(Seq::empty(), first) == Some(first)
            &&& append_id(first, new[MAX_TRANSACTION_IDS as int]) is None
        },
{
    let empty = Seq::<u64>::empty();
    lemma_append_ids(empty, new);
    assert(empty + new =~= new);
    if new.len() > MAX_TRANSACTION_IDS {
        let first = new.take(MAX_TRANSACTION_IDS as int);
        lemma_append_ids(empty, first);
        assert(empty + first =~= first);
    }
}

impl TransactionIndex {
    /// How many transaction ids one index holds at most.
    pub const MAX_TRANSACTION_IDS: usize = MAX_TRANSACTION_IDS;

    /// The bytes of an index record besides its key and its ids.
    pub const BASE_SIZE: usize = INDEX_BASE_SIZE;

    /// The index holds no more ids than it may.
    pub open spec fn wf(&self) -> bool {
        self.transaction_ids@.len() <= MAX_TRANSACTION_IDS
    }

    /// The bytes that the record of an index under `key` takes when it is
    /// sized for `MAX_TRANSACTION_IDS` ids of 8 bytes each; `None` where that
    /// size does not fit the machine's range.
    pub fn space(key: &str) -> (r: Option<usize>)
        ensures
            match r {
                Some(bytes) => bytes == INDEX_BASE_SIZE + key.len() + 8
                    * MAX_TRANSACTION_IDS,
                None => INDEX_BASE_SIZE + key.len() + 8 * MAX_TRANSACTION_IDS
                    > usize::MAX,
            },
    {
        let fixed: usize = INDEX_BASE_SIZE + 8 * MAX_TRANSACTION_IDS;
        key.len().checked_add(fixed)
    }
}

/// Whether a place holds a listing that is active.
pub open spec fn listing_is_active(listing: Account<ListingAccount>) -> bool {
    listing.data matches Some(record) && record.is_active
}

/// What ties a listing to its escrow: the listing is active exactly when the
/// escrow holds one unit of the asset.
pub open spec fn escrow_matches_listing(
    listing: Account<ListingAccount>,
    escrow: Account<TokenAccount>,
) -> bool {
    listing_is_active(listing) == (units_held(escrow) == 1)
}

} // verus!
