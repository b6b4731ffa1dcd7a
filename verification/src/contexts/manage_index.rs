//! The transaction index: creating one under a key, and appending ids to it.

use vstd::prelude::*;
use crate::accounts::{Account, Wallet};
use crate::errors::MarketplaceError;
use crate::state::{
    append_id, IndexType, MarketplaceConfig, TransactionIndex, TransactionIndexView,
    MAX_TRANSACTION_IDS,
};

verus! {

/// The accounts of creating a transaction index and of appending to it.
#[derive(Debug, PartialEq)]
pub struct CreateIndex {
    /// Who pays for the storage of the index.
    pub payer: Wallet,
    /// The configuration of the marketplace that the index belongs to.
    pub config: Account<MarketplaceConfig>,
    /// The place of the index.
    pub index: Account<TransactionIndex>,
}

impl CreateIndex {
    /// The ids that the index holds, in the order in which they were
    /// appended; none where there is no index.
    pub open spec fn ids(&self) -> Seq<u64> {
        match self.index.data {
            Some(index) => index.transaction_ids@,
            None => Seq::empty(),
        }
    }

    /// Everything but the record of the index is as in `other`.
    pub open spec fn same_accounts(&self, other: CreateIndex) -> bool {
        &&& self.payer == other.payer
        &&& self.config == other.config
        &&& self.index.key == other.index.key
        &&& self.index.lamports == other.index.lamports
    }

    /// The reason for which no index can be created here; `None` where one
    /// can.
    pub open spec fn create_error(&self) -> Option<MarketplaceError> {
        if self.config.data is None {
            Some(MarketplaceError::AccountNotInitialized)
        } else if self.index.data is Some {
            Some(MarketplaceError::AccountAlreadyInitialized)
        } else {
            None
        }
    }

    /// The reason for which no id can be appended; `None` where one can.
    pub open spec fn add_error(&self) -> Option<MarketplaceError> {
        if self.index.data is None {
            Some(MarketplaceError::AccountNotInitialized)
        } else if append_id(self.ids(), 0) is None {
            Some(MarketplaceError::IndexFull)
        } else {
            None
        }
    }

    /// Creates the index of kind `index_type` under `key`: it belongs to this
    /// marketplace and holds no id yet. Refused where the marketplace has no
    /// configuration or the place already holds an index, and then nothing
    /// has changed.
    pub fn create_index(&mut self, index_type: IndexType, key: String, bump: u8) -> (r: Result<
        (),
        MarketplaceError,
    >)
        ensures
            match old(self).create_error() {
                Some(e) => r == Err::<(), MarketplaceError>(e) && *final(self) == *old(self),
                None => r is Ok && final(self).same_accounts(*old(self)) && final(self).index.data
                    is Some && final(self).index.data->0@ == (TransactionIndexView {
                    marketplace: old(self).config.key,
                    index_type,
                    key: key@,
                    transaction_ids: Seq::empty(),
                    bump,
                }),
            },
            r is Ok ==> final(self).index.data->0.wf(),
    {
        if !self.config.is_initialized() {
            return Err(MarketplaceError::AccountNotInitialized);
        }
        if self.index.is_initialized() {
            return Err(MarketplaceError::AccountAlreadyInitialized);
        }
        self.index.data = Some(
            TransactionIndex {
                marketplace: self.config.key,
                index_type,
                key,
                transaction_ids: Vec::new(),
                bump,
            },
        );
        Ok(())
    }

    /// Appends `transaction_id` to the index, behind the ids that are there.
    /// Refused with `IndexFull` where the index holds `MAX_TRANSACTION_IDS`
    /// ids, and then nothing has changed.
    pub fn add_transaction(&mut self, transaction_id: u64) -> (r: Result<(), MarketplaceError>)
        ensures
            match old(self).add_error() {
                Some(e) => r == Err::<(), MarketplaceError>(e) && *final(self) == *old(self),
                None => r is Ok && final(self).same_accounts(*old(self)) && final(self).index.data
                    is Some && final(self).index.data->0@ == (TransactionIndexView {
                    transaction_ids: old(self).ids().push(transaction_id),
                    ..old(self).index.data->0@
                }),
            },
            r is Ok <==> old(self).index.data is Some && old(self).ids().len() < MAX_TRANSACTION_IDS,
            r is Ok ==> Some(final(self).ids()) == append_id(old(self).ids(), transaction_id),
            old(self).index.data is Some && old(self).ids().len() >= MAX_TRANSACTION_IDS ==> r
                == Err::<(), MarketplaceError>(MarketplaceError::IndexFull),
            old(self).index.data is Some && old(self).index.data->0.wf()
                ==> final(self).index.data->0.wf(),
    {
        match &mut self.index.data {
            Some(index) => {
                if index.transaction_ids.len() >= MAX_TRANSACTION_IDS {
                    return Err(MarketplaceError::IndexFull);
                }
                index.transaction_ids.push(transaction_id);
                Ok(())
            },
            None => Err(MarketplaceError::AccountNotInitialized),
        }
    }
}

} // verus!
