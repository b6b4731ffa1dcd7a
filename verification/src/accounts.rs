//! Plain-value pictures of the ledger accounts that the marketplace reads and
//! writes: identities, wallets, custody accounts and program-owned slots.

use vstd::prelude::*;
use vstd::std_specs::cmp::PartialEqSpecImpl;

verus! {

/// A 32-byte ledger identity: a wallet, an asset, a custody account or a
/// program-owned record is named by one.
#[derive(Clone, Copy, Debug)]
pub struct Address {
    pub bytes: [u8; 32],
}

impl View for Address {
    type V = Seq<u8>;

    open spec fn view(&self) -> Seq<u8> {
        self.bytes@
    }
}

impl Address {
    /// The identity with the given bytes.
    pub fn new(bytes: [u8; 32]) -> (a: Address)
        ensures
            a.bytes == bytes,
            a@ == bytes@,
    {
        Address { bytes }
    }

    /// The bytes of the identity, in order.
    pub fn to_vec(&self) -> (v: Vec<u8>)
        ensures
            v@ == self@,
    {
        let mut v: Vec<u8> = Vec::new();
        let mut i: usize = 0;
        while i < 32
            invariant
                i <= 32,
                v@ == self.bytes@.take(i as int),
            decreases 32 - i,
        {
            v.push(self.bytes[i]);
            i += 1;
        }
        v
    }

    /// Two identities with the same bytes are the same identity.
    pub proof fn lemma_view_injective(a: Address, b: Address)
        ensures
            (a@ == b@) <==> (a == b),
    {
        if a@ == b@ {
            assert forall|i: int| 0 <= i < 32 implies a.bytes[i] == b.bytes[i] by {
                assert(a.bytes[i] == a@[i]);
                assert(b.bytes[i] == b@[i]);
            }
            assert(a.bytes =~= b.bytes);
        }
    }
}

/// A wallet: an identity and the balance it can spend, in the smallest
/// currency unit.
#[derive(Clone, Copy, Debug, PartialEq)]
pub struct Wallet {
    pub key: Address,
    pub lamports: u64,
}

/// An asset as its issuer records it: its identity and how many units exist.
#[derive(Clone, Copy, Debug, PartialEq)]
pub struct Mint {
    pub key: Address,
    pub supply: u64,
}

/// What a custody account holds: units of one asset, on behalf of one owner.
#[derive(Clone, Copy, Debug, PartialEq)]
pub struct TokenAccount {
    pub mint: Address,
    pub owner: Address,
    pub amount: u64,
}

/// The time of the ledger when an operation runs, in seconds.
#[derive(Clone, Copy, Debug, PartialEq)]
pub struct Clock {
    pub unix_timestamp: i64,
}

/// A place on the ledger that can hold one record: its address, the deposit
/// that pays for its storage, and the record, if there is one. A place
/// without a record is vacant: nothing was created there yet, or what was
/// there has been closed.
#[derive(Clone, Copy, Debug, PartialEq)]
pub struct Account<T> {
    pub key: Address,
    pub lamports: u64,
    pub data: Option<T>,
}

impl<T> Account<T> {
    /// The place after its record is closed: vacant, its deposit paid out.
    pub open spec fn closed(self) -> Account<T> {
        Account { key: self.key, lamports: 0, data: None }
    }

    /// The place holding `record`, address and deposit as they are.
    pub open spec fn holding(self, record: T) -> Account<T> {
        Account { key: self.key, lamports: self.lamports, data: Some(record) }
    }

    /// Whether the place holds a record.
    pub fn is_initialized(&self) -> (r: bool)
        ensures
            r == (self.data is Some),
    {
        self.data.is_some()
    }

    /// Closes the record: the place becomes vacant and its deposit is handed
    /// to the caller, who owes it to the party that reclaims the storage.
    pub fn close(&mut self) -> (reclaimed: u64)
        ensures
            reclaimed == old(self).lamports,
            *final(self) == old(self).closed(),
    {
        let reclaimed = self.lamports;
        self.lamports = 0;
        self.data = None;
        reclaimed
    }
}

/// The custody of a listed asset: a custody place that belongs to the listing
/// itself, not to any user, and holds exactly one unit of the asset for as
/// long as the listing is active.
pub type EscrowVault = Account<TokenAccount>;

/// How many units of its asset a custody place holds; none where it is vacant.
pub open spec fn units_held(vault: Account<TokenAccount>) -> nat {
    match vault.data {
        Some(held) => held.amount as nat,
        None => 0,
    }
}

impl PartialEq for Address {
    fn eq(&self, other: &Address) -> (r: bool) {
        let mut i: usize = 0;
        while i < 32
            invariant
                i <= 32,
                forall|j: int| 0 <= j < i ==> self.bytes[j] == other.bytes[j],
            decreases 32 - i,
        {
            if self.bytes[i] != other.bytes[i] {
                return false;
            }
            i += 1;
        }
        assert(self.bytes =~= other.bytes);
        true
    }
}

impl PartialEqSpecImpl for Address {
    open spec fn obeys_eq_spec() -> bool {
        true
    }

    open spec fn eq_spec(&self, other: &Address) -> bool {
        *self == *other
    }
}

impl Eq for Address {

}

/// The bytes of the identity that stands for nobody: 32 zero bytes.
pub open spec fn nobody() -> Seq<u8> {
    Seq::new(32, |i: int| 0u8)
}

impl Default for Address {
    /// The identity that stands for nobody.
    fn default() -> (a: Address)
        ensures
            a@ == nobody(),
    {
        let a = Address { bytes: [0u8; 32] };
        assert(a@ =~= nobody());
        a
    }
}

} // verus!
