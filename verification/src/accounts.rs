//! Snapshots of the ledger accounts that an operation declares.
//!
//! A snapshot holds what the engine reads of an account, as plain values.
//! Whoever calls the engine takes it from the ledger and writes back what
//! the operation changed.
use crate::address::{address_view, find_address, lemma_address_by_bytes, seeds_view, Address};
use vstd::prelude::*;

verus! {

/// The program under which holding accounts are associated with an owner
/// and an asset.
pub const ASSOCIATED_TOKEN_PROGRAM: [u8; 32] = [
    140, 151, 37, 143, 78, 36, 137, 241, 187, 61, 16, 41, 20, 142, 13, 131,
    11, 90, 19, 153, 218, 255, 16, 132, 4, 142, 123, 216, 219, 233, 248, 89,
];

/// An account that exists: its address and what it holds.
#[derive(Clone, Debug, PartialEq, Eq)]
pub struct Account<T> {
    pub key: Address,
    pub data: T,
}

/// An address that may or may not hold an account yet.
#[derive(Clone, Debug, PartialEq, Eq)]
pub struct Slot<T> {
    pub key: Address,
    pub data: Option<T>,
}

/// The definition of an asset.
#[derive(Clone, Copy, Debug, PartialEq, Eq)]
pub struct Mint {
    /// Decimal places of one unit; 0 for an indivisible asset.
    pub decimals: u8,
    /// Who may mint new units, if anyone.
    pub mint_authority: Option<Address>,
}

/// An account that holds units of one asset for one owner.
#[derive(Clone, Copy, Debug, PartialEq, Eq)]
pub struct TokenAccount {
    pub mint: Address,
    pub owner: Address,
}

/// The collection that an asset's metadata attests it to belong to.
#[derive(Clone, Copy, Debug, PartialEq, Eq)]
pub struct Collection {
    pub key: Address,
    /// Whether the collection's authority has confirmed the membership.
    pub verified: bool,
}

/// The seeds of the holding account associated with an owner and an asset.
pub open spec fn associated_token_seeds(wallet: Address, mint: Address, token_program: Address)
    -> Seq<Seq<u8>> {
    seq![wallet@, token_program@, mint@]
}

/// The address of the holding account associated with an owner and an
/// asset: the canonical address of their seeds under the associated-token
/// program.
pub open spec fn associated_address(wallet: Address, mint: Address, token_program: Address)
    -> Option<Seq<u8>> {
    match find_address(
        associated_token_seeds(wallet, mint, token_program),
        ASSOCIATED_TOKEN_PROGRAM@,
    ) {
        Some((address, bump)) => Some(address),
        None => None,
    }
}

/// Whether `account` is the holding account associated with `wallet` and
/// `mint`.
pub open spec fn is_associated(
    account: Address,
    wallet: Address,
    mint: Address,
    token_program: Address,
) -> bool {
    associated_address(wallet, mint, token_program) == Some(account@)
}

/// The address of the holding account associated with an owner and an
/// asset, where one derives.
pub fn associated_token_address(
    wallet: &Address,
    mint: &Address,
    token_program: &Address,
) -> (address: Option<Address>)
    ensures
        address_view(address) == associated_address(*wallet, *mint, *token_program),
{
    let mut seeds: Vec<Vec<u8>> = Vec::new();
    seeds.push(wallet.to_seed());
    seeds.push(token_program.to_seed());
    seeds.push(mint.to_seed());
    assert(seeds_view(&seeds) =~= associated_token_seeds(*wallet, *mint, *token_program));
    let program = Address { bytes: ASSOCIATED_TOKEN_PROGRAM };
    match program.find(&seeds) {
        Some((address, bump)) => Some(address),
        None => None,
    }
}

impl Address {
    /// Whether this is the holding account associated with `wallet` and
    /// `mint`.
    pub fn is_associated_with(
        &self,
        wallet: &Address,
        mint: &Address,
        token_program: &Address,
    ) -> (yes: bool)
        ensures
            yes == is_associated(*self, *wallet, *mint, *token_program),
    {
        match associated_token_address(wallet, mint, token_program) {
            Some(address) => {
                proof {
                    lemma_address_by_bytes(address, *self);
                }
                address == *self
            },
            None => false,
        }
    }
}

impl<T> Slot<T> {
    /// A free address.
    pub fn vacant(key: Address) -> (slot: Slot<T>)
        ensures
            slot == (Slot::<T> { key, data: None }),
    {
        Slot { key, data: None }
    }

    /// An address with an account at it.
    pub fn occupied(key: Address, data: T) -> (slot: Slot<T>)
        ensures
            slot == (Slot { key, data: Some(data) }),
    {
        Slot { key, data: Some(data) }
    }
}

} // verus!
